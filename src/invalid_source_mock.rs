// A source that fails in the ways a real one can, for exercising the host end to end.
use vstd::prelude::*;
use vstd::string::*;

use crate::error::SourceError;
use crate::locale::Locale;
use crate::model::{chapters_view, numbered_chapters, Chapter, Manga, MangaV, Source, SourceV};
use crate::text::{concat, str_eq};

verus! {

pub const SOURCE_IDENTIFIER: &'static str = "invalid_source_macro_mock";

pub const SOURCE_TITLE: &'static str = "Mocked Invalid Ebi Extension";

pub const SOURCE_DESCRIPTION: &'static str =
    "This is just a mocked source only intended to be used for tests! No real content here";

/// The manga whose chapters this source can list.
pub open spec fn valid_manga_view() -> MangaV {
    MangaV {
        identifier: "valid"@,
        title: "A Valid Manga Title"@,
        cover: "http://127.0.0.1/valid-manga-cover"@,
        url: "http://127.0.0.1/valid-manga"@,
        genres: Seq::empty(),
        description: None,
        source_identifier: SOURCE_IDENTIFIER@,
    }
}

/// A manga that this source cannot list chapters for.
pub open spec fn invalid_manga_view() -> MangaV {
    MangaV {
        identifier: "invalid"@,
        title: "A Invalid Manga Title"@,
        cover: "http://127.0.0.1/invalid-manga-cover"@,
        url: "http://127.0.0.1/invalid-manga"@,
        genres: Seq::empty(),
        description: None,
        source_identifier: SOURCE_IDENTIFIER@,
    }
}

/// The message with which this source refuses the chapters of `id`.
pub open spec fn refusal(id: Seq<char>) -> Seq<char> {
    "It was not possible to load chapters for \""@ + id + "\""@
}

/// A source that fails: it cannot list its catalog, and lists chapters for one manga only.
pub fn source() -> (r: Source)
    ensures
        r@ == (SourceV {
            identifier: SOURCE_IDENTIFIER@,
            title: SOURCE_TITLE@,
            description: SOURCE_DESCRIPTION@,
            locale: Locale::EnUs,
        }),
{
    Source {
        identifier: String::from_str(SOURCE_IDENTIFIER),
        title: String::from_str(SOURCE_TITLE),
        description: String::from_str(SOURCE_DESCRIPTION),
        locale: Locale::EnUs,
    }
}

/// The catalog cannot be fetched.
pub fn manga_list() -> (r: Result<Vec<Manga>, SourceError>)
    ensures
        r == Err::<Vec<Manga>, SourceError>(SourceError::Fetch),
{
    Err(SourceError::Fetch)
}

/// The hundred chapters of the valid manga; any other manga is refused with a message
/// that names it.
pub fn chapter_list(manga_identifier: String, manga_url: String) -> (r: Result<
    Vec<Chapter>,
    SourceError,
>)
    ensures
        manga_identifier@ == valid_manga_view().identifier ==> match r {
            Ok(v) => chapters_view(v@) == numbered_chapters(
                valid_manga_view().title,
                manga_identifier@,
                manga_url@,
                SOURCE_IDENTIFIER@,
                100,
            ),
            Err(_) => false,
        },
        manga_identifier@ != valid_manga_view().identifier ==> match r {
            Err(SourceError::Unknown(m)) => m@ == refusal(manga_identifier@),
            _ => false,
        },
{
    let valid = valid_manga();
    if !str_eq(manga_identifier.as_str(), valid.identifier.as_str()) {
        let mut m = concat("It was not possible to load chapters for \"", manga_identifier.as_str());
        m.append("\"");
        return Err(SourceError::Unknown(m));
    }
    Ok(get_chapters(manga_identifier.as_str(), manga_url.as_str(), 100))
}

/// The manga whose chapters this source can list.
pub fn valid_manga() -> (r: Manga)
    ensures
        r@ == valid_manga_view(),
{
    let r = Manga {
        identifier: String::from_str("valid"),
        cover: String::from_str("http://127.0.0.1/valid-manga-cover"),
        description: None,
        genres: Vec::new(),
        source_identifier: String::from_str(SOURCE_IDENTIFIER),
        title: String::from_str("A Valid Manga Title"),
        url: String::from_str("http://127.0.0.1/valid-manga"),
    };
    assert(r@.genres =~= Seq::empty());
    r
}

/// A manga that this source cannot list chapters for.
pub fn invalid_manga() -> (r: Manga)
    ensures
        r@ == invalid_manga_view(),
{
    let r = Manga {
        identifier: String::from_str("invalid"),
        cover: String::from_str("http://127.0.0.1/invalid-manga-cover"),
        description: None,
        genres: Vec::new(),
        source_identifier: String::from_str(SOURCE_IDENTIFIER),
        title: String::from_str("A Invalid Manga Title"),
        url: String::from_str("http://127.0.0.1/invalid-manga"),
    };
    assert(r@.genres =~= Seq::empty());
    r
}

/// Chapters `1..=size`, named after the valid manga when `manga_identifier` is its
/// identifier and after the invalid one otherwise.
fn get_chapters(manga_identifier: &str, manga_url: &str, size: u32) -> (r: Vec<Chapter>)
    requires
        size < u32::MAX,
    ensures
        chapters_view(r@) == numbered_chapters(
            if manga_identifier@ == valid_manga_view().identifier {
                valid_manga_view().title
            } else {
                invalid_manga_view().title
            },
            manga_identifier@,
            manga_url@,
            SOURCE_IDENTIFIER@,
            size,
        ),
{
    let valid = valid_manga();
    let manga = if str_eq(manga_identifier, valid.identifier.as_str()) {
        valid
    } else {
        invalid_manga()
    };
    Chapter::numbered(manga.title.as_str(), manga_identifier, manga_url, SOURCE_IDENTIFIER, size)
}

} // verus!
