// A source that answers every request, for exercising the host end to end.
use vstd::prelude::*;
use vstd::string::*;

use crate::error::SourceError;
use crate::locale::Locale;
use crate::model::{chapters_view, numbered_chapters, Chapter, Manga, MangaV, Source, SourceV};
use crate::text::str_eq;

verus! {

pub const SOURCE_IDENTIFIER: &'static str = "valid_source_macro_mock";

pub const SOURCE_TITLE: &'static str = "Mocked Valid Ebi Extension";

pub const SOURCE_DESCRIPTION: &'static str =
    "This is just a mocked source only intended to be used for tests! No real content here";

/// The single manga of this source.
pub open spec fn one_piece() -> MangaV {
    MangaV {
        identifier: "one-piece"@,
        title: "One Piece"@,
        cover: "http://127.0.0.1/fake-cover/one-piece"@,
        url: "/manga/one-piece"@,
        genres: seq!["shounen"@, "fantasy"@],
        description: Some("Rubber pirate boy adventures"@),
        source_identifier: SOURCE_IDENTIFIER@,
    }
}

/// A source that answers every request: one manga with a hundred chapters.
pub fn source() -> (r: Result<Source, SourceError>)
    ensures
        match r {
            Ok(s) => s@ == (SourceV {
                identifier: SOURCE_IDENTIFIER@,
                title: SOURCE_TITLE@,
                description: SOURCE_DESCRIPTION@,
                locale: Locale::EnUs,
            }),
            Err(_) => false,
        },
{
    Ok(
        Source {
            identifier: String::from_str(SOURCE_IDENTIFIER),
            title: String::from_str(SOURCE_TITLE),
            description: String::from_str(SOURCE_DESCRIPTION),
            locale: Locale::EnUs,
        },
    )
}

/// The catalog: the one manga of this source.
pub fn manga_list() -> (r: Result<Vec<Manga>, SourceError>)
    ensures
        match r {
            Ok(v) => v@.len() == 1 && v@[0]@ == one_piece(),
            Err(_) => false,
        },
{
    let mut genres: Vec<String> = Vec::new();
    genres.push(String::from_str("shounen"));
    genres.push(String::from_str("fantasy"));
    let manga = Manga {
        identifier: String::from_str("one-piece"),
        title: String::from_str("One Piece"),
        cover: String::from_str("http://127.0.0.1/fake-cover/one-piece"),
        genres,
        description: Some(String::from_str("Rubber pirate boy adventures")),
        url: String::from_str("/manga/one-piece"),
        source_identifier: String::from_str(SOURCE_IDENTIFIER),
    };
    assert(manga@.genres =~= seq!["shounen"@, "fantasy"@]);
    let mut v: Vec<Manga> = Vec::new();
    v.push(manga);
    Ok(v)
}

/// The hundred chapters of the manga `manga_identifier`; a manga that this source does
/// not know is an invalid identifier.
pub fn chapter_list(manga_identifier: String, manga_url: String) -> (r: Result<
    Vec<Chapter>,
    SourceError,
>)
    ensures
        manga_identifier@ == one_piece().identifier ==> match r {
            Ok(v) => chapters_view(v@) == numbered_chapters(
                one_piece().title,
                manga_identifier@,
                manga_url@,
                SOURCE_IDENTIFIER@,
                100,
            ),
            Err(_) => false,
        },
        manga_identifier@ != one_piece().identifier ==> r == Err::<Vec<Chapter>, SourceError>(
            SourceError::InvalidIdentifier,
        ),
{
    match get_chapters(manga_identifier.as_str(), manga_url.as_str(), 100) {
        Some(v) => Ok(v),
        None => Err(SourceError::InvalidIdentifier),
    }
}

/// Chapters `1..=size` of the manga `identifier`, named after its title, if this source
/// has that manga.
fn get_chapters(identifier: &str, url: &str, size: u32) -> (r: Option<Vec<Chapter>>)
    requires
        size < u32::MAX,
    ensures
        identifier@ == one_piece().identifier ==> match r {
            Some(v) => chapters_view(v@) == numbered_chapters(
                one_piece().title,
                identifier@,
                url@,
                SOURCE_IDENTIFIER@,
                size,
            ),
            None => false,
        },
        identifier@ != one_piece().identifier ==> r is None,
{
    let manga = match manga_list() {
        Ok(v) => v,
        Err(_) => return None,
    };
    let m = &manga[0];
    if str_eq(m.identifier.as_str(), identifier) {
        Some(Chapter::numbered(m.title.as_str(), identifier, url, SOURCE_IDENTIFIER, size))
    } else {
        None
    }
}

} // verus!
