// Reading what a plugin hands back: the JSON shapes of sources, manga, chapters and
// page lists, the error envelope, and the rule that picks between them.
use vstd::prelude::*;
use vstd::string::*;

use crate::error::{EbiError, SourceError, SourceErrorSerialized, SourceErrorV};
use crate::json::{as_str, field, get_field, get_str_field, is_first_key, Json};
use crate::locale::{locale_of_token, Locale};
use crate::model::{
    chapters_view, mangas_view, strings_view, Chapter, ChapterV, Manga, MangaV, Source, SourceV,
};
use crate::text::str_eq;

verus! {

/// The characters of a JSON string; empty for any other value.
pub open spec fn str_or_empty(j: Json) -> Seq<char> {
    match j {
        Json::Str(s) => s@,
        _ => Seq::empty(),
    }
}

/// A JSON array of strings, read as the list of their characters.
pub open spec fn str_list_of(j: Option<Json>) -> Option<Seq<Seq<char>>> {
    match j {
        Some(Json::Array(v)) => if forall|i: int| 0 <= i < v@.len() ==> v@[i] is Str {
            Some(Seq::new(v@.len(), |i: int| str_or_empty(v@[i])))
        } else {
            None
        },
        _ => None,
    }
}

/// An optional string entry: absent or `null` is no string.
pub open spec fn opt_str_of(j: Option<Json>) -> Option<Option<Seq<char>>> {
    match j {
        None => Some(None),
        Some(Json::Null) => Some(None),
        Some(Json::Str(s)) => Some(Some(s@)),
        _ => None,
    }
}

/// A JSON number that fits in 32 bits.
pub open spec fn u32_of(j: Option<Json>) -> Option<u32> {
    match j {
        Some(Json::Number(n)) => if n <= u32::MAX {
            Some(n as u32)
        } else {
            None
        },
        _ => None,
    }
}

/// The manga that a JSON object describes, if it has every field in the right shape.
pub open spec fn manga_of_json(j: Json) -> Option<MangaV> {
    match j {
        Json::Object(fs) => {
            let identifier = as_str(field(fs@, "identifier"@));
            let title = as_str(field(fs@, "title"@));
            let cover = as_str(field(fs@, "cover"@));
            let url = as_str(field(fs@, "url"@));
            let genres = str_list_of(field(fs@, "genres"@));
            let description = opt_str_of(field(fs@, "description"@));
            let source_identifier = as_str(field(fs@, "source_identifier"@));
            if identifier is Some && title is Some && cover is Some && url is Some && genres is Some
                && description is Some && source_identifier is Some {
                Some(
                    MangaV {
                        identifier: identifier.unwrap(),
                        title: title.unwrap(),
                        cover: cover.unwrap(),
                        url: url.unwrap(),
                        genres: genres.unwrap(),
                        description: description.unwrap(),
                        source_identifier: source_identifier.unwrap(),
                    },
                )
            } else {
                None
            }
        },
        _ => None,
    }
}

/// The chapter that a JSON object describes, if it has every field in the right shape.
pub open spec fn chapter_of_json(j: Json) -> Option<ChapterV> {
    match j {
        Json::Object(fs) => {
            let chapter = u32_of(field(fs@, "chapter"@));
            let title = as_str(field(fs@, "title"@));
            let url = as_str(field(fs@, "url"@));
            let manga_identifier = as_str(field(fs@, "manga_identifier"@));
            let source_identifier = as_str(field(fs@, "source_identifier"@));
            if chapter is Some && title is Some && url is Some && manga_identifier is Some
                && source_identifier is Some {
                Some(
                    ChapterV {
                        chapter: chapter.unwrap(),
                        title: title.unwrap(),
                        url: url.unwrap(),
                        manga_identifier: manga_identifier.unwrap(),
                        source_identifier: source_identifier.unwrap(),
                    },
                )
            } else {
                None
            }
        },
        _ => None,
    }
}

/// The source description that a JSON object holds; its locale is read from a token.
pub open spec fn source_of_json(j: Json) -> Option<SourceV> {
    match j {
        Json::Object(fs) => {
            let identifier = as_str(field(fs@, "identifier"@));
            let title = as_str(field(fs@, "title"@));
            let description = as_str(field(fs@, "description"@));
            let locale = as_str(field(fs@, "locale"@));
            if identifier is Some && title is Some && description is Some && locale is Some {
                Some(
                    SourceV {
                        identifier: identifier.unwrap(),
                        title: title.unwrap(),
                        description: description.unwrap(),
                        locale: locale_of_token(locale.unwrap()),
                    },
                )
            } else {
                None
            }
        },
        _ => None,
    }
}

/// A JSON array of manga.
pub open spec fn mangas_of_json(j: Json) -> Option<Seq<MangaV>> {
    match j {
        Json::Array(v) => if forall|i: int| 0 <= i < v@.len() ==> manga_of_json(v@[i]) is Some {
            Some(Seq::new(v@.len(), |i: int| manga_of_json(v@[i]).unwrap()))
        } else {
            None
        },
        _ => None,
    }
}

/// A JSON array of chapters.
pub open spec fn chapters_of_json(j: Json) -> Option<Seq<ChapterV>> {
    match j {
        Json::Array(v) => if forall|i: int| 0 <= i < v@.len() ==> chapter_of_json(v@[i]) is Some {
            Some(Seq::new(v@.len(), |i: int| chapter_of_json(v@[i]).unwrap()))
        } else {
            None
        },
        _ => None,
    }
}

/// A source error as it is tagged in JSON: the name of a variant without payload, or
/// an object with the single entry `{variant: message}` for a variant that carries one.
pub open spec fn error_of_tag(j: Json) -> Option<SourceErrorV> {
    match j {
        Json::Str(t) => if t@ == "Fetch"@ {
            Some(SourceErrorV::Fetch)
        } else if t@ == "Serialize"@ {
            Some(SourceErrorV::Serialize)
        } else if t@ == "InvalidIdentifier"@ {
            Some(SourceErrorV::InvalidIdentifier)
        } else if t@ == "InvalidSource"@ {
            Some(SourceErrorV::InvalidSource)
        } else if t@ == "ABINullConversion"@ {
            Some(SourceErrorV::ABINullConversion)
        } else {
            None
        },
        Json::Object(fs) => if fs@.len() == 1 {
            match fs@[0].1 {
                Json::Str(m) => if fs@[0].0@ == "Unknown"@ {
                    Some(SourceErrorV::Unknown(m@))
                } else if fs@[0].0@ == "ABIResult"@ {
                    Some(SourceErrorV::ABIResult(m@))
                } else {
                    None
                },
                _ => None,
            }
        } else {
            None
        },
        _ => None,
    }
}

/// The source error that an error envelope `{"error": tag}` carries.
pub open spec fn error_of_envelope(j: Json) -> Option<SourceErrorV> {
    match j {
        Json::Object(fs) => match field(fs@, "error"@) {
            Some(t) => error_of_tag(t),
            None => None,
        },
        _ => None,
    }
}

/// Reads a JSON array of strings.
pub fn decode_str_list(j: &Json) -> (r: Option<Vec<String>>)
    ensures
        match r {
            Some(v) => str_list_of(Some(*j)) == Some(strings_view(v@)),
            None => str_list_of(Some(*j)) is None,
        },
{
    match j {
        Json::Array(items) => {
            let mut out: Vec<String> = Vec::new();
            let mut i: usize = 0;
            while i < items.len()
                invariant
                    *j == Json::Array(*items),
                    i <= items@.len(),
                    out@.len() == i,
                    forall|k: int| 0 <= k < i ==> items@[k] is Str,
                    forall|k: int| 0 <= k < i ==> out@[k]@ == str_or_empty(items@[k]),
                decreases items@.len() - i,
            {
                match &items[i] {
                    Json::Str(s) => {
                        out.push(s.clone());
                    },
                    _ => {
                        assert(!(items@[i as int] is Str));
                        return None;
                    },
                }
                i = i + 1;
            }
            assert(strings_view(out@) =~= Seq::new(
                items@.len(),
                |k: int| str_or_empty(items@[k]),
            ));
            Some(out)
        },
        _ => None,
    }
}

/// Reads one manga from its JSON object.
pub fn decode_manga(j: &Json) -> (r: Option<Manga>)
    ensures
        match r {
            Some(m) => manga_of_json(*j) == Some(m@),
            None => manga_of_json(*j) is None,
        },
{
    match j {
        Json::Object(fs) => {
            let identifier = match get_str_field(fs, "identifier") {
                Some(s) => s.clone(),
                None => return None,
            };
            let title = match get_str_field(fs, "title") {
                Some(s) => s.clone(),
                None => return None,
            };
            let cover = match get_str_field(fs, "cover") {
                Some(s) => s.clone(),
                None => return None,
            };
            let url = match get_str_field(fs, "url") {
                Some(s) => s.clone(),
                None => return None,
            };
            let genres = match get_field(fs, "genres") {
                Some(g) => match decode_str_list(g) {
                    Some(v) => v,
                    None => return None,
                },
                None => return None,
            };
            let description = match get_field(fs, "description") {
                None => None,
                Some(Json::Null) => None,
                Some(Json::Str(s)) => Some(s.clone()),
                Some(_) => return None,
            };
            let source_identifier = match get_str_field(fs, "source_identifier") {
                Some(s) => s.clone(),
                None => return None,
            };
            Some(
                Manga {
                    identifier,
                    title,
                    cover,
                    url,
                    genres,
                    description,
                    source_identifier,
                },
            )
        },
        _ => None,
    }
}

/// Reads one chapter from its JSON object.
pub fn decode_chapter(j: &Json) -> (r: Option<Chapter>)
    ensures
        match r {
            Some(c) => chapter_of_json(*j) == Some(c@),
            None => chapter_of_json(*j) is None,
        },
{
    match j {
        Json::Object(fs) => {
            let chapter: u32 = match get_field(fs, "chapter") {
                Some(Json::Number(n)) => if *n <= 0xffff_ffffu64 {
                    *n as u32
                } else {
                    return None;
                },
                _ => return None,
            };
            let title = match get_str_field(fs, "title") {
                Some(s) => s.clone(),
                None => return None,
            };
            let url = match get_str_field(fs, "url") {
                Some(s) => s.clone(),
                None => return None,
            };
            let manga_identifier = match get_str_field(fs, "manga_identifier") {
                Some(s) => s.clone(),
                None => return None,
            };
            let source_identifier = match get_str_field(fs, "source_identifier") {
                Some(s) => s.clone(),
                None => return None,
            };
            Some(Chapter { chapter, title, url, manga_identifier, source_identifier })
        },
        _ => None,
    }
}

/// Reads a source description from its JSON object.
pub fn decode_source(j: &Json) -> (r: Option<Source>)
    ensures
        match r {
            Some(s) => source_of_json(*j) == Some(s@),
            None => source_of_json(*j) is None,
        },
{
    match j {
        Json::Object(fs) => {
            let identifier = match get_str_field(fs, "identifier") {
                Some(s) => s.clone(),
                None => return None,
            };
            let title = match get_str_field(fs, "title") {
                Some(s) => s.clone(),
                None => return None,
            };
            let description = match get_str_field(fs, "description") {
                Some(s) => s.clone(),
                None => return None,
            };
            let locale = match get_str_field(fs, "locale") {
                Some(s) => Locale::from_token(s.as_str()),
                None => return None,
            };
            Some(Source { identifier, title, description, locale })
        },
        _ => None,
    }
}

/// Reads a JSON array of manga.
pub fn decode_manga_list(j: &Json) -> (r: Option<Vec<Manga>>)
    ensures
        match r {
            Some(v) => mangas_of_json(*j) == Some(mangas_view(v@)),
            None => mangas_of_json(*j) is None,
        },
{
    match j {
        Json::Array(items) => {
            let mut out: Vec<Manga> = Vec::new();
            let mut i: usize = 0;
            while i < items.len()
                invariant
                    *j == Json::Array(*items),
                    i <= items@.len(),
                    out@.len() == i,
                    forall|k: int| 0 <= k < i ==> manga_of_json(#[trigger] items@[k]) == Some(
                        out@[k]@,
                    ),
                decreases items@.len() - i,
            {
                match decode_manga(&items[i]) {
                    Some(m) => out.push(m),
                    None => {
                        assert(manga_of_json(items@[i as int]) is None);
                        return None;
                    },
                }
                i = i + 1;
            }
            assert(mangas_view(out@) =~= Seq::new(
                items@.len(),
                |k: int| manga_of_json(items@[k]).unwrap(),
            ));
            Some(out)
        },
        _ => None,
    }
}

/// Reads a JSON array of chapters.
pub fn decode_chapter_list(j: &Json) -> (r: Option<Vec<Chapter>>)
    ensures
        match r {
            Some(v) => chapters_of_json(*j) == Some(chapters_view(v@)),
            None => chapters_of_json(*j) is None,
        },
{
    match j {
        Json::Array(items) => {
            let mut out: Vec<Chapter> = Vec::new();
            let mut i: usize = 0;
            while i < items.len()
                invariant
                    *j == Json::Array(*items),
                    i <= items@.len(),
                    out@.len() == i,
                    forall|k: int| 0 <= k < i ==> chapter_of_json(#[trigger] items@[k]) == Some(
                        out@[k]@,
                    ),
                decreases items@.len() - i,
            {
                match decode_chapter(&items[i]) {
                    Some(c) => out.push(c),
                    None => {
                        assert(chapter_of_json(items@[i as int]) is None);
                        return None;
                    },
                }
                i = i + 1;
            }
            assert(chapters_view(out@) =~= Seq::new(
                items@.len(),
                |k: int| chapter_of_json(items@[k]).unwrap(),
            ));
            Some(out)
        },
        _ => None,
    }
}

impl SourceError {
    /// Reads a source error from its JSON tag.
    pub fn from_json(j: &Json) -> (r: Option<SourceError>)
        ensures
            match r {
                Some(e) => error_of_tag(*j) == Some(e@),
                None => error_of_tag(*j) is None,
            },
    {
        match j {
            Json::Str(t) => {
                if str_eq(t.as_str(), "Fetch") {
                    Some(SourceError::Fetch)
                } else if str_eq(t.as_str(), "Serialize") {
                    Some(SourceError::Serialize)
                } else if str_eq(t.as_str(), "InvalidIdentifier") {
                    Some(SourceError::InvalidIdentifier)
                } else if str_eq(t.as_str(), "InvalidSource") {
                    Some(SourceError::InvalidSource)
                } else if str_eq(t.as_str(), "ABINullConversion") {
                    Some(SourceError::ABINullConversion)
                } else {
                    None
                }
            },
            Json::Object(fs) => {
                if fs.len() == 1 {
                    match &fs[0].1 {
                        Json::Str(m) => {
                            if str_eq(fs[0].0.as_str(), "Unknown") {
                                Some(SourceError::Unknown(m.clone()))
                            } else if str_eq(fs[0].0.as_str(), "ABIResult") {
                                Some(SourceError::ABIResult(m.clone()))
                            } else {
                                None
                            }
                        },
                        _ => None,
                    }
                } else {
                    None
                }
            },
            _ => None,
        }
    }

    /// The JSON tag of this error, which reads back as this error.
    pub fn to_json(&self) -> (r: Json)
        ensures
            error_of_tag(r) == Some(self@),
    {
        proof {
            reveal_strlit("Fetch");
            reveal_strlit("Serialize");
            reveal_strlit("InvalidIdentifier");
            reveal_strlit("InvalidSource");
            reveal_strlit("ABINullConversion");
            reveal_strlit("Unknown");
            reveal_strlit("ABIResult");
            assert("InvalidIdentifier"@[0] != "ABINullConversion"@[0]);
            assert("Fetch"@.len() == 5);
            assert("Serialize"@.len() == 9);
            assert("InvalidSource"@.len() == 13);
            assert("InvalidIdentifier"@.len() == 17);
            assert("ABINullConversion"@.len() == 17);
            assert("ABIResult"@.len() != "Unknown"@.len());
        }
        match self {
            SourceError::Unknown(m) => {
                let mut fs: Vec<(String, Json)> = Vec::new();
                fs.push((String::from_str("Unknown"), Json::Str(m.clone())));
                Json::Object(fs)
            },
            SourceError::ABIResult(m) => {
                let mut fs: Vec<(String, Json)> = Vec::new();
                fs.push((String::from_str("ABIResult"), Json::Str(m.clone())));
                Json::Object(fs)
            },
            SourceError::Fetch => Json::Str(String::from_str("Fetch")),
            SourceError::Serialize => Json::Str(String::from_str("Serialize")),
            SourceError::InvalidIdentifier => Json::Str(String::from_str("InvalidIdentifier")),
            SourceError::InvalidSource => Json::Str(String::from_str("InvalidSource")),
            SourceError::ABINullConversion => Json::Str(String::from_str("ABINullConversion")),
        }
    }
}

impl SourceErrorSerialized {
    /// Reads an error envelope `{"error": tag}`.
    pub fn from_json(j: &Json) -> (r: Option<SourceErrorSerialized>)
        ensures
            match r {
                Some(e) => error_of_envelope(*j) == Some(e.error@),
                None => error_of_envelope(*j) is None,
            },
    {
        match j {
            Json::Object(fs) => match get_field(fs, "error") {
                Some(t) => match SourceError::from_json(t) {
                    Some(error) => Some(SourceErrorSerialized { error }),
                    None => None,
                },
                None => None,
            },
            _ => None,
        }
    }

    /// The envelope `{"error": tag}` of this error. Reading it back gives the same
    /// error, so an error survives the trip across the plugin boundary.
    pub fn to_json(&self) -> (r: Json)
        ensures
            error_of_envelope(r) == Some(self.error@),
    {
        let tag = self.error.to_json();
        let mut fs: Vec<(String, Json)> = Vec::new();
        fs.push((String::from_str("error"), tag));
        proof {
            assert(is_first_key(fs@, "error"@, 0));
        }
        Json::Object(fs)
    }
}

/// The answer of a source to a request for its description: the description when the
/// payload has its shape, else the error that an error envelope carries, else a
/// payload that could not be read.
pub fn source_info_response(payload: &Json) -> (r: Result<Source, EbiError>)
    ensures
        match r {
            Ok(s) => source_of_json(*payload) == Some(s@),
            Err(EbiError::SourceError(e)) => source_of_json(*payload) is None
                && error_of_envelope(*payload) == Some(e@),
            Err(e) => source_of_json(*payload) is None && error_of_envelope(*payload) is None
                && e == EbiError::SerializeResponse,
        },
{
    match decode_source(payload) {
        Some(s) => Ok(s),
        None => match SourceErrorSerialized::from_json(payload) {
            Some(env) => Err(EbiError::SourceError(env.error)),
            None => Err(EbiError::SerializeResponse),
        },
    }
}

/// The answer of a source to a request for its catalog, read as `source_info_response`
/// reads a description; a reported error comes as `LoadMangaList`.
pub fn manga_list_response(payload: &Json) -> (r: Result<Vec<Manga>, EbiError>)
    ensures
        match r {
            Ok(v) => mangas_of_json(*payload) == Some(mangas_view(v@)),
            Err(EbiError::LoadMangaList(e)) => mangas_of_json(*payload) is None
                && error_of_envelope(*payload) == Some(e@),
            Err(e) => mangas_of_json(*payload) is None && error_of_envelope(*payload) is None
                && e == EbiError::SerializeResponse,
        },
{
    match decode_manga_list(payload) {
        Some(v) => Ok(v),
        None => match SourceErrorSerialized::from_json(payload) {
            Some(env) => Err(EbiError::LoadMangaList(env.error)),
            None => Err(EbiError::SerializeResponse),
        },
    }
}

/// The answer of a source to a request for the chapters of a manga; a reported error
/// comes as `LoadChapterList`.
pub fn chapter_list_response(payload: &Json) -> (r: Result<Vec<Chapter>, EbiError>)
    ensures
        match r {
            Ok(v) => chapters_of_json(*payload) == Some(chapters_view(v@)),
            Err(EbiError::LoadChapterList(e)) => chapters_of_json(*payload) is None
                && error_of_envelope(*payload) == Some(e@),
            Err(e) => chapters_of_json(*payload) is None && error_of_envelope(*payload) is None
                && e == EbiError::SerializeResponse,
        },
{
    match decode_chapter_list(payload) {
        Some(v) => Ok(v),
        None => match SourceErrorSerialized::from_json(payload) {
            Some(env) => Err(EbiError::LoadChapterList(env.error)),
            None => Err(EbiError::SerializeResponse),
        },
    }
}

/// The answer of a source to a request for the page addresses of a chapter; a reported
/// error comes as `LoadChapterPageList`.
pub fn chapter_page_list_response(payload: &Json) -> (r: Result<Vec<String>, EbiError>)
    ensures
        match r {
            Ok(v) => str_list_of(Some(*payload)) == Some(strings_view(v@)),
            Err(EbiError::LoadChapterPageList(e)) => str_list_of(Some(*payload)) is None
                && error_of_envelope(*payload) == Some(e@),
            Err(e) => str_list_of(Some(*payload)) is None && error_of_envelope(*payload) is None
                && e == EbiError::SerializeResponse,
        },
{
    match decode_str_list(payload) {
        Some(v) => Ok(v),
        None => match SourceErrorSerialized::from_json(payload) {
            Some(env) => Err(EbiError::LoadChapterPageList(env.error)),
            None => Err(EbiError::SerializeResponse),
        },
    }
}

/// The argument of a request for the chapters of a manga.
pub struct ABIChapterListInput {
    pub identifier: String,
    pub url: String,
}

impl ABIChapterListInput {
    pub fn from_manga(manga: &Manga) -> (r: ABIChapterListInput)
        ensures
            r.identifier@ == manga.identifier@,
            r.url@ == manga.url@,
    {
        ABIChapterListInput { identifier: manga.identifier.clone(), url: manga.url.clone() }
    }
}

/// The argument of a request for the pages of a chapter.
pub struct ABIChapterPageListInput {
    pub chapter: u32,
    pub chapter_url: String,
    pub manga: String,
}

impl ABIChapterPageListInput {
    pub fn from_chapter(chapter: &Chapter) -> (r: ABIChapterPageListInput)
        ensures
            r.chapter == chapter.chapter,
            r.chapter_url@ == chapter.url@,
            r.manga@ == chapter.manga_identifier@,
    {
        ABIChapterPageListInput {
            chapter: chapter.chapter,
            chapter_url: chapter.url.clone(),
            manga: chapter.manga_identifier.clone(),
        }
    }
}

} // verus!
