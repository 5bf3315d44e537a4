// What a plugin hands over: values and errors written in the JSON shapes that the
// host reads back unchanged.
use vstd::prelude::*;
use vstd::string::*;

use crate::abi::{
    chapter_of_json, chapters_of_json, error_of_envelope, manga_of_json, mangas_of_json,
    source_of_json, str_list_of,
};
use crate::error::SourceError;
use crate::json::{field, is_first_key, Json};
use crate::locale::lemma_token_round_trip;
use crate::model::{chapters_view, mangas_view, strings_view, Chapter, Manga, Source};

verus! {

/// An entry at `i` whose key no earlier entry has is what a lookup of that key finds.
proof fn lemma_field_at(fs: Seq<(String, Json)>, k: Seq<char>, i: int)
    requires
        0 <= i < fs.len(),
        fs[i].0@ == k,
        forall|j: int| 0 <= j < i ==> fs[j].0@ != k,
    ensures
        field(fs, k) == Some(fs[i].1),
{
    assert(is_first_key(fs, k, i));
    assert forall|x: int| is_first_key(fs, k, x) implies x == i by {
        if x > i {
            assert(fs[i].0@ == k);
        }
    }
}

/// Appends the entry `key: value` to an object under construction.
fn push_entry(fs: &mut Vec<(String, Json)>, key: &str, value: Json)
    ensures
        final(fs)@.len() == old(fs)@.len() + 1,
        forall|j: int| 0 <= j < old(fs)@.len() ==> final(fs)@[j] == old(fs)@[j],
        final(fs)@[old(fs)@.len() as int].0@ == key@,
        final(fs)@[old(fs)@.len() as int].1 == value,
{
    fs.push((String::from_str(key), value));
}

/// The JSON array of a list of strings.
pub fn encode_str_list(v: &Vec<String>) -> (r: Json)
    ensures
        str_list_of(Some(r)) == Some(strings_view(v@)),
{
    let mut out: Vec<Json> = Vec::new();
    let mut i: usize = 0;
    while i < v.len()
        invariant
            i <= v@.len(),
            out@.len() == i,
            forall|k: int| 0 <= k < i ==> (#[trigger] out@[k]) == Json::Str(v@[k]),
        decreases v@.len() - i,
    {
        out.push(Json::Str(v[i].clone()));
        i = i + 1;
    }
    let r = Json::Array(out);
    assert(Seq::new(out@.len(), |k: int| crate::abi::str_or_empty(out@[k])) =~= strings_view(v@));
    r
}

impl Manga {
    /// The JSON object of this manga, which reads back as this manga.
    pub fn to_json(&self) -> (r: Json)
        ensures
            manga_of_json(r) == Some(self@),
    {
        let mut fs: Vec<(String, Json)> = Vec::new();
        push_entry(&mut fs, "identifier", Json::Str(self.identifier.clone()));
        push_entry(&mut fs, "title", Json::Str(self.title.clone()));
        push_entry(&mut fs, "cover", Json::Str(self.cover.clone()));
        push_entry(&mut fs, "url", Json::Str(self.url.clone()));
        push_entry(&mut fs, "genres", encode_str_list(&self.genres));
        let description = match &self.description {
            Some(d) => Json::Str(d.clone()),
            None => Json::Null,
        };
        push_entry(&mut fs, "description", description);
        push_entry(&mut fs, "source_identifier", Json::Str(self.source_identifier.clone()));
        proof {
            reveal_strlit("identifier");
            reveal_strlit("title");
            reveal_strlit("cover");
            reveal_strlit("url");
            reveal_strlit("genres");
            reveal_strlit("description");
            reveal_strlit("source_identifier");
            assert("identifier"@.len() == 10);
            assert("title"@.len() == 5);
            assert("cover"@.len() == 5);
            assert("url"@.len() == 3);
            assert("genres"@.len() == 6);
            assert("description"@.len() == 11);
            assert("source_identifier"@.len() == 17);
            assert("title"@[0] != "cover"@[0]);
            let s = fs@;
            lemma_field_at(s, "identifier"@, 0);
            lemma_field_at(s, "title"@, 1);
            lemma_field_at(s, "cover"@, 2);
            lemma_field_at(s, "url"@, 3);
            lemma_field_at(s, "genres"@, 4);
            lemma_field_at(s, "description"@, 5);
            lemma_field_at(s, "source_identifier"@, 6);
        }
        Json::Object(fs)
    }
}

impl Chapter {
    /// The JSON object of this chapter, which reads back as this chapter.
    pub fn to_json(&self) -> (r: Json)
        ensures
            chapter_of_json(r) == Some(self@),
    {
        let mut fs: Vec<(String, Json)> = Vec::new();
        push_entry(&mut fs, "chapter", Json::Number(self.chapter as u64));
        push_entry(&mut fs, "title", Json::Str(self.title.clone()));
        push_entry(&mut fs, "url", Json::Str(self.url.clone()));
        push_entry(&mut fs, "manga_identifier", Json::Str(self.manga_identifier.clone()));
        push_entry(&mut fs, "source_identifier", Json::Str(self.source_identifier.clone()));
        proof {
            reveal_strlit("chapter");
            reveal_strlit("title");
            reveal_strlit("url");
            reveal_strlit("manga_identifier");
            reveal_strlit("source_identifier");
            assert("chapter"@.len() == 7);
            assert("title"@.len() == 5);
            assert("url"@.len() == 3);
            assert("manga_identifier"@.len() == 16);
            assert("source_identifier"@.len() == 17);
            let s = fs@;
            lemma_field_at(s, "chapter"@, 0);
            lemma_field_at(s, "title"@, 1);
            lemma_field_at(s, "url"@, 2);
            lemma_field_at(s, "manga_identifier"@, 3);
            lemma_field_at(s, "source_identifier"@, 4);
        }
        Json::Object(fs)
    }
}

impl Source {
    /// The JSON object of this description, which reads back as this description.
    pub fn to_json(&self) -> (r: Json)
        ensures
            source_of_json(r) == Some(self@),
    {
        let mut fs: Vec<(String, Json)> = Vec::new();
        push_entry(&mut fs, "identifier", Json::Str(self.identifier.clone()));
        push_entry(&mut fs, "title", Json::Str(self.title.clone()));
        push_entry(&mut fs, "description", Json::Str(self.description.clone()));
        push_entry(&mut fs, "locale", Json::Str(self.locale.to_string()));
        proof {
            reveal_strlit("identifier");
            reveal_strlit("title");
            reveal_strlit("description");
            reveal_strlit("locale");
            assert("identifier"@.len() == 10);
            assert("title"@.len() == 5);
            assert("description"@.len() == 11);
            assert("locale"@.len() == 6);
            let s = fs@;
            lemma_field_at(s, "identifier"@, 0);
            lemma_field_at(s, "title"@, 1);
            lemma_field_at(s, "description"@, 2);
            lemma_field_at(s, "locale"@, 3);
            lemma_token_round_trip(self.locale);
        }
        Json::Object(fs)
    }
}

/// The JSON array of a list of manga.
pub fn encode_manga_list(v: &Vec<Manga>) -> (r: Json)
    ensures
        mangas_of_json(r) == Some(mangas_view(v@)),
{
    let mut out: Vec<Json> = Vec::new();
    let mut i: usize = 0;
    while i < v.len()
        invariant
            i <= v@.len(),
            out@.len() == i,
            forall|k: int| 0 <= k < i ==> manga_of_json(#[trigger] out@[k]) == Some(v@[k]@),
        decreases v@.len() - i,
    {
        out.push(v[i].to_json());
        i = i + 1;
    }
    let r = Json::Array(out);
    assert(Seq::new(out@.len(), |k: int| manga_of_json(out@[k]).unwrap()) =~= mangas_view(v@));
    r
}

/// The JSON array of a list of chapters.
pub fn encode_chapter_list(v: &Vec<Chapter>) -> (r: Json)
    ensures
        chapters_of_json(r) == Some(chapters_view(v@)),
{
    let mut out: Vec<Json> = Vec::new();
    let mut i: usize = 0;
    while i < v.len()
        invariant
            i <= v@.len(),
            out@.len() == i,
            forall|k: int| 0 <= k < i ==> chapter_of_json(#[trigger] out@[k]) == Some(v@[k]@),
        decreases v@.len() - i,
    {
        out.push(v[i].to_json());
        i = i + 1;
    }
    let r = Json::Array(out);
    assert(Seq::new(out@.len(), |k: int| chapter_of_json(out@[k]).unwrap()) =~= chapters_view(
        v@,
    ));
    r
}

/// The envelope of a source error: an object whose single entry is `error`.
fn error_payload(e: &SourceError) -> (r: Json)
    ensures
        error_of_envelope(r) == Some(e@),
        r is Object,
        r->Object_0@.len() == 1,
        r->Object_0@[0].0@ == "error"@,
{
    let mut fs: Vec<(String, Json)> = Vec::new();
    push_entry(&mut fs, "error", e.to_json());
    proof {
        lemma_field_at(fs@, "error"@, 0);
    }
    Json::Object(fs)
}

/// What a plugin hands back for its description: the description, or the envelope
/// of its error, which cannot be mistaken for a description.
pub fn source_info_payload(result: &Result<Source, SourceError>) -> (r: Json)
    ensures
        match result {
            Ok(s) => source_of_json(r) == Some(s@),
            Err(e) => source_of_json(r) is None && error_of_envelope(r) == Some(e@),
        },
{
    match result {
        Ok(s) => s.to_json(),
        Err(e) => {
            let r = error_payload(e);
            proof {
                reveal_strlit("error");
                reveal_strlit("identifier");
                assert("error"@.len() == 5);
                assert("identifier"@.len() == 10);
                let fs = r->Object_0@;
                assert(!exists|i: int| is_first_key(fs, "identifier"@, i));
            }
            r
        },
    }
}

/// What a plugin hands back for its catalog: the list, or the envelope of its error.
pub fn manga_list_payload(result: &Result<Vec<Manga>, SourceError>) -> (r: Json)
    ensures
        match result {
            Ok(v) => mangas_of_json(r) == Some(mangas_view(v@)),
            Err(e) => mangas_of_json(r) is None && error_of_envelope(r) == Some(e@),
        },
{
    match result {
        Ok(v) => encode_manga_list(v),
        Err(e) => error_payload(e),
    }
}

/// What a plugin hands back for the chapters of a manga.
pub fn chapter_list_payload(result: &Result<Vec<Chapter>, SourceError>) -> (r: Json)
    ensures
        match result {
            Ok(v) => chapters_of_json(r) == Some(chapters_view(v@)),
            Err(e) => chapters_of_json(r) is None && error_of_envelope(r) == Some(e@),
        },
{
    match result {
        Ok(v) => encode_chapter_list(v),
        Err(e) => error_payload(e),
    }
}

/// What a plugin hands back for the pages of a chapter.
pub fn chapter_page_list_payload(result: &Result<Vec<String>, SourceError>) -> (r: Json)
    ensures
        match result {
            Ok(v) => str_list_of(Some(r)) == Some(strings_view(v@)),
            Err(e) => str_list_of(Some(r)) is None && error_of_envelope(r) == Some(e@),
        },
{
    match result {
        Ok(v) => encode_str_list(v),
        Err(e) => error_payload(e),
    }
}

} // verus!
