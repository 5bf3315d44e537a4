// Sources, manga and chapters, with their mathematical views.
use vstd::prelude::*;
use vstd::string::*;

use crate::locale::Locale;
use crate::text::{concat, decimal, decimal_string};

verus! {

/// A sub-item of a catalog item: one chapter, ordered by its number.
#[derive(Debug, Clone, PartialEq, Eq)]
pub struct Chapter {
    pub chapter: u32,
    pub title: String,
    pub url: String,
    pub manga_identifier: String,
    pub source_identifier: String,
}

/// A catalog item of a source: one manga.
#[derive(Debug, Clone, PartialEq, Eq)]
pub struct Manga {
    pub identifier: String,
    pub title: String,
    pub cover: String,
    pub url: String,
    pub genres: Vec<String>,
    pub description: Option<String>,
    pub source_identifier: String,
}

/// What a source declares about itself.
#[derive(Debug, Clone, PartialEq, Eq)]
pub struct Source {
    pub identifier: String,
    pub title: String,
    pub description: String,
    pub locale: Locale,
}

pub struct ChapterV {
    pub chapter: u32,
    pub title: Seq<char>,
    pub url: Seq<char>,
    pub manga_identifier: Seq<char>,
    pub source_identifier: Seq<char>,
}

pub struct MangaV {
    pub identifier: Seq<char>,
    pub title: Seq<char>,
    pub cover: Seq<char>,
    pub url: Seq<char>,
    pub genres: Seq<Seq<char>>,
    pub description: Option<Seq<char>>,
    pub source_identifier: Seq<char>,
}

pub struct SourceV {
    pub identifier: Seq<char>,
    pub title: Seq<char>,
    pub description: Seq<char>,
    pub locale: Locale,
}

/// The characters of each string of a list.
pub open spec fn strings_view(v: Seq<String>) -> Seq<Seq<char>> {
    v.map_values(|s: String| s@)
}

pub open spec fn opt_string_view(o: Option<String>) -> Option<Seq<char>> {
    match o {
        Some(s) => Some(s@),
        None => None,
    }
}

impl View for Chapter {
    type V = ChapterV;

    open spec fn view(&self) -> ChapterV {
        ChapterV {
            chapter: self.chapter,
            title: self.title@,
            url: self.url@,
            manga_identifier: self.manga_identifier@,
            source_identifier: self.source_identifier@,
        }
    }
}

impl View for Manga {
    type V = MangaV;

    open spec fn view(&self) -> MangaV {
        MangaV {
            identifier: self.identifier@,
            title: self.title@,
            cover: self.cover@,
            url: self.url@,
            genres: strings_view(self.genres@),
            description: opt_string_view(self.description),
            source_identifier: self.source_identifier@,
        }
    }
}

impl View for Source {
    type V = SourceV;

    open spec fn view(&self) -> SourceV {
        SourceV {
            identifier: self.identifier@,
            title: self.title@,
            description: self.description@,
            locale: self.locale,
        }
    }
}

/// The views of each element of a list of chapters.
pub open spec fn chapters_view(v: Seq<Chapter>) -> Seq<ChapterV> {
    v.map_values(|c: Chapter| c@)
}

/// The views of each element of a list of manga.
pub open spec fn mangas_view(v: Seq<Manga>) -> Seq<MangaV> {
    v.map_values(|m: Manga| m@)
}

impl Manga {
    /// This manga with its cover replaced by `cover`, e.g. by the path of a cached copy.
    pub fn with_cover(&self, cover: String) -> (r: Manga)
        ensures
            r@ == (MangaV { cover: cover@, ..self@ }),
    {
        let genres = self.genres.clone();
        assert(strings_view(genres@) == strings_view(self.genres@)) by {
            assert(genres@ == self.genres@);
        }
        Manga {
            identifier: self.identifier.clone(),
            title: self.title.clone(),
            cover,
            url: self.url.clone(),
            genres,
            description: self.description.clone(),
            source_identifier: self.source_identifier.clone(),
        }
    }
}

/// Chapter `n` of a manga, as a source that numbers its chapters from one names it:
/// `"<manga title> -- <n>"`, at `"<manga url>/<n>"`.
pub open spec fn numbered_chapter(
    title: Seq<char>,
    manga: Seq<char>,
    url: Seq<char>,
    source: Seq<char>,
    n: u32,
) -> ChapterV {
    ChapterV {
        chapter: n,
        title: title + " -- "@ + decimal(n as nat),
        url: url + "/"@ + decimal(n as nat),
        manga_identifier: manga,
        source_identifier: source,
    }
}

/// Chapters `1..=size` of a manga, in order.
pub open spec fn numbered_chapters(
    title: Seq<char>,
    manga: Seq<char>,
    url: Seq<char>,
    source: Seq<char>,
    size: u32,
) -> Seq<ChapterV> {
    Seq::new(size as nat, |i: int| numbered_chapter(title, manga, url, source, (i + 1) as u32))
}

impl Chapter {
    /// Chapters `1..=size` of the manga `manga` titled `title` at `url`.
    pub fn numbered(title: &str, manga: &str, url: &str, source: &str, size: u32) -> (r: Vec<
        Chapter,
    >)
        requires
            size < u32::MAX,
        ensures
            chapters_view(r@) == numbered_chapters(title@, manga@, url@, source@, size),
    {
        let mut out: Vec<Chapter> = Vec::new();
        let mut n: u32 = 1;
        while n <= size
            invariant
                1 <= n <= size + 1,
                size < u32::MAX,
                out@.len() == n - 1,
                forall|k: int|
                    0 <= k < n - 1 ==> (#[trigger] out@[k])@ == numbered_chapter(
                        title@,
                        manga@,
                        url@,
                        source@,
                        (k + 1) as u32,
                    ),
            decreases size + 1 - n,
        {
            let number = decimal_string(n);
            let mut t = concat(title, " -- ");
            t.append(number.as_str());
            let mut u = concat(url, "/");
            u.append(number.as_str());
            out.push(
                Chapter {
                    chapter: n,
                    title: t,
                    url: u,
                    manga_identifier: String::from_str(manga),
                    source_identifier: String::from_str(source),
                },
            );
            n = n + 1;
        }
        assert(chapters_view(out@) =~= numbered_chapters(title@, manga@, url@, source@, size));
        out
    }
}

} // verus!
