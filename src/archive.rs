// The local cache of covers and pages: where each resource is kept, how a cached copy
// is recognised whatever its extension, and which content types are kept.
use vstd::prelude::*;
use vstd::string::*;

use crate::error::EbiError;
use crate::model::{strings_view, Chapter, Manga};
use crate::text::{concat, decimal, decimal_string, is_prefix, starts_with, str_eq};

verus! {

/// The name under which a manga's cover is cached.
pub const MANGA_COVER_FILE_NAME: &'static str = "cover";

/// The image formats that the cache keeps.
#[derive(Debug, Clone, Copy, PartialEq, Eq, Structural)]
pub enum KnownFileExtensions {
    Jpeg,
    Png,
}

/// The file extension of a known format.
pub open spec fn extension_of(e: KnownFileExtensions) -> Seq<char> {
    match e {
        KnownFileExtensions::Jpeg => "jpg"@,
        KnownFileExtensions::Png => "png"@,
    }
}

/// The known format that a content type names, if any.
pub open spec fn format_of_content_type(h: Seq<char>) -> Option<KnownFileExtensions> {
    if h == "image/jpeg"@ {
        Some(KnownFileExtensions::Jpeg)
    } else if h == "image/png"@ {
        Some(KnownFileExtensions::Png)
    } else {
        None
    }
}

impl KnownFileExtensions {
    /// The format that a `content-type` header names; any other type is refused.
    pub fn try_from_content_type(header: &str) -> (r: Result<KnownFileExtensions, EbiError>)
        ensures
            match format_of_content_type(header@) {
                Some(f) => r == Ok::<KnownFileExtensions, EbiError>(f),
                None => match r {
                    Err(EbiError::UnsupportedFile(h)) => h@ == header@,
                    _ => false,
                },
            },
    {
        if str_eq(header, "image/jpeg") {
            Ok(KnownFileExtensions::Jpeg)
        } else if str_eq(header, "image/png") {
            Ok(KnownFileExtensions::Png)
        } else {
            Err(EbiError::UnsupportedFile(String::from_str(header)))
        }
    }

    /// The file extension of this format.
    pub fn extension(&self) -> (r: &'static str)
        ensures
            r@ == extension_of(*self),
    {
        match self {
            KnownFileExtensions::Jpeg => "jpg",
            KnownFileExtensions::Png => "png",
        }
    }

    /// The file extension of this format, as an owned string.
    pub fn to_string(&self) -> (r: String)
        ensures
            r@ == extension_of(*self),
    {
        String::from_str(self.extension())
    }
}

/// The path of `name` inside the directory `dir`.
pub open spec fn join(dir: Seq<char>, name: Seq<char>) -> Seq<char> {
    dir + "/"@ + name
}

fn join_path(dir: &str, name: &str) -> (r: String)
    ensures
        r@ == join(dir@, name@),
{
    let mut s = concat(dir, "/");
    s.append(name);
    s
}

/// The file name under which the resource of `key` is cached with extension `ext`.
pub open spec fn cache_file_name(key: Seq<char>, ext: Seq<char>) -> Seq<char> {
    key + "."@ + ext
}

/// Whether the file `name` holds the cached resource of `key`, whatever its extension.
pub open spec fn holds_key(name: Seq<char>, key: Seq<char>) -> bool {
    is_prefix(key + "."@, name)
}

/// Whether `names[i]` is the first name that holds the resource of `key`.
pub open spec fn is_first_cached(names: Seq<Seq<char>>, key: Seq<char>, i: int) -> bool {
    &&& 0 <= i < names.len()
    &&& holds_key(names[i], key)
    &&& forall|j: int| 0 <= j < i ==> !holds_key(names[j], key)
}

/// The path of the cached copy of `key` among the files `names` of `dir`: the first
/// file whose name is the key followed by a dot.
pub open spec fn cached_path(dir: Seq<char>, names: Seq<Seq<char>>, key: Seq<char>) -> Option<
    Seq<char>,
> {
    if exists|i: int| is_first_cached(names, key, i) {
        Some(join(dir, names[choose|i: int| is_first_cached(names, key, i)]))
    } else {
        None
    }
}

/// The path where a download for `key` is saved, or the error that keeps it from being
/// cached: no content type, or one that names no known format.
pub open spec fn download_target(dir: Seq<char>, key: Seq<char>, content_type: Option<Seq<char>>) -> Result<Seq<char>, ()> {
    match content_type {
        Some(h) => match format_of_content_type(h) {
            Some(f) => Ok(join(dir, cache_file_name(key, extension_of(f)))),
            None => Err(()),
        },
        None => Err(()),
    }
}

/// Finds the cached copy of `key` among the file names of `dir`.
pub fn find_cached(dir: &str, names: &Vec<String>, key: &str) -> (r: Option<String>)
    ensures
        match r {
            Some(p) => cached_path(dir@, strings_view(names@), key@) == Some(p@),
            None => cached_path(dir@, strings_view(names@), key@) is None,
        },
{
    let ghost ns = strings_view(names@);
    let prefix = concat(key, ".");
    let mut i: usize = 0;
    while i < names.len()
        invariant
            ns == strings_view(names@),
            prefix@ == key@ + "."@,
            i <= names@.len(),
            forall|j: int| 0 <= j < i ==> !holds_key(ns[j], key@),
        decreases names@.len() - i,
    {
        if starts_with(names[i].as_str(), prefix.as_str()) {
            assert(is_first_cached(ns, key@, i as int));
            assert forall|x: int| is_first_cached(ns, key@, x) implies x == i by {
                if x > i {
                    assert(holds_key(ns[i as int], key@));
                }
            }
            return Some(join_path(dir, names[i].as_str()));
        }
        i = i + 1;
    }
    assert(!exists|x: int| is_first_cached(ns, key@, x));
    None
}

/// The path where a download for `key` into `dir` is saved, given the content type
/// that the response declared.
pub fn downloaded_path(dir: &str, key: &str, content_type: Option<&str>) -> (r: Result<
    String,
    EbiError,
>)
    ensures
        match r {
            Ok(p) => download_target(dir@, key@, opt_view(content_type)) == Ok::<Seq<char>, ()>(
                p@,
            ),
            Err(EbiError::NoContentType) => content_type is None,
            Err(EbiError::UnsupportedFile(h)) => content_type is Some && h@ == content_type.unwrap()@
                && format_of_content_type(h@) is None,
            Err(_) => false,
        },
{
    match content_type {
        None => Err(EbiError::NoContentType),
        Some(h) => {
            let f = KnownFileExtensions::try_from_content_type(h)?;
            let mut name = concat(key, ".");
            name.append(f.extension());
            Ok(join_path(dir, name.as_str()))
        },
    }
}

/// The characters of an optional string.
pub open spec fn opt_view(o: Option<&str>) -> Option<Seq<char>> {
    match o {
        Some(s) => Some(s@),
        None => None,
    }
}

/// Once a download for `key` has been saved into a directory where no copy was found,
/// looking again finds exactly the file that was saved, wherever the listing puts it:
/// the second request for the same resource returns the first one's path and fetches
/// nothing.
pub proof fn lemma_fetch_or_get_idempotent(
    dir: Seq<char>,
    before: Seq<Seq<char>>,
    key: Seq<char>,
    ext: Seq<char>,
    pos: int,
)
    requires
        cached_path(dir, before, key) is None,
        0 <= pos <= before.len(),
    ensures
        cached_path(dir, before.insert(pos, cache_file_name(key, ext)), key) == Some(
            join(dir, cache_file_name(key, ext)),
        ),
{
    let name = cache_file_name(key, ext);
    let after = before.insert(pos, name);
    assert(!exists|i: int| is_first_cached(before, key, i));
    assert forall|j: int| 0 <= j < before.len() implies !holds_key(#[trigger] before[j], key) by {
        if holds_key(before[j], key) {
            let k = choose_first(before, key, j);
            assert(is_first_cached(before, key, k));
        }
    }
    assert(after[pos] == name);
    assert(name.subrange(0, (key + "."@).len() as int) =~= key + "."@);
    assert(holds_key(name, key));
    assert forall|j: int| 0 <= j < pos implies !holds_key(#[trigger] after[j], key) by {
        assert(after[j] == before[j]);
    }
    assert(is_first_cached(after, key, pos));
    assert forall|x: int| is_first_cached(after, key, x) implies x == pos by {
        if x > pos {
            assert(holds_key(after[pos], key));
        } else if x < pos {
        }
    }
}

/// The first index at or below `j` whose name holds `key`, given that `names[j]` does.
proof fn choose_first(names: Seq<Seq<char>>, key: Seq<char>, j: int) -> (k: int)
    requires
        0 <= j < names.len(),
        holds_key(names[j], key),
    ensures
        is_first_cached(names, key, k),
    decreases j,
{
    if exists|i: int| 0 <= i < j && holds_key(names[i], key) {
        let i = choose|i: int| 0 <= i < j && holds_key(names[i], key);
        choose_first(names, key, i)
    } else {
        j
    }
}

/// The local cache of covers and pages, rooted at the directory of the sources.
pub struct SourceArchiver {
    dir_path: String,
}

impl SourceArchiver {
    pub fn new(dir_path: &str) -> (r: SourceArchiver)
        ensures
            r.dir()@ == dir_path@,
    {
        SourceArchiver { dir_path: String::from_str(dir_path) }
    }

    pub closed spec fn dir(&self) -> String {
        self.dir_path
    }

    /// `<dir>/<source>/manga`
    pub fn base_manga_path_from_source(&self, source: &str) -> (r: String)
        ensures
            r@ == join(join(self.dir()@, source@), "manga"@),
    {
        let p = join_path(self.dir_path.as_str(), source);
        join_path(p.as_str(), "manga")
    }

    /// `<dir>/<source>/manga/<manga>`: where the cover and the chapters of a manga are kept.
    pub fn manga_path(&self, source: &str, manga: &str) -> (r: String)
        ensures
            r@ == join(join(join(self.dir()@, source@), "manga"@), manga@),
    {
        let p = self.base_manga_path_from_source(source);
        join_path(p.as_str(), manga)
    }

    /// `<dir>/<source>/manga/<manga>/<chapter>`: where the pages of a chapter are kept.
    pub fn chapter_path(&self, chapter: &Chapter) -> (r: String)
        ensures
            r@ == join(
                join(
                    join(join(self.dir()@, chapter.source_identifier@), "manga"@),
                    chapter.manga_identifier@,
                ),
                decimal(chapter.chapter as nat),
            ),
    {
        let p = self.manga_path(
            chapter.source_identifier.as_str(),
            chapter.manga_identifier.as_str(),
        );
        let n = decimal_string(chapter.chapter);
        join_path(p.as_str(), n.as_str())
    }

    /// The directory of a manga's cover.
    pub fn cover_dir(&self, manga: &Manga) -> (r: String)
        ensures
            r@ == join(
                join(join(self.dir()@, manga.source_identifier@), "manga"@),
                manga.identifier@,
            ),
    {
        self.manga_path(manga.source_identifier.as_str(), manga.identifier.as_str())
    }

    /// The cache key of a page: its index in decimal.
    pub fn page_key(page: u32) -> (r: String)
        ensures
            r@ == decimal(page as nat),
    {
        decimal_string(page)
    }

    /// The path to hand out for a resource: the cached copy when one was found, else the
    /// path where the download was saved.
    pub fn download_if_not_exists(
        &self,
        cached: Option<String>,
        dir: &str,
        file_name: &str,
        content_type: Option<&str>,
    ) -> (r: Result<String, EbiError>)
        ensures
            match cached {
                Some(c) => r == Ok::<String, EbiError>(c),
                None => match r {
                    Ok(p) => download_target(dir@, file_name@, opt_view(content_type)) == Ok::<
                        Seq<char>,
                        (),
                    >(p@),
                    Err(EbiError::NoContentType) => content_type is None,
                    Err(EbiError::UnsupportedFile(h)) => content_type is Some && h@
                        == content_type.unwrap()@ && format_of_content_type(h@) is None,
                    Err(_) => false,
                },
            },
    {
        match cached {
            Some(c) => Ok(c),
            None => downloaded_path(dir, file_name, content_type),
        }
    }
}

} // verus!
