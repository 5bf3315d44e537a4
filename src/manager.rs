// The registry of loaded sources: at most one per identifier, each read by the
// identifier that a request names.
use vstd::prelude::*;
use vstd::string::*;

use crate::archive::{join, SourceArchiver};
use crate::error::{EbiError, SourceError};
use crate::model::{strings_view, Chapter, Manga, Source, SourceV};
use crate::text::{concat, str_eq};

verus! {

/// A loaded source: the operations that a plugin offers behind its binary interface.
/// An implementation opens the plugin at a path and answers for it; nothing is assumed
/// of its answers.
pub trait SourceLoader: Sized {
    /// Opens the plugin stored at `path`.
    fn open(path: &str) -> Result<Self, EbiError>;

    /// What the plugin declares about itself.
    fn source_info(&self) -> Result<Source, EbiError>;

    /// The catalog of the plugin.
    fn manga_list(&self) -> Result<Vec<Manga>, EbiError>;

    /// The chapters of one manga of the plugin.
    fn chapter_list(&self, manga: &Manga) -> Result<Vec<Chapter>, EbiError>;

    /// The addresses of the pages of one chapter of the plugin.
    fn chapter_page_list(&self, chapter: &Chapter) -> Result<Vec<String>, EbiError>;
}

/// The platform, which decides how a plugin's library file is named.
#[derive(Debug, Clone, Copy, PartialEq, Eq, Structural)]
pub enum Platform {
    Linux,
    MacOs,
    Windows,
}

/// The file name of the library of plugin `id`.
pub open spec fn library_file_name(p: Platform, id: Seq<char>) -> Seq<char> {
    match p {
        Platform::Linux => "lib"@ + id + ".so"@,
        Platform::MacOs => "lib"@ + id + ".dylib"@,
        Platform::Windows => id + ".dll"@,
    }
}

/// The file name of the library of plugin `identifier` on `platform`.
pub fn handle_source_file_extension(platform: Platform, identifier: &str) -> (r: String)
    ensures
        r@ == library_file_name(platform, identifier@),
{
    match platform {
        Platform::Linux => {
            let mut s = concat("lib", identifier);
            s.append(".so");
            s
        },
        Platform::MacOs => {
            let mut s = concat("lib", identifier);
            s.append(".dylib");
            s
        },
        Platform::Windows => concat(identifier, ".dll"),
    }
}

impl Source {
    /// A copy of this description.
    pub fn duplicate(&self) -> (r: Source)
        ensures
            r@ == self@,
    {
        Source {
            identifier: self.identifier.clone(),
            title: self.title.clone(),
            description: self.description.clone(),
            locale: self.locale,
        }
    }
}

/// Whether `id` occurs exactly once in `keys`.
pub open spec fn occurs_once(keys: Seq<Seq<char>>, id: Seq<char>) -> bool {
    exists|i: int|
        0 <= i < keys.len() && keys[i] == id && forall|j: int|
            0 <= j < keys.len() && keys[j] == id ==> j == i
}

/// The identifiers of a list of loaded sources, in order.
pub open spec fn keys_of<L>(entries: Seq<(Source, L)>) -> Seq<Seq<char>> {
    entries.map_values(|e: (Source, L)| e.0.identifier@)
}

/// `<dir>/sources/<id>/<library file>`: where the plugin `id` is installed.
pub open spec fn source_path_of(dir: Seq<char>, platform: Platform, id: Seq<char>) -> Seq<char> {
    join(join(join(dir, "sources"@), id), library_file_name(platform, id))
}

/// How one load of `id` takes the loaded sources from `before` to `after` with result `r`.
/// An identifier that is already loaded is refused before anything is opened. Otherwise
/// the plugin is opened at its installation path and asked for its description; a failure
/// of either is the result, and a declared identifier that is already loaded is refused.
/// Only a fresh declaration adds the opened handle, under that declaration; every error
/// leaves the sources as they were.
pub open spec fn load_step<L: SourceLoader>(
    before: Seq<(Source, L)>,
    dir: Seq<char>,
    platform: Platform,
    id: Seq<char>,
    after: Seq<(Source, L)>,
    r: Result<(), EbiError>,
) -> bool {
    if keys_of(before).contains(id) {
        r == Err::<(), EbiError>(EbiError::DuplicatedSource) && after == before
    } else {
        exists|p: &str, o: Result<L, EbiError>|
            p@ == source_path_of(dir, platform, id) && #[trigger] call_ensures(L::open, (p,), o)
                && match o {
                Err(e) => r == Err::<(), EbiError>(e) && after == before,
                Ok(h) => exists|d: Result<Source, EbiError>|
                    #[trigger] call_ensures(L::source_info, (&h,), d) && match d {
                        Err(e) => r == Err::<(), EbiError>(e) && after == before,
                        Ok(s) => if keys_of(before).contains(s.identifier@) {
                            r == Err::<(), EbiError>(EbiError::DuplicatedSource) && after == before
                        } else {
                            r is Ok && after == before.push((s, h))
                        },
                    },
            }
    }
}

/// The failures of a run of loads: each identifier whose load failed, with its error,
/// in the order of the run.
pub open spec fn failures_of(ids: Seq<Seq<char>>, outs: Seq<Result<(), EbiError>>) -> Seq<
    (Seq<char>, EbiError),
>
    decreases outs.len(),
{
    if outs.len() == 0 || ids.len() != outs.len() {
        Seq::empty()
    } else {
        let rest = failures_of(ids.drop_last(), outs.drop_last());
        match outs.last() {
            Err(e) => rest.push((ids.last(), e)),
            Ok(_) => rest,
        }
    }
}

/// Whether every manga of `v` names the source `src`.
pub open spec fn all_from_source(v: Seq<Manga>, src: Seq<char>) -> bool {
    forall|i: int| 0 <= i < v.len() ==> (#[trigger] v[i]).source_identifier@ == src
}

/// The loaded sources, each under the identifier that it declared, at most one per
/// identifier, and the directory where plugins are installed.
pub struct SourceManager<L> {
    dir_path: String,
    platform: Platform,
    sources: Vec<(Source, L)>,
}

impl<L: SourceLoader> SourceManager<L> {
    pub closed spec fn dir_view(&self) -> Seq<char> {
        self.dir_path@
    }

    pub closed spec fn platform(&self) -> Platform {
        self.platform
    }

    /// The loaded sources with their descriptions, in the order they were loaded.
    pub closed spec fn entries(&self) -> Seq<(Source, L)> {
        self.sources@
    }

    /// The handle of the `i`-th loaded source.
    pub open spec fn handle(&self, i: int) -> L {
        self.entries()[i].1
    }

    /// The descriptions of the loaded sources, in the order they were loaded.
    pub open spec fn infos(&self) -> Seq<SourceV> {
        self.entries().map_values(|e: (Source, L)| e.0@)
    }

    /// The identifiers of the loaded sources, in the order they were loaded.
    pub open spec fn keys(&self) -> Seq<Seq<char>> {
        keys_of(self.entries())
    }

    /// No identifier is loaded twice.
    pub open spec fn wf(&self) -> bool {
        self.keys().no_duplicates()
    }

    /// A registry without sources for the plugins installed under `dir_path`.
    pub fn new(dir_path: &str, platform: Platform) -> (r: Self)
        ensures
            r.wf(),
            r.dir_view() == dir_path@,
            r.platform() == platform,
            r.entries() == Seq::<(Source, L)>::empty(),
    {
        let r = SourceManager { dir_path: String::from_str(dir_path), platform, sources: Vec::new() };
        assert(r.keys() =~= Seq::<Seq<char>>::empty());
        r
    }

    /// The base directory.
    pub fn dir(&self) -> (r: String)
        ensures
            r@ == self.dir_view(),
    {
        self.dir_path.clone()
    }

    /// `<dir>/sources`: where plugins are installed, one directory each.
    pub fn source_dir(&self) -> (r: String)
        ensures
            r@ == join(self.dir_view(), "sources"@),
    {
        let mut s = concat(self.dir_path.as_str(), "/");
        s.append("sources");
        s
    }

    /// `<dir>/sources/<identifier>/<library file>`: where the plugin `identifier` is installed.
    pub fn source_path(&self, identifier: &str) -> (r: String)
        ensures
            r@ == source_path_of(self.dir_view(), self.platform(), identifier@),
    {
        let mut s = self.source_dir();
        s.append("/");
        s.append(identifier);
        s.append("/");
        let f = handle_source_file_extension(self.platform, identifier);
        s.append(f.as_str());
        s
    }

    fn position(&self, identifier: &str) -> (r: Option<usize>)
        ensures
            match r {
                Some(i) => i < self.keys().len() && self.keys()[i as int] == identifier@,
                None => !self.keys().contains(identifier@),
            },
    {
        let mut i: usize = 0;
        while i < self.sources.len()
            invariant
                i <= self.sources@.len(),
                self.keys().len() == self.sources@.len(),
                forall|j: int| 0 <= j < i ==> self.keys()[j] != identifier@,
            decreases self.sources@.len() - i,
        {
            assert(self.keys()[i as int] == self.sources@[i as int].0.identifier@);
            if str_eq(self.sources[i].0.identifier.as_str(), identifier) {
                return Some(i);
            }
            i = i + 1;
        }
        None
    }

    /// Whether a source is loaded under `identifier`.
    pub fn contains(&self, identifier: &str) -> (r: bool)
        ensures
            r == self.keys().contains(identifier@),
    {
        self.position(identifier).is_some()
    }

    /// The loaded source of `identifier`.
    pub fn get(&self, identifier: &str) -> (r: Option<&L>)
        ensures
            r is Some == self.keys().contains(identifier@),
            match r {
                Some(h) => exists|i: int|
                    0 <= i < self.keys().len() && self.keys()[i] == identifier@ && *h
                        == self.handle(i),
                None => true,
            },
    {
        match self.position(identifier) {
            Some(i) => {
                assert(self.sources@[i as int].1 == self.handle(i as int));
                Some(&self.sources[i].1)
            },
            None => None,
        }
    }

    /// The identifiers of the loaded sources.
    pub fn available_sources(&self) -> (r: Vec<String>)
        ensures
            r@.map_values(|s: String| s@) == self.keys(),
    {
        let mut out: Vec<String> = Vec::new();
        let mut i: usize = 0;
        while i < self.sources.len()
            invariant
                i <= self.sources@.len(),
                self.keys().len() == self.sources@.len(),
                out@.len() == i,
                forall|j: int| 0 <= j < i ==> out@[j]@ == self.keys()[j],
            decreases self.sources@.len() - i,
        {
            assert(self.keys()[i as int] == self.sources@[i as int].0.identifier@);
            out.push(self.sources[i].0.identifier.clone());
            i = i + 1;
        }
        assert(out@.map_values(|s: String| s@) =~= self.keys());
        out
    }

    /// The descriptions of the loaded sources.
    pub fn sources(&self) -> (r: Vec<Source>)
        ensures
            r@.map_values(|s: Source| s@) == self.infos(),
    {
        let mut out: Vec<Source> = Vec::new();
        let mut i: usize = 0;
        while i < self.sources.len()
            invariant
                i <= self.sources@.len(),
                self.infos().len() == self.sources@.len(),
                out@.len() == i,
                forall|j: int| 0 <= j < i ==> out@[j]@ == self.infos()[j],
            decreases self.sources@.len() - i,
        {
            out.push(self.sources[i].0.duplicate());
            i = i + 1;
        }
        assert(out@.map_values(|s: Source| s@) =~= self.infos());
        out
    }

    /// Adds an opened source under the identifier that it declared. A declaration that
    /// failed is passed on, and an identifier that is already loaded is refused; either
    /// way the registry is left as it was.
    pub fn insert_source(&mut self, handle: L, declared: Result<Source, EbiError>) -> (r: Result<
        (),
        EbiError,
    >)
        requires
            old(self).wf(),
        ensures
            final(self).wf(),
            final(self).dir_view() == old(self).dir_view(),
            final(self).platform() == old(self).platform(),
            r is Err ==> *final(self) == *old(self),
            match declared {
                Err(e) => r == Err::<(), EbiError>(e),
                Ok(s) => if old(self).keys().contains(s.identifier@) {
                    r == Err::<(), EbiError>(EbiError::DuplicatedSource)
                } else {
                    r is Ok && final(self).entries() == old(self).entries().push((s, handle))
                },
            },
    {
        match declared {
            Err(e) => Err(e),
            Ok(s) => {
                if self.contains(s.identifier.as_str()) {
                    Err(EbiError::DuplicatedSource)
                } else {
                    let ghost old_keys = self.keys();
                    let ghost entry = (s, handle);
                    self.sources.push((s, handle));
                    assert(self.keys() =~= old_keys.push(entry.0.identifier@));
                    Ok(())
                }
            },
        }
    }

    /// Loads the plugin installed for `identifier`, as `load_step` describes: the plugin
    /// is opened at `source_path(identifier)` and registered under the identifier that it
    /// declares. On any error the registry is left as it was.
    pub fn load_source(&mut self, identifier: &str) -> (r: Result<(), EbiError>)
        requires
            old(self).wf(),
        ensures
            final(self).wf(),
            final(self).dir_view() == old(self).dir_view(),
            final(self).platform() == old(self).platform(),
            r is Err ==> *final(self) == *old(self),
            load_step(
                old(self).entries(),
                old(self).dir_view(),
                old(self).platform(),
                identifier@,
                final(self).entries(),
                r,
            ),
    {
        if self.contains(identifier) {
            return Err(EbiError::DuplicatedSource);
        }
        let path = self.source_path(identifier);
        let p = path.as_str();
        let opened = L::open(p);
        let ghost o = opened;
        let handle = match opened {
            Ok(h) => h,
            Err(e) => {
                assert(call_ensures(L::open, (p,), o));
                return Err(e);
            },
        };
        let declared = handle.source_info();
        let ghost d = declared;
        let ghost h = handle;
        let r = self.insert_source(handle, declared);
        assert(call_ensures(L::source_info, (&h,), d));
        assert(call_ensures(L::open, (p,), o));
        r
    }

    /// Loads the plugins installed for `identifiers`, one after the other, each as
    /// `load_source` does. A plugin that fails to load does not stop the others: the
    /// identifiers whose load failed are returned with their errors, in order.
    pub fn load_sources(&mut self, identifiers: &Vec<String>) -> (r: Vec<(String, EbiError)>)
        requires
            old(self).wf(),
        ensures
            final(self).wf(),
            final(self).dir_view() == old(self).dir_view(),
            final(self).platform() == old(self).platform(),
            exists|states: Seq<Seq<(Source, L)>>, outs: Seq<Result<(), EbiError>>|
                #![trigger failures_of(strings_view(identifiers@), outs), states[0]]
                states.len() == identifiers@.len() + 1 && outs.len() == identifiers@.len()
                    && states[0] == old(self).entries() && states.last() == final(self).entries()
                    && (forall|k: int|
                    0 <= k < identifiers@.len() ==> load_step(
                        #[trigger] states[k],
                        old(self).dir_view(),
                        old(self).platform(),
                        identifiers@[k]@,
                        states[k + 1],
                        outs[k],
                    )) && r@.map_values(|f: (String, EbiError)| (f.0@, f.1)) == failures_of(
                    strings_view(identifiers@),
                    outs,
                ),
    {
        let ghost ids = strings_view(identifiers@);
        let ghost mut states: Seq<Seq<(Source, L)>> = seq![self.entries()];
        let ghost mut outs: Seq<Result<(), EbiError>> = Seq::empty();
        let mut failures: Vec<(String, EbiError)> = Vec::new();
        let mut i: usize = 0;
        while i < identifiers.len()
            invariant
                self.wf(),
                self.dir_view() == old(self).dir_view(),
                self.platform() == old(self).platform(),
                ids == strings_view(identifiers@),
                i <= identifiers@.len(),
                states.len() == i + 1,
                outs.len() == i,
                states[0] == old(self).entries(),
                states[i as int] == self.entries(),
                forall|k: int|
                    0 <= k < i ==> load_step(
                        #[trigger] states[k],
                        old(self).dir_view(),
                        old(self).platform(),
                        identifiers@[k]@,
                        states[k + 1],
                        outs[k],
                    ),
                failures@.map_values(|f: (String, EbiError)| (f.0@, f.1)) == failures_of(
                    ids.take(i as int),
                    outs,
                ),
            decreases identifiers@.len() - i,
        {
            let r = self.load_source(identifiers[i].as_str());
            let ghost rr = r;
            let ghost prev = failures@.map_values(|f: (String, EbiError)| (f.0@, f.1));
            match r {
                Ok(()) => {},
                Err(e) => {
                    failures.push((identifiers[i].clone(), e));
                },
            }
            proof {
                let old_states = states;
                let old_outs = outs;
                states = states.push(self.entries());
                outs = outs.push(rr);
                assert(ids.take(i + 1).drop_last() =~= ids.take(i as int));
                assert(outs.drop_last() =~= old_outs);
                assert forall|k: int|
                    0 <= k < i + 1 implies load_step(
                    #[trigger] states[k],
                    old(self).dir_view(),
                    old(self).platform(),
                    identifiers@[k]@,
                    states[k + 1],
                    outs[k],
                ) by {
                    if k < i {
                        assert(states[k] == old_states[k]);
                        assert(states[k + 1] == old_states[k + 1]);
                    }
                }
                assert(failures@.map_values(|f: (String, EbiError)| (f.0@, f.1)) =~= failures_of(
                    ids.take(i + 1),
                    outs,
                ));
            }
            i = i + 1;
        }
        proof {
            assert(ids.take(i as int) =~= ids);
        }
        failures
    }

    /// The catalog of the source `source`: the list that its handle answers, provided
    /// every manga in it names `source`; a list that names another source is a failure
    /// of the catalog. An identifier that is not loaded is an invalid source.
    pub fn manga_list(&self, source: &str) -> (r: Result<Vec<Manga>, EbiError>)
        ensures
            !self.keys().contains(source@) ==> r == Err::<Vec<Manga>, EbiError>(
                EbiError::InvalidSource,
            ),
            self.keys().contains(source@) ==> exists|i: int, a: Result<Vec<Manga>, EbiError>|
                0 <= i < self.keys().len() && self.keys()[i] == source@ && #[trigger] call_ensures(
                    L::manga_list,
                    (&self.handle(i),),
                    a,
                ) && match a {
                    Err(e) => r == Err::<Vec<Manga>, EbiError>(e),
                    Ok(v) => if all_from_source(v@, source@) {
                        r == Ok::<Vec<Manga>, EbiError>(v)
                    } else {
                        r == Err::<Vec<Manga>, EbiError>(
                            EbiError::LoadMangaList(SourceError::InvalidSource),
                        )
                    },
                },
            match r {
                Ok(v) => all_from_source(v@, source@),
                Err(_) => true,
            },
    {
        match self.position(source) {
            Some(i) => {
                let a = self.sources[i].1.manga_list();
                let ghost ga = a;
                assert(call_ensures(L::manga_list, (&self.handle(i as int),), ga));
                match a {
                    Ok(v) => {
                        if every_from_source(&v, source) {
                            Ok(v)
                        } else {
                            Err(EbiError::LoadMangaList(SourceError::InvalidSource))
                        }
                    },
                    Err(e) => Err(e),
                }
            },
            None => Err(EbiError::InvalidSource),
        }
    }

    /// The chapters of `manga`: the answer of the handle of the source that the manga
    /// names, whatever it is.
    pub fn chapter_list(&self, manga: &Manga) -> (r: Result<Vec<Chapter>, EbiError>)
        ensures
            !self.keys().contains(manga.source_identifier@) ==> r == Err::<
                Vec<Chapter>,
                EbiError,
            >(EbiError::InvalidSource),
            self.keys().contains(manga.source_identifier@) ==> exists|i: int|
                0 <= i < self.keys().len() && self.keys()[i] == manga.source_identifier@
                    && #[trigger] call_ensures(L::chapter_list, (&self.handle(i), manga), r),
    {
        match self.position(manga.source_identifier.as_str()) {
            Some(i) => {
                let r = self.sources[i].1.chapter_list(manga);
                assert(call_ensures(L::chapter_list, (&self.handle(i as int), manga), r));
                r
            },
            None => Err(EbiError::InvalidSource),
        }
    }

    /// The page addresses of `chapter`: the answer of the handle of the source that the
    /// chapter names, whatever it is.
    pub fn chapter_page_list(&self, chapter: &Chapter) -> (r: Result<Vec<String>, EbiError>)
        ensures
            !self.keys().contains(chapter.source_identifier@) ==> r == Err::<
                Vec<String>,
                EbiError,
            >(EbiError::InvalidSource),
            self.keys().contains(chapter.source_identifier@) ==> exists|i: int|
                0 <= i < self.keys().len() && self.keys()[i] == chapter.source_identifier@
                    && #[trigger] call_ensures(L::chapter_page_list, (&self.handle(i), chapter), r),
    {
        match self.position(chapter.source_identifier.as_str()) {
            Some(i) => {
                let r = self.sources[i].1.chapter_page_list(chapter);
                assert(call_ensures(L::chapter_page_list, (&self.handle(i as int), chapter), r));
                r
            },
            None => Err(EbiError::InvalidSource),
        }
    }
}

/// Whether every manga of `v` names the source `source`.
fn every_from_source(v: &Vec<Manga>, source: &str) -> (r: bool)
    ensures
        r == all_from_source(v@, source@),
{
    let mut i: usize = 0;
    while i < v.len()
        invariant
            i <= v@.len(),
            forall|k: int| 0 <= k < i ==> (#[trigger] v@[k]).source_identifier@ == source@,
        decreases v@.len() - i,
    {
        if !str_eq(v[i].source_identifier.as_str(), source) {
            return false;
        }
        i = i + 1;
    }
    true
}

/// In a registry every loaded identifier has exactly one entry; with the refusal of
/// `load_source` this means that loading an identifier a second time leaves one entry.
pub proof fn lemma_one_entry_per_identifier<L: SourceLoader>(m: SourceManager<L>, id: Seq<char>)
    requires
        m.wf(),
        m.keys().contains(id),
    ensures
        occurs_once(m.keys(), id),
{
    let keys = m.keys();
    let i = choose|i: int| 0 <= i < keys.len() && keys[i] == id;
    assert forall|j: int| 0 <= j < keys.len() && keys[j] == id implies j == i by {
        if j != i {
            assert(keys[j] == keys[i]);
        }
    }
}

impl SourceArchiver {
    /// The archiver that caches below the plugin directory of `manager`.
    pub fn from_manager<L: SourceLoader>(manager: &SourceManager<L>) -> (r: SourceArchiver)
        ensures
            r.dir()@ == join(manager.dir_view(), "sources"@),
    {
        let d = manager.source_dir();
        SourceArchiver::new(d.as_str())
    }
}

} // verus!
