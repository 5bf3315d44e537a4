use ebi::archive::SourceArchiver;
use ebi::error::{EbiError, SourceError};
use ebi::invalid_source_mock;
use ebi::locale::Locale;
use ebi::manager::{handle_source_file_extension, Platform, SourceLoader, SourceManager};
use ebi::model::{Chapter, Manga, Source};
use ebi::valid_source_mock;

/// A plugin that declares the identifier of the directory it was opened from, except
/// for `alias`, which declares `opex`.
struct DirPlugin {
    declared: String,
}

fn declared_for(path: &str) -> Option<String> {
    let parts: Vec<&str> = path.rsplit('/').collect();
    let file = parts[0];
    let dir = parts[1];
    if file != format!("lib{}.so", dir) || dir == "missing" {
        return None;
    }
    if dir == "alias" {
        return Some("opex".to_string());
    }
    Some(dir.to_string())
}

fn opex_manga(id: &str) -> Manga {
    Manga {
        identifier: id.to_string(),
        title: "One Piece".to_string(),
        cover: "https://onepieceex.net/c.jpg".to_string(),
        url: "/mangas".to_string(),
        genres: vec!["shounen".to_string(), "fantasy".to_string()],
        description: None,
        source_identifier: "opex".to_string(),
    }
}

impl SourceLoader for DirPlugin {
    fn open(path: &str) -> Result<Self, EbiError> {
        match declared_for(path) {
            Some(declared) => Ok(DirPlugin { declared }),
            None => Err(EbiError::LoadLib),
        }
    }

    fn source_info(&self) -> Result<Source, EbiError> {
        if self.declared == "broken" {
            return Err(EbiError::SourceError(SourceError::Fetch));
        }
        Ok(Source {
            identifier: self.declared.clone(),
            title: "One Piece Ex".to_string(),
            description: "One Piece Ex | De fã para fã".to_string(),
            locale: Locale::PtBr,
        })
    }

    fn manga_list(&self) -> Result<Vec<Manga>, EbiError> {
        Ok(vec![opex_manga("main"), opex_manga("covers"), opex_manga("sbs")])
    }

    fn chapter_list(&self, manga: &Manga) -> Result<Vec<Chapter>, EbiError> {
        if manga.identifier == "main" {
            Ok(vec![])
        } else {
            Err(EbiError::LoadChapterList(SourceError::InvalidIdentifier))
        }
    }

    fn chapter_page_list(&self, _chapter: &Chapter) -> Result<Vec<String>, EbiError> {
        Ok(vec!["https://onepieceex.net/1.jpg".to_string()])
    }
}

fn registry() -> SourceManager<DirPlugin> {
    SourceManager::new("/home/u/.ebi", Platform::Linux)
}

#[test]
fn library_file_names_per_platform() {
    assert_eq!(handle_source_file_extension(Platform::Linux, "opex"), "libopex.so");
    assert_eq!(handle_source_file_extension(Platform::MacOs, "opex"), "libopex.dylib");
    assert_eq!(handle_source_file_extension(Platform::Windows, "opex"), "opex.dll");
}

#[test]
fn registry_paths() {
    let m = registry();
    assert_eq!(m.dir(), "/home/u/.ebi");
    assert_eq!(m.source_dir(), "/home/u/.ebi/sources");
    assert_eq!(m.source_path("opex"), "/home/u/.ebi/sources/opex/libopex.so");
    let w: SourceManager<DirPlugin> = SourceManager::new("C:/ebi", Platform::Windows);
    assert_eq!(w.source_path("opex"), "C:/ebi/sources/opex/opex.dll");
    let archiver = SourceArchiver::from_manager(&m);
    assert_eq!(archiver.manga_path("opex", "main"), "/home/u/.ebi/sources/opex/manga/main");
}

#[test]
fn second_load_is_a_duplicate_and_keeps_one_entry() {
    let mut m = registry();
    assert_eq!(m.load_source("opex"), Ok(()));
    assert_eq!(m.load_source("opex"), Err(EbiError::DuplicatedSource));
    assert_eq!(m.available_sources(), vec!["opex".to_string()]);
    assert!(m.contains("opex"));
}

#[test]
fn declared_identifier_is_the_key() {
    let mut m = registry();
    assert_eq!(m.load_source("alias"), Ok(()));
    assert!(m.get("alias").is_none());
    assert!(m.get("opex").is_some());
    assert_eq!(m.load_source("opex"), Err(EbiError::DuplicatedSource));
    assert_eq!(m.available_sources(), vec!["opex".to_string()]);
}

#[test]
fn failed_loads_leave_the_registry_as_it_was() {
    let mut m = registry();
    assert_eq!(m.load_source("missing"), Err(EbiError::LoadLib));
    assert_eq!(
        m.load_source("broken"),
        Err(EbiError::SourceError(SourceError::Fetch))
    );
    assert!(m.available_sources().is_empty());
    assert!(m.sources().is_empty());
}

#[test]
fn insert_source_follows_the_declaration() {
    let mut m = registry();
    let info = Source {
        identifier: "yabu".to_string(),
        title: "Manga Yabu".to_string(),
        description: "d".to_string(),
        locale: Locale::PtBr,
    };
    let handle = DirPlugin { declared: "yabu".to_string() };
    assert_eq!(m.insert_source(handle, Ok(info.clone())), Ok(()));
    let again = DirPlugin { declared: "yabu".to_string() };
    assert_eq!(m.insert_source(again, Ok(info.clone())), Err(EbiError::DuplicatedSource));
    let failed = DirPlugin { declared: "x".to_string() };
    assert_eq!(m.insert_source(failed, Err(EbiError::LoadFunction)), Err(EbiError::LoadFunction));
    assert_eq!(m.sources(), vec![info]);
}

#[test]
fn load_all_populates_opex_only() {
    let mut m = registry();
    let dirs = vec!["opex".to_string()];
    let failures = m.load_sources(&dirs);
    assert!(failures.is_empty());
    assert_eq!(m.available_sources(), vec!["opex".to_string()]);
    let list = m.manga_list("opex").unwrap();
    assert!(!list.is_empty());
    assert!(list.iter().all(|manga| manga.source_identifier == "opex"));
}

#[test]
fn load_all_skips_plugins_that_fail() {
    let mut m = registry();
    let dirs = vec![
        "missing".to_string(),
        "opex".to_string(),
        "broken".to_string(),
        "alias".to_string(),
        "yabu".to_string(),
    ];
    let failures = m.load_sources(&dirs);
    assert_eq!(
        failures,
        vec![
            ("missing".to_string(), EbiError::LoadLib),
            ("broken".to_string(), EbiError::SourceError(SourceError::Fetch)),
            ("alias".to_string(), EbiError::DuplicatedSource),
        ]
    );
    assert_eq!(m.available_sources(), vec!["opex".to_string(), "yabu".to_string()]);
}

#[test]
fn reads_of_unknown_sources_are_invalid() {
    let mut m = registry();
    m.load_source("opex").unwrap();
    assert_eq!(m.manga_list("yabu"), Err(EbiError::InvalidSource));
    let mut manga = opex_manga("main");
    manga.source_identifier = "yabu".to_string();
    assert_eq!(m.chapter_list(&manga), Err(EbiError::InvalidSource));
    let chapter = Chapter {
        chapter: 1,
        title: "t".to_string(),
        url: "u".to_string(),
        manga_identifier: "main".to_string(),
        source_identifier: "yabu".to_string(),
    };
    assert_eq!(m.chapter_page_list(&chapter), Err(EbiError::InvalidSource));
}

#[test]
fn catalog_naming_another_source_is_refused() {
    let mut m = registry();
    m.load_source("yabu").unwrap();
    assert_eq!(
        m.manga_list("yabu"),
        Err(EbiError::LoadMangaList(SourceError::InvalidSource))
    );
    assert_eq!(m.manga_list("opex"), Err(EbiError::InvalidSource));
}

#[test]
fn reads_go_to_the_named_source() {
    let mut m = registry();
    m.load_source("opex").unwrap();
    assert_eq!(m.chapter_list(&opex_manga("main")), Ok(vec![]));
    assert_eq!(
        m.chapter_list(&opex_manga("unknown")),
        Err(EbiError::LoadChapterList(SourceError::InvalidIdentifier))
    );
    let chapter = Chapter {
        chapter: 1,
        title: "t".to_string(),
        url: "u".to_string(),
        manga_identifier: "main".to_string(),
        source_identifier: "opex".to_string(),
    };
    assert_eq!(m.chapter_page_list(&chapter), Ok(vec!["https://onepieceex.net/1.jpg".to_string()]));
}

#[test]
fn mock_sources_answer_as_declared() {
    let valid = valid_source_mock::manga_list().unwrap();
    assert_eq!(valid.len(), 1);
    assert_eq!(valid[0].identifier, "one-piece");
    assert!(valid.iter().all(|m| m.source_identifier == valid_source_mock::SOURCE_IDENTIFIER));
    let chapters = valid_source_mock::chapter_list("one-piece".to_string(), "/manga/one-piece".to_string()).unwrap();
    assert_eq!(chapters.len(), 100);
    assert_eq!(chapters[0].chapter, 1);
    assert_eq!(chapters[0].title, "One Piece -- 1");
    assert_eq!(chapters[99].url, "/manga/one-piece/100");
    assert_eq!(
        valid_source_mock::chapter_list("nope".to_string(), "/x".to_string()),
        Err(SourceError::InvalidIdentifier)
    );
    assert_eq!(invalid_source_mock::manga_list(), Err(SourceError::Fetch));
    assert_eq!(
        invalid_source_mock::chapter_list("invalid".to_string(), "u".to_string()),
        Err(SourceError::Unknown("It was not possible to load chapters for \"invalid\"".to_string()))
    );
    let ok = invalid_source_mock::chapter_list("valid".to_string(), "http://127.0.0.1/valid-manga".to_string()).unwrap();
    assert_eq!(ok.len(), 100);
    assert_eq!(ok[4].title, "A Valid Manga Title -- 5");
    assert_eq!(invalid_source_mock::valid_manga().identifier, "valid");
    assert_eq!(invalid_source_mock::invalid_manga().identifier, "invalid");
    assert_eq!(invalid_source_mock::source().locale, Locale::EnUs);
}
