use ebi::archive::{downloaded_path, find_cached, KnownFileExtensions, SourceArchiver, MANGA_COVER_FILE_NAME};
use ebi::error::EbiError;
use ebi::model::{Chapter, Manga};

fn names(v: &[&str]) -> Vec<String> {
    v.iter().map(|s| s.to_string()).collect()
}

#[test]
fn content_types_map_to_extensions() {
    let jpeg = KnownFileExtensions::try_from_content_type("image/jpeg").unwrap();
    assert_eq!(jpeg, KnownFileExtensions::Jpeg);
    assert_eq!(jpeg.extension(), "jpg");
    let png = KnownFileExtensions::try_from_content_type("image/png").unwrap();
    assert_eq!(png, KnownFileExtensions::Png);
    assert_eq!(png.to_string(), "png");
}

#[test]
fn other_content_types_are_unsupported() {
    assert_eq!(
        KnownFileExtensions::try_from_content_type("text/html"),
        Err(EbiError::UnsupportedFile("text/html".to_string()))
    );
    assert_eq!(
        KnownFileExtensions::try_from_content_type("image/JPEG"),
        Err(EbiError::UnsupportedFile("image/JPEG".to_string()))
    );
    assert_eq!(
        KnownFileExtensions::try_from_content_type(""),
        Err(EbiError::UnsupportedFile(String::new()))
    );
}

#[test]
fn cache_paths_follow_the_layout() {
    let archiver = SourceArchiver::new("/home/u/.ebi/sources");
    assert_eq!(archiver.base_manga_path_from_source("opex"), "/home/u/.ebi/sources/opex/manga");
    assert_eq!(archiver.manga_path("opex", "main"), "/home/u/.ebi/sources/opex/manga/main");
    let chapter = Chapter {
        chapter: 1045,
        title: "t".to_string(),
        url: "u".to_string(),
        manga_identifier: "main".to_string(),
        source_identifier: "opex".to_string(),
    };
    assert_eq!(archiver.chapter_path(&chapter), "/home/u/.ebi/sources/opex/manga/main/1045");
    let manga = Manga {
        identifier: "covers".to_string(),
        title: "t".to_string(),
        cover: "https://example.org/c.jpg".to_string(),
        url: "u".to_string(),
        genres: vec![],
        description: None,
        source_identifier: "opex".to_string(),
    };
    assert_eq!(archiver.cover_dir(&manga), "/home/u/.ebi/sources/opex/manga/covers");
    assert_eq!(SourceArchiver::page_key(12), "12");
    assert_eq!(MANGA_COVER_FILE_NAME, "cover");
}

#[test]
fn cached_copy_is_found_whatever_its_extension() {
    let dir = "/c/opex/manga/main";
    let listing = names(&["0.png", "cover.png", "covers.jpg"]);
    assert_eq!(find_cached(dir, &listing, "cover"), Some("/c/opex/manga/main/cover.png".to_string()));
    assert_eq!(find_cached(dir, &listing, "0"), Some("/c/opex/manga/main/0.png".to_string()));
    assert_eq!(find_cached(dir, &listing, "1"), None);
    assert_eq!(find_cached(dir, &names(&[]), "cover"), None);
    assert_eq!(find_cached(dir, &names(&["10.jpg"]), "1"), None);
}

#[test]
fn download_target_needs_a_known_content_type() {
    assert_eq!(
        downloaded_path("/d", "cover", Some("image/jpeg")),
        Ok("/d/cover.jpg".to_string())
    );
    assert_eq!(downloaded_path("/d", "3", Some("image/png")), Ok("/d/3.png".to_string()));
    assert_eq!(downloaded_path("/d", "cover", None), Err(EbiError::NoContentType));
    assert_eq!(
        downloaded_path("/d", "cover", Some("text/html")),
        Err(EbiError::UnsupportedFile("text/html".to_string()))
    );
}

/// A stand-in for the network and the disk: it counts fetches and lists what was saved.
struct StubStore {
    files: Vec<String>,
    fetches: usize,
}

impl StubStore {
    fn fetch_or_get(&mut self, archiver: &SourceArchiver, dir: &str, key: &str) -> Result<String, EbiError> {
        let cached = find_cached(dir, &self.files, key);
        if cached.is_none() {
            self.fetches += 1;
            let path = downloaded_path(dir, key, Some("image/jpeg"))?;
            self.files.insert(0, path.rsplit('/').next().unwrap().to_string());
        }
        archiver.download_if_not_exists(cached, dir, key, Some("image/jpeg"))
    }
}

#[test]
fn second_fetch_of_the_same_key_uses_the_cache() {
    let archiver = SourceArchiver::new("/c");
    let mut store = StubStore { files: names(&["0.png", "covers.jpg"]), fetches: 0 };
    let first = store.fetch_or_get(&archiver, "/c/opex/manga/main", "cover").unwrap();
    let second = store.fetch_or_get(&archiver, "/c/opex/manga/main", "cover").unwrap();
    assert_eq!(store.fetches, 1);
    assert_eq!(first, "/c/opex/manga/main/cover.jpg");
    assert_eq!(first, second);
}

#[test]
fn cached_path_is_handed_out_unchanged() {
    let archiver = SourceArchiver::new("/c");
    let r = archiver.download_if_not_exists(Some("/x/cover.png".to_string()), "/d", "cover", None);
    assert_eq!(r, Ok("/x/cover.png".to_string()));
    let r = archiver.download_if_not_exists(None, "/d", "cover", None);
    assert_eq!(r, Err(EbiError::NoContentType));
}

#[test]
fn cover_is_rewritten_to_the_local_path() {
    let manga = Manga {
        identifier: "main".to_string(),
        title: "One Piece".to_string(),
        cover: "https://example.org/c.jpg".to_string(),
        url: "/mangas".to_string(),
        genres: vec!["shounen".to_string()],
        description: Some("d".to_string()),
        source_identifier: "opex".to_string(),
    };
    let local = manga.with_cover("/c/opex/manga/main/cover.jpg".to_string());
    assert_eq!(local.cover, "/c/opex/manga/main/cover.jpg");
    assert_eq!(local.identifier, manga.identifier);
    assert_eq!(local.genres, manga.genres);
    assert_eq!(local.description, manga.description);
}
