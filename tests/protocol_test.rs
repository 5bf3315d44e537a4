use ebi::abi::{
    chapter_list_response, chapter_page_list_response, decode_manga, manga_list_response,
    source_info_response, ABIChapterListInput, ABIChapterPageListInput,
};
use ebi::error::{EbiError, SourceError, SourceErrorSerialized};
use ebi::json::Json;
use ebi::locale::Locale;
use ebi::export::{
    chapter_page_list_payload, encode_chapter_list, encode_manga_list, manga_list_payload,
    source_info_payload,
};
use ebi::model::{Chapter, Manga, Source};

fn s(v: &str) -> Json {
    Json::Str(v.to_string())
}

fn obj(entries: Vec<(&str, Json)>) -> Json {
    Json::Object(entries.into_iter().map(|(k, v)| (k.to_string(), v)).collect())
}

fn manga_json(id: &str, source: &str, description: Json) -> Json {
    obj(vec![
        ("identifier", s(id)),
        ("title", s("One Piece")),
        ("cover", s("http://127.0.0.1/cover.jpg")),
        ("url", s("/manga/one-piece")),
        ("genres", Json::Array(vec![s("shounen"), s("fantasy")])),
        ("description", description),
        ("source_identifier", s(source)),
    ])
}

fn chapter_json(n: u64) -> Json {
    obj(vec![
        ("chapter", Json::Number(n)),
        ("title", s("One Piece -- 1")),
        ("url", s("/manga/one-piece/1")),
        ("manga_identifier", s("one-piece")),
        ("source_identifier", s("opex")),
    ])
}

fn envelope(tag: Json) -> Json {
    obj(vec![("error", tag)])
}

#[test]
fn unknown_error_survives_the_envelope() {
    let sent = SourceErrorSerialized { error: SourceError::Unknown("boom".to_string()) };
    let json = sent.to_json();
    assert_eq!(
        json,
        obj(vec![("error", obj(vec![("Unknown", s("boom"))]))])
    );
    let back = SourceErrorSerialized::from_json(&json).unwrap();
    assert_eq!(back.error, SourceError::Unknown("boom".to_string()));
}

#[test]
fn every_error_survives_the_envelope() {
    let all = vec![
        SourceError::Unknown("x".to_string()),
        SourceError::Fetch,
        SourceError::Serialize,
        SourceError::InvalidIdentifier,
        SourceError::InvalidSource,
        SourceError::ABINullConversion,
        SourceError::ABIResult("y".to_string()),
    ];
    for e in all {
        let json = SourceErrorSerialized { error: e.clone() }.to_json();
        assert_eq!(SourceErrorSerialized::from_json(&json).unwrap().error, e);
    }
    assert_eq!(SourceError::Fetch.to_json(), s("Fetch"));
}

#[test]
fn malformed_envelopes_are_not_errors() {
    assert!(SourceErrorSerialized::from_json(&envelope(s("Boom"))).is_none());
    assert!(SourceErrorSerialized::from_json(&obj(vec![("err", s("Fetch"))])).is_none());
    assert!(SourceErrorSerialized::from_json(&envelope(obj(vec![("Fetch", s("m"))]))).is_none());
    assert!(SourceErrorSerialized::from_json(&envelope(obj(vec![
        ("Unknown", s("a")),
        ("ABIResult", s("b")),
    ])))
    .is_none());
    assert!(SourceErrorSerialized::from_json(&Json::Null).is_none());
}

#[test]
fn source_info_is_decoded() {
    let payload = obj(vec![
        ("identifier", s("opex")),
        ("title", s("One Piece Ex")),
        ("description", s("One Piece Ex | De fã para fã")),
        ("locale", s("pt_BR")),
    ]);
    let info = source_info_response(&payload).unwrap();
    assert_eq!(info.identifier, "opex");
    assert_eq!(info.title, "One Piece Ex");
    assert_eq!(info.description, "One Piece Ex | De fã para fã");
    assert_eq!(info.locale, Locale::PtBr);
}

#[test]
fn source_info_with_an_unknown_locale_is_unknown() {
    let payload = obj(vec![
        ("identifier", s("x")),
        ("title", s("t")),
        ("description", s("d")),
        ("locale", s("fr_FR")),
    ]);
    assert_eq!(source_info_response(&payload).unwrap().locale, Locale::Unknown);
}

#[test]
fn source_info_error_envelope_is_a_source_error() {
    let r = source_info_response(&envelope(s("InvalidSource")));
    assert_eq!(r, Err(EbiError::SourceError(SourceError::InvalidSource)));
}

#[test]
fn source_info_garbage_is_a_serialize_response() {
    assert_eq!(source_info_response(&Json::Number(3)), Err(EbiError::SerializeResponse));
    let missing_locale = obj(vec![("identifier", s("x")), ("title", s("t")), ("description", s("d"))]);
    assert_eq!(source_info_response(&missing_locale), Err(EbiError::SerializeResponse));
}

#[test]
fn manga_list_is_decoded() {
    let payload = Json::Array(vec![
        manga_json("one-piece", "opex", Json::Null),
        manga_json("sbs", "opex", s("questions")),
    ]);
    let list = manga_list_response(&payload).unwrap();
    assert_eq!(list.len(), 2);
    assert_eq!(list[0].identifier, "one-piece");
    assert_eq!(list[0].genres, vec!["shounen".to_string(), "fantasy".to_string()]);
    assert_eq!(list[0].description, None);
    assert_eq!(list[1].identifier, "sbs");
    assert_eq!(list[1].description, Some("questions".to_string()));
    assert!(list.iter().all(|m| m.source_identifier == "opex"));
}

#[test]
fn manga_without_description_entry_has_none() {
    let payload = obj(vec![
        ("identifier", s("a")),
        ("title", s("b")),
        ("cover", s("c")),
        ("url", s("d")),
        ("genres", Json::Array(vec![])),
        ("source_identifier", s("e")),
    ]);
    let m = decode_manga(&payload).unwrap();
    assert_eq!(m.description, None);
    assert!(m.genres.is_empty());
}

#[test]
fn empty_manga_list_is_a_success() {
    assert_eq!(manga_list_response(&Json::Array(vec![])), Ok(vec![]));
}

#[test]
fn manga_list_with_a_bad_item_is_a_serialize_response() {
    let payload = Json::Array(vec![
        manga_json("one-piece", "opex", Json::Null),
        manga_json("sbs", "opex", Json::Number(1)),
    ]);
    assert_eq!(manga_list_response(&payload), Err(EbiError::SerializeResponse));
    let bad_genre = Json::Array(vec![obj(vec![
        ("identifier", s("a")),
        ("title", s("b")),
        ("cover", s("c")),
        ("url", s("d")),
        ("genres", Json::Array(vec![s("ok"), Json::Bool(true)])),
        ("source_identifier", s("e")),
    ])]);
    assert_eq!(manga_list_response(&bad_genre), Err(EbiError::SerializeResponse));
}

#[test]
fn manga_list_error_is_load_manga_list() {
    let r = manga_list_response(&envelope(s("Fetch")));
    assert_eq!(r, Err(EbiError::LoadMangaList(SourceError::Fetch)));
}

#[test]
fn chapter_list_is_decoded() {
    let list = chapter_list_response(&Json::Array(vec![chapter_json(1), chapter_json(4294967295)]))
        .unwrap();
    assert_eq!(list.len(), 2);
    assert_eq!(list[0].chapter, 1);
    assert_eq!(list[1].chapter, 4294967295);
    assert_eq!(list[0].title, "One Piece -- 1");
    assert_eq!(list[0].manga_identifier, "one-piece");
}

#[test]
fn chapter_number_beyond_32_bits_is_a_serialize_response() {
    let r = chapter_list_response(&Json::Array(vec![chapter_json(4294967296)]));
    assert_eq!(r, Err(EbiError::SerializeResponse));
    let r = chapter_list_response(&Json::Array(vec![obj(vec![("chapter", Json::OtherNumber)])]));
    assert_eq!(r, Err(EbiError::SerializeResponse));
}

#[test]
fn chapter_list_error_is_load_chapter_list() {
    let r = chapter_list_response(&envelope(obj(vec![("Unknown", s("no such manga"))])));
    assert_eq!(
        r,
        Err(EbiError::LoadChapterList(SourceError::Unknown("no such manga".to_string())))
    );
}

#[test]
fn chapter_page_list_is_decoded() {
    let r = chapter_page_list_response(&Json::Array(vec![s("http://a/1.jpg"), s("http://a/2.png")]));
    assert_eq!(r, Ok(vec!["http://a/1.jpg".to_string(), "http://a/2.png".to_string()]));
    let r = chapter_page_list_response(&envelope(obj(vec![("ABIResult", s("null"))])));
    assert_eq!(
        r,
        Err(EbiError::LoadChapterPageList(SourceError::ABIResult("null".to_string())))
    );
    assert_eq!(chapter_page_list_response(&s("x")), Err(EbiError::SerializeResponse));
}

#[test]
fn first_entry_of_a_repeated_key_wins() {
    let payload = obj(vec![
        ("identifier", s("first")),
        ("identifier", s("second")),
        ("title", s("t")),
        ("description", s("d")),
        ("locale", s("en_US")),
    ]);
    assert_eq!(source_info_response(&payload).unwrap().identifier, "first");
}

#[test]
fn request_inputs_carry_the_right_fields() {
    let manga = Manga {
        identifier: "one-piece".to_string(),
        title: "One Piece".to_string(),
        cover: "c".to_string(),
        url: "/manga/one-piece".to_string(),
        genres: vec![],
        description: None,
        source_identifier: "opex".to_string(),
    };
    let input = ABIChapterListInput::from_manga(&manga);
    assert_eq!(input.identifier, "one-piece");
    assert_eq!(input.url, "/manga/one-piece");
    let chapter = Chapter {
        chapter: 7,
        title: "t".to_string(),
        url: "/manga/one-piece/7".to_string(),
        manga_identifier: "one-piece".to_string(),
        source_identifier: "opex".to_string(),
    };
    let input = ABIChapterPageListInput::from_chapter(&chapter);
    assert_eq!(input.chapter, 7);
    assert_eq!(input.chapter_url, "/manga/one-piece/7");
    assert_eq!(input.manga, "one-piece");
}

#[test]
fn encoded_values_decode_to_themselves() {
    let manga = Manga {
        identifier: "main".to_string(),
        title: "One Piece".to_string(),
        cover: "https://onepieceex.net/c.jpg".to_string(),
        url: "/mangas".to_string(),
        genres: vec!["shounen".to_string(), "fantasy".to_string()],
        description: Some("d".to_string()),
        source_identifier: "opex".to_string(),
    };
    assert_eq!(decode_manga(&manga.to_json()), Some(manga.clone()));
    let mut plain = manga.clone();
    plain.description = None;
    assert_eq!(manga_list_response(&encode_manga_list(&vec![manga.clone(), plain.clone()])), Ok(vec![manga, plain]));
    let chapter = Chapter {
        chapter: 1045,
        title: "t".to_string(),
        url: "/mangas/1045".to_string(),
        manga_identifier: "main".to_string(),
        source_identifier: "opex".to_string(),
    };
    assert_eq!(chapter_list_response(&encode_chapter_list(&vec![chapter.clone()])), Ok(vec![chapter]));
    let info = Source {
        identifier: "opex".to_string(),
        title: "One Piece Ex".to_string(),
        description: "One Piece Ex | De fã para fã".to_string(),
        locale: Locale::PtBr,
    };
    assert_eq!(source_info_response(&source_info_payload(&Ok(info.clone()))), Ok(info));
    assert_eq!(
        source_info_response(&source_info_payload(&Err(SourceError::Serialize))),
        Err(EbiError::SourceError(SourceError::Serialize))
    );
    assert_eq!(
        manga_list_response(&manga_list_payload(&Err(SourceError::Unknown("boom".to_string())))),
        Err(EbiError::LoadMangaList(SourceError::Unknown("boom".to_string())))
    );
    let pages = vec!["http://a/1.jpg".to_string()];
    assert_eq!(chapter_page_list_response(&chapter_page_list_payload(&Ok(pages.clone()))), Ok(pages));
    assert_eq!(
        chapter_page_list_response(&chapter_page_list_payload(&Err(SourceError::Fetch))),
        Err(EbiError::LoadChapterPageList(SourceError::Fetch))
    );
}
