use wirewave::{
    check_status, decode_search, encode_search, find_member, parse_search, read_document,
    search_outcome, search_url, ClientError, Json, JsonNumber, WaveMusic,
};

fn item(title: Option<&str>, uploader: Option<&str>, id: Option<&str>) -> WaveMusic {
    WaveMusic {
        title: title.map(|s| s.to_string()),
        uploader_name: uploader.map(|s| s.to_string()),
        uploader_url: None,
        duration: None,
        id: id.map(|s| s.to_string()),
    }
}

#[test]
fn empty_items_array_gives_empty_list() {
    let r = parse_search(r#"{"items":[]}"#);
    assert_eq!(r, Ok(Vec::new()));
}

#[test]
fn missing_items_key_is_decode_error() {
    assert_eq!(parse_search(r#"{"results":[]}"#), Err(ClientError::Decode));
    assert_eq!(parse_search("{}"), Err(ClientError::Decode));
}

#[test]
fn invalid_json_is_decode_error() {
    assert_eq!(parse_search("not json"), Err(ClientError::Decode));
    assert_eq!(parse_search(r#"{"items":[}"#), Err(ClientError::Decode));
    assert_eq!(parse_search(""), Err(ClientError::Decode));
}

#[test]
fn wrong_shapes_are_decode_errors() {
    assert_eq!(parse_search(r#"[]"#), Err(ClientError::Decode));
    assert_eq!(parse_search(r#"{"items":{}}"#), Err(ClientError::Decode));
    assert_eq!(parse_search(r#"{"items":[1]}"#), Err(ClientError::Decode));
    assert_eq!(parse_search(r#"{"items":[{"title":5}]}"#), Err(ClientError::Decode));
    assert_eq!(parse_search(r#"{"items":[{"id":true}]}"#), Err(ClientError::Decode));
}

#[test]
fn duration_must_fit_unsigned_32_bits() {
    assert_eq!(parse_search(r#"{"items":[{"duration":-1}]}"#), Err(ClientError::Decode));
    assert_eq!(parse_search(r#"{"items":[{"duration":1.5}]}"#), Err(ClientError::Decode));
    assert_eq!(parse_search(r#"{"items":[{"duration":4294967296}]}"#), Err(ClientError::Decode));
    let r = parse_search(r#"{"items":[{"duration":4294967295}]}"#).unwrap();
    assert_eq!(r[0].duration, Some(4294967295));
}

#[test]
fn absent_and_null_fields_are_none() {
    let r = parse_search(r#"{"items":[{"title":null,"extra":[1,2]},{}]}"#).unwrap();
    assert_eq!(r.len(), 2);
    assert_eq!(r[0], item(None, None, None));
    assert_eq!(r[1], item(None, None, None));
}

#[test]
fn items_keep_their_order() {
    let r = parse_search(r#"{"items":[{"title":"one"},{"title":"two"},{"title":"three"}]}"#)
        .unwrap();
    let titles: Vec<Option<String>> = r.into_iter().map(|m| m.title).collect();
    assert_eq!(
        titles,
        vec![Some("one".to_string()), Some("two".to_string()), Some("three".to_string())]
    );
}

#[test]
fn error_status_carries_code_and_skips_body() {
    assert_eq!(search_outcome(404, r#"{"items":[]}"#), Err(ClientError::HttpStatus(404)));
    assert_eq!(search_outcome(500, "not json"), Err(ClientError::HttpStatus(500)));
    assert_eq!(search_outcome(301, ""), Err(ClientError::HttpStatus(301)));
    assert_eq!(search_outcome(204, r#"{"items":[]}"#), Ok(Vec::new()));
    assert_eq!(search_outcome(200, "not json"), Err(ClientError::Decode));
}

#[test]
fn success_range_is_two_hundreds() {
    assert_eq!(check_status(200), Ok(()));
    assert_eq!(check_status(299), Ok(()));
    assert_eq!(check_status(199), Err(ClientError::HttpStatus(199)));
    assert_eq!(check_status(300), Err(ClientError::HttpStatus(300)));
    assert_eq!(check_status(404), Err(ClientError::HttpStatus(404)));
    assert_eq!(check_status(500), Err(ClientError::HttpStatus(500)));
}

#[test]
fn thumbnail_without_id_is_missing_id() {
    let m = item(Some("Song"), Some("Artist"), None);
    assert_eq!(m.thumbnail_url(), Err(ClientError::MissingId));
}

#[test]
fn thumbnail_with_empty_id_is_missing_id() {
    let m = item(Some("Song"), Some("Artist"), Some(""));
    assert_eq!(m.thumbnail_url(), Err(ClientError::MissingId));
}

#[test]
fn thumbnail_url_holds_id() {
    let m = item(None, None, Some("abc123"));
    assert_eq!(
        m.thumbnail_url(),
        Ok("https://api.wireway.ch/wave/thumbnail/abc123".to_string())
    );
}

#[test]
fn search_url_appends_query_unescaped() {
    assert_eq!(search_url("abc"), "https://api.wireway.ch/wave/ytmusicsearch?q=abc");
    assert_eq!(search_url("a b&c"), "https://api.wireway.ch/wave/ytmusicsearch?q=a b&c");
    assert_eq!(search_url(""), "https://api.wireway.ch/wave/ytmusicsearch?q=");
}

#[test]
fn display_of_title_and_uploader() {
    assert_eq!(item(Some("Song"), Some("Artist"), None).display_text(), "Song from Artist");
    assert_eq!(item(None, None, None).display_text(), " from ");
    assert_eq!(item(Some("Song"), None, None).display_text(), "Song from ");
    assert_eq!(item(None, Some("Artist"), None).display_text(), " from Artist");
}

#[test]
fn end_to_end_search_then_thumbnail() {
    let body = r#"{"items":[{"title":"A","uploaderName":"B","uploaderUrl":null,"duration":180,"id":"xyz"}]}"#;
    let r = search_outcome(200, body).unwrap();
    assert_eq!(r.len(), 1);
    let m = &r[0];
    assert_eq!(m.title, Some("A".to_string()));
    assert_eq!(m.uploader_name, Some("B".to_string()));
    assert_eq!(m.uploader_url, None);
    assert_eq!(m.duration, Some(180));
    assert_eq!(m.id, Some("xyz".to_string()));
    assert_eq!(m.display_text(), "A from B");
    assert_eq!(m.thumbnail_url(), Ok("https://api.wireway.ch/wave/thumbnail/xyz".to_string()));
}

fn present(j: &Json, key: &str) -> bool {
    match j {
        Json::Object(m) => matches!(find_member(m, key), Some(v) if *v != Json::Null),
        _ => false,
    }
}

#[test]
fn round_trip_keeps_items_and_presence() {
    let body = r#"{"items":[{"title":"A","uploaderName":null,"duration":7,"id":"q"},{"uploaderUrl":"u"}]}"#;
    let doc = read_document(body).unwrap();
    let items = decode_search(&doc).unwrap();
    let out = encode_search(&items);
    assert_eq!(decode_search(&out), Ok(items));
    let (Json::Object(dm), Json::Object(om)) = (&doc, &out) else { panic!("not objects") };
    let (Some(Json::Array(da)), Some(Json::Array(oa))) = (find_member(dm, "items"), find_member(om, "items")) else {
        panic!("no items")
    };
    assert_eq!(da.len(), oa.len());
    for i in 0..da.len() {
        for key in ["title", "uploaderName", "uploaderUrl", "duration", "id"] {
            assert_eq!(present(&da[i], key), present(&oa[i], key), "{} {}", i, key);
        }
    }
    assert!(present(&oa[0], "title"));
    assert!(!present(&oa[0], "uploaderName"));
    assert!(present(&oa[1], "uploaderUrl"));
    assert!(!present(&oa[1], "id"));
}

#[test]
fn parsed_document_mirrors_values() {
    let doc = read_document(r#"{"a":[null,true,3,-4,2.5,"s"]}"#).unwrap();
    let Json::Object(m) = &doc else { panic!("not an object") };
    assert_eq!(m.len(), 1);
    assert_eq!(m[0].0, "a");
    assert_eq!(
        m[0].1,
        Json::Array(vec![
            Json::Null,
            Json::Bool(true),
            Json::Number(JsonNumber::Unsigned(3)),
            Json::Number(JsonNumber::Negative(-4)),
            Json::Number(JsonNumber::Fractional),
            Json::Str("s".to_string()),
        ])
    );
    assert_eq!(read_document("[1,"), Err(ClientError::Decode));
}

#[test]
fn to_json_writes_all_members() {
    let m = WaveMusic {
        title: Some("T".to_string()),
        uploader_name: None,
        uploader_url: Some("U".to_string()),
        duration: Some(9),
        id: None,
    };
    let Json::Object(members) = m.to_json() else { panic!("not an object") };
    assert_eq!(members.len(), 5);
    assert_eq!(find_member(&members, "title"), Some(&Json::Str("T".to_string())));
    assert_eq!(find_member(&members, "uploaderName"), Some(&Json::Null));
    assert_eq!(find_member(&members, "uploaderUrl"), Some(&Json::Str("U".to_string())));
    assert_eq!(find_member(&members, "duration"), Some(&Json::Number(JsonNumber::Unsigned(9))));
    assert_eq!(find_member(&members, "id"), Some(&Json::Null));
    assert_eq!(WaveMusic::from_json(&m.to_json()), Some(m));
}
