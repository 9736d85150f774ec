use wlcontrol::json::{Json, object, parse, text_value, to_json_text};

#[test]
fn documents_are_taken_apart() {
    let text = br#" { "a": [true, null, "x\n", 7, -7, 1.5, 18446744073709551615], "b": {}, "a": 2 } "#;
    let document = parse(text).ok().expect("document");
    assert!(matches!(document.get("a"), Some(Json::Unsigned(2))));
    assert!(matches!(document.get("b"), Some(Json::Object(members)) if members.is_empty()));
    assert!(document.get("c").is_none());
    assert!(document.text_field("a").is_none());

    let document = parse(br#"[true, null, "x\n", 7, -7, 1.5, 18446744073709551615]"#)
        .ok()
        .expect("document");
    let items = document.as_items().expect("items");
    assert_eq!(items.len(), 7);
    assert_eq!(items[0].as_flag(), Some(true));
    assert!(matches!(items[1], Json::Null));
    assert_eq!(items[2].as_text().map(String::as_str), Some("x\n"));
    assert!(matches!(items[3], Json::Unsigned(7)));
    assert!(matches!(items[4], Json::OtherNumber));
    assert!(matches!(items[5], Json::OtherNumber));
    assert!(matches!(items[6], Json::Unsigned(u64::MAX)));
    assert!(document.get("a").is_none());
}

#[test]
fn members_are_read_under_either_name() {
    let document = parse(br#"{"b": "text", "on": false, "items": [1]}"#)
        .ok()
        .expect("document");
    assert_eq!(document.text_field_or("a", "b").as_deref(), Some("text"));
    assert_eq!(document.text_field_or("on", "a"), None);
    assert_eq!(document.flag_field_or("off", "on"), Some(false));
    assert_eq!(document.flag_field("b"), None);
    assert_eq!(document.items_field("items").map(Vec::len), Some(1));
    assert!(document.items_field("b").is_none());
}

#[test]
fn malformed_documents_are_refused() {
    for text in ["", "{not json", "[1,]", "{} {}", "\u{fffd}"] {
        assert!(parse(text.as_bytes()).is_err(), "{text:?}");
    }
    assert!(parse(&[0xff]).is_err());
}

#[test]
fn documents_are_written_in_order() {
    let document = object(vec![
        ("z", text_value("a\"b\n\u{1f600}")),
        ("a", Json::Array(vec![Json::Null, Json::Bool(true), Json::Unsigned(3)])),
    ]);
    assert_eq!(
        to_json_text(document).as_deref(),
        Ok("{\"z\":\"a\\\"b\\n\u{1f600}\",\"a\":[null,true,3]}")
    );
}
