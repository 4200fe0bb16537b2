use fcm::json::Json;

fn text_of(doc: &Json) -> String {
    String::from_utf8(doc.to_bytes()).unwrap()
}

#[test]
fn object_is_written_as_compact_text_in_member_order() {
    let doc = Json::Object(vec![
        ("token".to_string(), Json::String("abc".to_string())),
        ("count".to_string(), Json::Number("3".to_string())),
    ]);
    assert_eq!(text_of(&doc), "{\"token\":\"abc\",\"count\":3}");
}

#[test]
fn every_kind_of_value_is_written() {
    let doc = Json::Array(vec![
        Json::Null,
        Json::Bool(true),
        Json::Bool(false),
        Json::Number("-12".to_string()),
        Json::Number("2.5".to_string()),
        Json::String("a\"b\\c\n".to_string()),
        Json::Array(vec![]),
        Json::Object(vec![]),
    ]);
    assert_eq!(text_of(&doc), "[null,true,false,-12,2.5,\"a\\\"b\\\\c\\n\",[],{}]");
}

#[test]
fn a_literal_that_is_no_number_is_written_as_null() {
    assert_eq!(text_of(&Json::Number("twelve".to_string())), "null");
    assert_eq!(text_of(&Json::Number("".to_string())), "null");
}

#[test]
fn text_is_read_into_a_document() {
    let doc = Json::parse("{\"b\":[1,true,null,\"x\",2.5,-7],\"a\":{}}").unwrap();
    match doc {
        Json::Object(members) => {
            assert_eq!(members.len(), 2);
            assert_eq!(members[0].0, "b");
            assert_eq!(members[1].0, "a");
            assert!(matches!(&members[1].1, Json::Object(m) if m.is_empty()));
            match &members[0].1 {
                Json::Array(items) => {
                    assert_eq!(items.len(), 6);
                    assert!(matches!(&items[0], Json::Number(n) if n == "1"));
                    assert!(matches!(&items[1], Json::Bool(true)));
                    assert!(matches!(&items[2], Json::Null));
                    assert!(matches!(&items[3], Json::String(s) if s == "x"));
                    assert!(matches!(&items[4], Json::Number(n) if n == "2.5"));
                    assert!(matches!(&items[5], Json::Number(n) if n == "-7"));
                }
                _ => panic!("not an array"),
            }
        }
        _ => panic!("not an object"),
    }
}

#[test]
fn text_that_is_no_document_is_refused() {
    assert!(Json::parse("{").is_err());
    assert!(Json::parse("").is_err());
    assert!(Json::parse("{\"a\":1} x").is_err());
}

#[test]
fn what_is_written_is_read_back() {
    let doc = Json::Object(vec![
        ("k".to_string(), Json::Array(vec![Json::Number("10".to_string()), Json::String("é".to_string())])),
    ]);
    let back = Json::parse(&text_of(&doc)).unwrap();
    assert_eq!(text_of(&back), text_of(&doc));
    assert_eq!(text_of(&back), "{\"k\":[10,\"é\"]}");
}

#[test]
fn copy_is_deep_and_equal() {
    let doc = Json::Object(vec![
        ("a".to_string(), Json::Array(vec![Json::Null, Json::Bool(true)])),
        ("b".to_string(), Json::String("x".to_string())),
    ]);
    let copy = doc.copy();
    assert_eq!(text_of(&copy), text_of(&doc));
}

#[test]
fn get_finds_the_first_member_of_that_name() {
    let doc = Json::Object(vec![
        ("a".to_string(), Json::Number("1".to_string())),
        ("b".to_string(), Json::String("x".to_string())),
        ("a".to_string(), Json::Number("2".to_string())),
    ]);
    assert!(matches!(doc.get("a"), Some(Json::Number(n)) if n == "1"));
    assert_eq!(doc.get("b").and_then(|v| v.as_str()), Some("x"));
    assert!(doc.get("c").is_none());
    assert!(Json::Array(vec![]).get("a").is_none());
    assert!(Json::Null.as_str().is_none());
}
