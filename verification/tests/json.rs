use record_randomiser::json::{parse, Json};

#[test]
fn parse_reads_an_object_with_a_string_member() {
    let doc = parse(b"{\"uri\": \"http://example.org/a.jpg\"}").expect("valid JSON");
    assert_eq!(
        doc,
        Json::Object(vec![("uri".to_string(), Json::Text("http://example.org/a.jpg".to_string()))])
    );
    assert_eq!(doc.get("uri").and_then(|v| v.as_str()), Some("http://example.org/a.jpg"));
}

#[test]
fn parse_reads_every_kind_of_value() {
    let doc = parse(b"[null, true, false, 12, -3.5, \"x\", [], {}]").expect("valid JSON");
    assert_eq!(
        doc,
        Json::Array(vec![
            Json::Null,
            Json::Bool(true),
            Json::Bool(false),
            Json::Number("12".to_string()),
            Json::Number("-3.5".to_string()),
            Json::Text("x".to_string()),
            Json::Array(Vec::new()),
            Json::Object(Vec::new()),
        ])
    );
}

#[test]
fn parse_reads_nested_values() {
    let doc = parse(b"{\"a\": {\"b\": [1, {\"c\": \"d\"}]}}").expect("valid JSON");
    let inner = doc.get("a").and_then(|a| a.get("b")).and_then(|b| b.at(1));
    assert_eq!(inner.and_then(|v| v.get("c")).and_then(|c| c.as_str()), Some("d"));
}

#[test]
fn parse_refuses_what_is_no_json() {
    assert!(parse(b"{\"uri\": ").is_none());
    assert!(parse(b"").is_none());
    assert!(parse(b"<html></html>").is_none());
    assert!(parse(b"{} trailing").is_none());
    assert!(parse(b"\xff\xfe").is_none());
}

#[test]
fn the_last_of_two_members_of_one_name_is_kept() {
    let doc = parse(b"{\"a\": 1, \"a\": \"two\"}").expect("valid JSON");
    assert_eq!(doc.get("a").and_then(|v| v.as_str()), Some("two"));
}

#[test]
fn get_finds_members_of_objects_only() {
    let doc = Json::Object(vec![
        ("first".to_string(), Json::Bool(true)),
        ("second".to_string(), Json::Null),
    ]);
    assert_eq!(doc.get("first"), Some(&Json::Bool(true)));
    assert_eq!(doc.get("second"), Some(&Json::Null));
    assert_eq!(doc.get("third"), None);
    assert_eq!(doc.get(""), None);
    assert_eq!(Json::Array(vec![Json::Null]).get("first"), None);
    assert_eq!(Json::Text("first".to_string()).get("first"), None);
    assert_eq!(Json::Null.get("first"), None);
}

#[test]
fn get_takes_the_first_member_of_a_name() {
    let doc = Json::Object(vec![
        ("a".to_string(), Json::Bool(true)),
        ("a".to_string(), Json::Bool(false)),
    ]);
    assert_eq!(doc.get("a"), Some(&Json::Bool(true)));
}

#[test]
fn at_finds_elements_of_arrays_only() {
    let doc = Json::Array(vec![Json::Bool(true), Json::Text("x".to_string())]);
    assert_eq!(doc.at(0), Some(&Json::Bool(true)));
    assert_eq!(doc.at(1), Some(&Json::Text("x".to_string())));
    assert_eq!(doc.at(2), None);
    assert_eq!(doc.at(usize::MAX), None);
    assert_eq!(Json::Array(Vec::new()).at(0), None);
    assert_eq!(Json::Object(Vec::new()).at(0), None);
    assert_eq!(Json::Null.at(0), None);
}

#[test]
fn as_str_is_for_strings_only() {
    assert_eq!(Json::Text("abc".to_string()).as_str(), Some("abc"));
    assert_eq!(Json::Text(String::new()).as_str(), Some(""));
    assert_eq!(Json::Number("1".to_string()).as_str(), None);
    assert_eq!(Json::Null.as_str(), None);
    assert_eq!(Json::Bool(true).as_str(), None);
    assert_eq!(Json::Array(Vec::new()).as_str(), None);
    assert_eq!(Json::Object(Vec::new()).as_str(), None);
}
