use animal_facts::json::{find_entry, parse, Json};

#[test]
fn parse_reads_an_object() {
    let json = parse("{\"a\": true, \"b\": [\"x\", 2, null, -1.5]}").unwrap();
    assert_eq!(json.member("a"), Some(&Json::Bool(true)));
    assert_eq!(
        json.member("b"),
        Some(&Json::Array(vec![
            Json::Text("x".to_string()),
            Json::Number("2".to_string()),
            Json::Null,
            Json::Number("-1.5".to_string()),
        ]))
    );
    assert_eq!(json.member("c"), None);
}

#[test]
fn parse_reads_nested_objects() {
    let json = parse("{\"outer\": {\"inner\": \"text\"}}").unwrap();
    assert_eq!(
        json,
        Json::Object(vec![(
            "outer".to_string(),
            Json::Object(vec![("inner".to_string(), Json::Text("text".to_string()))])
        )])
    );
}

#[test]
fn parse_rejects_what_is_no_json() {
    assert!(parse("just a plain text, not json").is_err());
    assert!(parse("").is_err());
    assert!(parse("{\"a\": 1} trailing").is_err());
    assert!(parse("{\"a\": }").is_err());
}

#[test]
fn parse_gives_the_reason() {
    let reason = parse("just a plain text, not json").unwrap_err();
    assert!(reason.contains("line 1 column 1"), "reason: {}", reason);
}

#[test]
fn member_of_what_is_no_object() {
    assert_eq!(Json::Null.member("a"), None);
    assert_eq!(Json::Array(vec![Json::Text("a".to_string())]).member("a"), None);
    assert_eq!(Json::Text("a".to_string()).member("a"), None);
}

#[test]
fn last_member_of_a_name_counts() {
    let json = Json::Object(vec![
        ("a".to_string(), Json::Bool(false)),
        ("b".to_string(), Json::Null),
        ("a".to_string(), Json::Bool(true)),
    ]);
    assert_eq!(json.member("a"), Some(&Json::Bool(true)));
    assert_eq!(find_entry(&vec![("a".to_string(), 1), ("a".to_string(), 2)], "a"), Some(1));
    assert_eq!(find_entry(&vec![("a".to_string(), 1)], "b"), None);
    assert_eq!(find_entry(&Vec::<(String, u8)>::new(), "b"), None);
}

#[test]
fn texts_of_items_and_members() {
    let texts = vec![Json::Text("a".to_string()), Json::Text("b".to_string())];
    assert_eq!(Json::text_items(&texts), Some(vec!["a".to_string(), "b".to_string()]));
    assert_eq!(Json::text_items(&vec![Json::Text("a".to_string()), Json::Null]), None);
    assert_eq!(Json::text_items(&vec![]), Some(vec![]));
    assert_eq!(Json::array_of_texts(&vec!["a".to_string(), "b".to_string()]), Json::Array(texts));

    let members = vec![("k".to_string(), Json::Text("v".to_string()))];
    assert_eq!(Json::text_members(&members), Some(vec![("k".to_string(), "v".to_string())]));
    assert_eq!(Json::text_members(&vec![("k".to_string(), Json::Bool(true))]), None);
    assert_eq!(
        Json::object_of_texts(&vec![("k".to_string(), "v".to_string())]),
        Json::Object(members)
    );
}
