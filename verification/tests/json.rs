use agent_core::json::Json;

fn text(s: &str) -> Json {
    Json::Str(s.to_string())
}

#[test]
fn parse_reads_every_kind_of_value() {
    let doc = Json::parse(r#"{"b": [1, -2, 2.5, true, null, "x"], "a": {"k": "v"}}"#).unwrap();
    assert_eq!(
        doc,
        Json::Object(vec![
            ("a".to_string(), Json::Object(vec![("k".to_string(), text("v"))])),
            (
                "b".to_string(),
                Json::Array(vec![
                    Json::Number("1".to_string()),
                    Json::Number("-2".to_string()),
                    Json::Number("2.5".to_string()),
                    Json::Bool(true),
                    Json::Null,
                    text("x"),
                ])
            ),
        ])
    );
}

#[test]
fn parse_reports_the_parsers_message() {
    assert_eq!(Json::parse("").unwrap_err(), "EOF while parsing a value at line 1 column 0");
    assert_eq!(Json::parse("{\"a\": 1,}").unwrap_err(), "trailing comma at line 1 column 9");
    assert_eq!(Json::parse("1 2").unwrap_err(), "trailing characters at line 1 column 3");
}

#[test]
fn parse_keeps_the_last_of_equal_keys() {
    let doc = Json::parse(r#"{"a": 1, "a": 2}"#).unwrap();
    assert_eq!(doc, Json::Object(vec![("a".to_string(), Json::Number("2".to_string()))]));
}

#[test]
fn to_text_writes_compact_json() {
    let doc = Json::Object(vec![
        ("z".to_string(), Json::Array(vec![Json::Null, Json::Bool(false)])),
        ("a".to_string(), text("line\n\"quoted\"")),
        ("n".to_string(), Json::Number("12".to_string())),
        ("f".to_string(), Json::Number("0.5".to_string())),
    ]);
    assert_eq!(
        doc.to_text(),
        r#"{"a":"line\n\"quoted\"","f":0.5,"n":12,"z":[null,false]}"#
    );
    assert_eq!(Json::Null.to_text(), "null");
    assert_eq!(text("x").to_text(), "\"x\"");
    assert_eq!(Json::Number("seven".to_string()).to_text(), "null");
}

#[test]
fn text_round_trip() {
    let source = r#"{"entity":{"locations":[],"organizations":["ACM"],"people":["Ada"]},"n":[1,2.5,-3]}"#;
    let doc = Json::parse(source).unwrap();
    assert_eq!(doc.to_text(), source);
    assert_eq!(Json::parse(&doc.to_text()).unwrap(), doc);
}

#[test]
fn get_finds_the_last_member_of_that_name() {
    let doc = Json::Object(vec![
        ("a".to_string(), text("first")),
        ("b".to_string(), Json::Null),
        ("a".to_string(), text("second")),
    ]);
    assert_eq!(doc.get("a"), Some(&text("second")));
    assert_eq!(doc.get("b"), Some(&Json::Null));
    assert_eq!(doc.get("c"), None);
    assert_eq!(doc.get(""), None);
    assert_eq!(doc.get_str("a"), Some("second"));
    assert_eq!(doc.to_text(), r#"{"a":"second","b":null}"#);
    assert_eq!(Json::parse(&doc.to_text()).unwrap().get("a"), doc.get("a"));
    assert_eq!(doc.get_str("b"), None);
    assert_eq!(Json::Array(vec![text("a")]).get("a"), None);
    assert_eq!(text("a").get("a"), None);
}

#[test]
fn without_drops_every_member_of_that_name() {
    let doc = Json::Object(vec![
        ("a".to_string(), text("first")),
        ("b".to_string(), Json::Null),
        ("a".to_string(), text("second")),
        ("c".to_string(), Json::Bool(true)),
    ]);
    assert_eq!(
        doc.without("a"),
        Json::Object(vec![("b".to_string(), Json::Null), ("c".to_string(), Json::Bool(true))])
    );
    assert_eq!(doc.without("x"), doc);
    assert_eq!(text("a").without("a"), text("a"));
}

#[test]
fn kinds_and_copies() {
    assert!(Json::Object(vec![]).is_object());
    assert!(!Json::Array(vec![]).is_object());
    assert_eq!(text("x").as_str(), Some("x"));
    assert_eq!(Json::Number("1".to_string()).as_str(), None);
    let doc = Json::parse(r#"{"a": [{"b": [1, "two", null]}]}"#).unwrap();
    assert_eq!(doc.clone(), doc);
}
