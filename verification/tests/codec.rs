//! Tests of the JSON codec: serialized shapes, parsing, and the round trip.
//! `serde_json` serves as an independent cross-check of the wire format.

use resend_cli::encode::to_text;
use resend_cli::json::Json;
use resend_cli::parse::parse_text;

fn obj(members: Vec<(&str, Json)>) -> Json {
    Json::Obj(members.into_iter().map(|(k, v)| (k.to_string(), v)).collect())
}

fn s(text: &str) -> Json {
    Json::Str(text.to_string())
}

fn sample_value() -> Json {
    obj(vec![
        ("id", s("em_1")),
        ("size", Json::Num(18446744073709551615)),
        ("ratio", Json::NumText("-2.5e3".to_string())),
        ("flags", Json::Arr(vec![Json::Bool(true), Json::Bool(false), Json::Null])),
        ("note", s("line one\nline \"two\" \\ slash \u{1F600} caf\u{e9}")),
        ("nested", obj(vec![("empty_list", Json::Arr(vec![])), ("empty_obj", obj(vec![]))])),
    ])
}

#[test]
fn encoding_is_compact_and_ordered() {
    let j = obj(vec![("b", Json::Num(1)), ("a", s("x"))]);
    assert_eq!(to_text(&j), "{\"b\":1,\"a\":\"x\"}");
}

#[test]
fn encoding_escapes_what_json_requires() {
    let j = s("a\"b\\c\nd\te");
    assert_eq!(to_text(&j), "\"a\\\"b\\\\c\\u000ad\\u0009e\"");
}

#[test]
fn round_trip_preserves_every_field() {
    let j = sample_value();
    let text = to_text(&j);
    let back = parse_text(&text).expect("the serialized text must parse");
    assert_eq!(to_text(&back), text);
}

#[test]
fn parse_accepts_whitespace_and_escapes() {
    let text = " {\r\n  \"k\" : [ 1 , \"\\u0041\\n\" , null , true ] ,\t\"m\" : {} } ";
    let j = parse_text(text).expect("standard JSON must parse");
    assert_eq!(to_text(&j), "{\"k\":[1,\"A\\u000a\",null,true],\"m\":{}}");
}

#[test]
fn parse_rejects_malformed_text() {
    assert!(parse_text("").is_none());
    assert!(parse_text("{").is_none());
    assert!(parse_text("[1,]").is_none());
    assert!(parse_text("{\"a\":}").is_none());
    assert!(parse_text("{\"a\" 1}").is_none());
    assert!(parse_text("tru").is_none());
    assert!(parse_text("\"unterminated").is_none());
    assert!(parse_text("{} trailing").is_none());
    assert!(parse_text("\"\\q\"").is_none());
    assert!(parse_text("\"\\ud800\"").is_none());
    assert!(parse_text("01").is_none());
    assert!(parse_text("1.").is_none());
    assert!(parse_text("1e").is_none());
    assert!(parse_text("1e+").is_none());
    assert!(parse_text("--1").is_none());
    assert!(parse_text(".5").is_none());
    assert!(parse_text("+1").is_none());
}

#[test]
fn fitting_integers_become_values() {
    match parse_text("18446744073709551615") {
        Some(Json::Num(n)) => assert_eq!(n, 18446744073709551615),
        _ => panic!("the largest fitting value must parse as an integer"),
    }
    match parse_text("0") {
        Some(Json::Num(n)) => assert_eq!(n, 0),
        _ => panic!("zero must parse as an integer"),
    }
}

#[test]
fn other_numbers_are_carried_verbatim() {
    for text in ["-1", "1.5", "18446744073709551616", "-0", "6.02e23", "1E-9", "0.0"] {
        match parse_text(text) {
            Some(Json::NumText(lexeme)) => assert_eq!(lexeme, text),
            _ => panic!("a well-formed number must be carried as its text"),
        }
        let back = parse_text(text).map(|j| to_text(&j));
        assert_eq!(back.as_deref(), Some(text));
    }
}

#[test]
fn serde_json_accepts_our_encoding() {
    let text = to_text(&sample_value());
    let parsed: Result<serde_json::Value, _> = serde_json::from_str(&text);
    assert!(parsed.is_ok());
}

#[test]
fn our_parser_accepts_serde_json_encoding() {
    let mut m = serde_json::Map::new();
    m.insert("name".to_string(), serde_json::Value::String("example.com".to_string()));
    m.insert("size".to_string(), serde_json::Value::from(1024u64));
    m.insert("ratio".to_string(), serde_json::Value::from(-1.5f64));
    m.insert(
        "tags".to_string(),
        serde_json::Value::Array(vec![
            serde_json::Value::String("a\"b".to_string()),
            serde_json::Value::Null,
        ]),
    );
    let text = serde_json::to_string(&serde_json::Value::Object(m)).expect("serializes");
    let ours = parse_text(&text).expect("serde_json output must parse");
    assert_eq!(to_text(&ours), text);
}

#[test]
fn lookups_take_the_first_member() {
    let j = obj(vec![("k", Json::Num(1)), ("k", Json::Num(2))]);
    match j.get("k") {
        Some(Json::Num(n)) => assert_eq!(*n, 1),
        _ => panic!("the first member must win"),
    }
    assert!(j.get("missing").is_none());
}
