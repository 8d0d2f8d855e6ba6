use onise::json::{serialize_json, u64_to_string, JsonValue};
use onise::parse::parse_json;

fn obj(fields: Vec<(&str, JsonValue)>) -> JsonValue {
    JsonValue::Obj(fields.into_iter().map(|(k, v)| (k.to_string(), v)).collect())
}

fn s(x: &str) -> JsonValue {
    JsonValue::Str(x.to_string())
}

#[test]
fn u64_to_string_exact() {
    assert_eq!(u64_to_string(0), "0");
    assert_eq!(u64_to_string(42), "42");
    assert_eq!(u64_to_string(u64::MAX), "18446744073709551615");
}

#[test]
fn serialize_exact_text() {
    let doc = obj(vec![
        ("event", s("ping")),
        ("req_id", JsonValue::Int(42)),
        ("flags", JsonValue::Arr(vec![JsonValue::Bool(true), JsonValue::Null])),
    ]);
    assert_eq!(
        serialize_json(&doc),
        r#"{"event":"ping","req_id":42,"flags":[true,null]}"#
    );
}

#[test]
fn serialize_escapes_specials() {
    let doc = s("a\"b\\c\nd\te");
    assert_eq!(serialize_json(&doc), "\"a\\\"b\\\\c\\nd\\te\"");
    assert_eq!(serialize_json(&JsonValue::Int(-7)), "-7");
}

#[test]
fn parse_exact_values() {
    let v = parse_json(r#" {"a": 1, "b": [ "x" , null ], "c": {"d": false} } "#).unwrap();
    match &v {
        JsonValue::Obj(fields) => {
            assert_eq!(fields.len(), 3);
            assert_eq!(fields[0].0, "a");
            assert!(matches!(fields[0].1, JsonValue::Int(1)));
            match &fields[1].1 {
                JsonValue::Arr(items) => {
                    assert_eq!(items.len(), 2);
                    assert!(matches!(&items[0], JsonValue::Str(t) if t == "x"));
                    assert!(matches!(items[1], JsonValue::Null));
                }
                _ => panic!("expected an array"),
            }
            match &fields[2].1 {
                JsonValue::Obj(inner) => {
                    assert_eq!(inner[0].0, "d");
                    assert!(matches!(inner[0].1, JsonValue::Bool(false)));
                }
                _ => panic!("expected an object"),
            }
        }
        _ => panic!("expected an object"),
    }
}

#[test]
fn parse_string_escapes() {
    let v = parse_json(r#""a\"b\\c\ndA""#).unwrap();
    assert!(matches!(&v, JsonValue::Str(t) if t == "a\"b\\c\ndA"));
}

#[test]
fn parse_numbers() {
    assert!(matches!(parse_json("0"), Some(JsonValue::Int(0))));
    assert!(matches!(parse_json("-12"), Some(JsonValue::Int(-12))));
    assert!(matches!(
        parse_json("9223372036854775807"),
        Some(JsonValue::Int(i64::MAX))
    ));
    assert!(matches!(
        parse_json("-9223372036854775808"),
        Some(JsonValue::Int(i64::MIN))
    ));
    // out of range, fractional and exponent forms are rejected
    assert!(parse_json("9223372036854775808").is_none());
    assert!(parse_json("1.5").is_none());
    assert!(parse_json("1e3").is_none());
    assert!(parse_json("01").is_none());
}

#[test]
fn parse_rejects_malformed_documents() {
    assert!(parse_json("").is_none());
    assert!(parse_json("{").is_none());
    assert!(parse_json("[1,]").is_none());
    assert!(parse_json("{\"a\":1,}").is_none());
    assert!(parse_json("\"unterminated").is_none());
    assert!(parse_json("true false").is_none());
    assert!(parse_json("nully").is_none());
}

#[test]
fn round_trip_parse_of_serialized_document() {
    let doc = obj(vec![
        ("name", s("book")),
        ("depth", JsonValue::Int(10)),
        ("rows", JsonValue::Arr(vec![obj(vec![("p", s("1.5")), ("q", s("2"))])])),
        ("note", s("line\nbreak \"quoted\"")),
    ]);
    let text = serialize_json(&doc);
    let back = parse_json(&text).expect("serialized text must parse");
    assert_eq!(serialize_json(&back), text);
}

#[test]
fn round_trip_serialize_of_parsed_compact_text() {
    let text = r#"{"error":[],"result":{"unixtime":1672531199}}"#;
    let doc = parse_json(text).unwrap();
    assert_eq!(serialize_json(&doc), text);
}

#[test]
fn duplicate_keys_are_preserved_in_wire_order() {
    let text = r#"{"a":1,"a":2}"#;
    let doc = parse_json(text).unwrap();
    match &doc {
        JsonValue::Obj(fields) => {
            assert_eq!(fields.len(), 2);
            assert!(matches!(fields[0].1, JsonValue::Int(1)));
            assert!(matches!(fields[1].1, JsonValue::Int(2)));
        }
        _ => panic!("expected an object"),
    }
    assert_eq!(serialize_json(&doc), text);
}
