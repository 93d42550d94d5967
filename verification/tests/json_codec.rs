use watcher_core::json::{json_to_string, parse_json_str, JsonValue};

fn obj(fields: Vec<(&str, JsonValue)>) -> JsonValue {
    JsonValue::Obj(fields.into_iter().map(|(k, v)| (k.to_string(), v)).collect())
}

fn from_serde(v: serde_json::Value) -> JsonValue {
    match v {
        serde_json::Value::Null => JsonValue::Null,
        serde_json::Value::Bool(b) => JsonValue::Bool(b),
        serde_json::Value::Number(n) => match n.as_i64() {
            Some(i) => JsonValue::Int(i),
            None => JsonValue::Num(n.to_string()),
        },
        serde_json::Value::String(s) => JsonValue::Str(s),
        serde_json::Value::Array(xs) => JsonValue::Arr(xs.into_iter().map(from_serde).collect()),
        serde_json::Value::Object(fs) => {
            JsonValue::Obj(fs.into_iter().map(|(k, v)| (k, from_serde(v))).collect())
        }
    }
}

#[test]
fn serializes_scalars_exactly() {
    assert_eq!(json_to_string(&JsonValue::Null), "null");
    assert_eq!(json_to_string(&JsonValue::Bool(true)), "true");
    assert_eq!(json_to_string(&JsonValue::Bool(false)), "false");
    assert_eq!(json_to_string(&JsonValue::Int(0)), "0");
    assert_eq!(json_to_string(&JsonValue::Int(-42)), "-42");
    assert_eq!(
        json_to_string(&JsonValue::Int(i64::MIN)),
        "-9223372036854775808"
    );
    assert_eq!(json_to_string(&JsonValue::Str("hi".to_string())), "\"hi\"");
}

#[test]
fn serializes_structures_exactly() {
    let v = obj(vec![
        ("a", JsonValue::Arr(vec![JsonValue::Int(1), JsonValue::Int(2)])),
        ("b", JsonValue::Str("x".to_string())),
    ]);
    assert_eq!(json_to_string(&v), "{\"a\":[1,2],\"b\":\"x\"}");
    assert_eq!(json_to_string(&JsonValue::Arr(vec![])), "[]");
    assert_eq!(json_to_string(&JsonValue::Obj(vec![])), "{}");
}

#[test]
fn escapes_strings() {
    let v = JsonValue::Str("a\"b\\c\nd\re\tf\u{1}".to_string());
    let text = json_to_string(&v);
    assert_eq!(text, "\"a\\\"b\\\\c\\nd\\re\\tf\\u0001\"");
    // serde_json reads the escaped text back to the same string.
    let round: serde_json::Value = serde_json::from_str(&text).unwrap();
    assert_eq!(round, serde_json::Value::String("a\"b\\c\nd\re\tf\u{1}".to_string()));
}

#[test]
fn parses_numbers() {
    assert_eq!(parse_json_str("0"), Some(JsonValue::Int(0)));
    assert_eq!(parse_json_str(" -17 "), Some(JsonValue::Int(-17)));
    assert_eq!(
        parse_json_str("9223372036854775807"),
        Some(JsonValue::Int(i64::MAX))
    );
    assert_eq!(
        parse_json_str("-9223372036854775808"),
        Some(JsonValue::Int(i64::MIN))
    );
    assert_eq!(
        parse_json_str("9223372036854775808"),
        Some(JsonValue::Num("9223372036854775808".to_string()))
    );
    assert_eq!(
        parse_json_str("1.5"),
        Some(JsonValue::Num("1.5".to_string()))
    );
    assert_eq!(
        parse_json_str("-2e10"),
        Some(JsonValue::Num("-2e10".to_string()))
    );
    assert_eq!(parse_json_str("01"), None);
    assert_eq!(parse_json_str("1."), None);
    assert_eq!(parse_json_str("1e"), None);
    assert_eq!(parse_json_str("-"), None);
}

#[test]
fn parses_structures() {
    let v = parse_json_str(" { \"a\" : [ 1 , null , true ] , \"b\" : { } } ").unwrap();
    let expected = obj(vec![
        (
            "a",
            JsonValue::Arr(vec![JsonValue::Int(1), JsonValue::Null, JsonValue::Bool(true)]),
        ),
        ("b", JsonValue::Obj(vec![])),
    ]);
    assert_eq!(v, expected);
}

#[test]
fn parses_string_escapes() {
    assert_eq!(
        parse_json_str("\"a\\\"b\\\\c\\/d\\n\\r\\t\\b\\f\""),
        Some(JsonValue::Str("a\"b\\c/d\n\r\t\u{8}\u{c}".to_string()))
    );
    assert_eq!(
        parse_json_str("\"\\u0041\""),
        Some(JsonValue::Str("A".to_string()))
    );
    // A surrogate pair combines into one character.
    assert_eq!(
        parse_json_str("\"\\uD83D\\uDE00\""),
        Some(JsonValue::Str("\u{1F600}".to_string()))
    );
    // A lone surrogate is rejected.
    assert_eq!(parse_json_str("\"\\uD83D\""), None);
    // An unescaped control character is rejected.
    assert_eq!(parse_json_str("\"a\u{1}b\""), None);
}

#[test]
fn rejects_malformed_documents() {
    assert_eq!(parse_json_str(""), None);
    assert_eq!(parse_json_str("nul"), None);
    assert_eq!(parse_json_str("[1,]"), None);
    assert_eq!(parse_json_str("{\"a\":}"), None);
    assert_eq!(parse_json_str("{\"a\" 1}"), None);
    assert_eq!(parse_json_str("[1] x"), None);
    assert_eq!(parse_json_str("\"unterminated"), None);
    assert_eq!(parse_json_str("{1: 2}"), None);
}

#[test]
fn text_round_trip_matches_serde() {
    let texts = [
        "{\"setup\":{\"model\":\"models/x\"}}",
        "[{\"k\":[1,2,{\"n\":null}]},false,\"s\"]",
        "{\"nested\":{\"deep\":[[[{\"a\":true}]]]}}",
    ];
    for text in texts {
        let ours = parse_json_str(text).unwrap();
        let serde: serde_json::Value = serde_json::from_str(text).unwrap();
        assert_eq!(ours, from_serde(serde.clone()));
        // Our canonical rendering reads back to the same serde value.
        let rendered = json_to_string(&ours);
        let reread: serde_json::Value = serde_json::from_str(&rendered).unwrap();
        assert_eq!(reread, serde);
        // And our parser agrees with itself on its own output.
        assert_eq!(parse_json_str(&rendered).unwrap(), ours);
    }
}

#[test]
fn clone_preserves_documents() {
    let v = obj(vec![("a", JsonValue::Arr(vec![JsonValue::Num("1e99".to_string())]))]);
    assert_eq!(v.clone(), v);
}
