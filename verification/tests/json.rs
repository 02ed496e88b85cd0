use rustwester::error::WesterError;
use rustwester::json::{parse_json, JsonValue};

fn number(n: i64) -> JsonValue {
    JsonValue::Number(serde_json::Number::from(n))
}

#[test]
fn compact_text_of_leaves() {
    assert_eq!(JsonValue::Null.to_compact(), "null");
    assert_eq!(JsonValue::Bool(true).to_compact(), "true");
    assert_eq!(JsonValue::Bool(false).to_compact(), "false");
    assert_eq!(number(0).to_compact(), "0");
    assert_eq!(number(-12).to_compact(), "-12");
    assert_eq!(
        JsonValue::Number(serde_json::Number::from(u64::MAX)).to_compact(),
        "18446744073709551615"
    );
    assert_eq!(
        JsonValue::Number(serde_json::Number::from_f64(0.25).unwrap()).to_compact(),
        "0.25"
    );
    assert_eq!(JsonValue::String("a".to_string()).to_compact(), "\"a\"");
    assert_eq!(JsonValue::text("a \"b\"\n").to_compact(), "\"a \\\"b\\\"\\n\"");
    assert_eq!(JsonValue::text(""), JsonValue::String(String::new()));
}

#[test]
fn compact_text_of_containers() {
    assert_eq!(JsonValue::Array(vec![]).to_compact(), "[]");
    assert_eq!(JsonValue::Object(vec![]).to_compact(), "{}");
    let value = JsonValue::Object(vec![
        ("a".to_string(), JsonValue::Array(vec![JsonValue::Bool(true), JsonValue::Null])),
        ("b".to_string(), number(1)),
    ]);
    assert_eq!(value.to_compact(), "{\"a\":[true,null],\"b\":1}");
}

#[test]
fn pretty_text_is_indented_by_two_spaces() {
    let value = JsonValue::Object(vec![
        ("a".to_string(), JsonValue::Array(vec![JsonValue::Bool(true), JsonValue::Null])),
        ("b".to_string(), number(1)),
    ]);
    assert_eq!(
        value.to_pretty(),
        "{\n  \"a\": [\n    true,\n    null\n  ],\n  \"b\": 1\n}"
    );
    assert_eq!(JsonValue::Array(vec![]).to_pretty(), "[]");
    assert_eq!(JsonValue::text("x").to_pretty(), "\"x\"");
    assert_eq!(
        JsonValue::Object(vec![("key".to_string(), JsonValue::text("value"))]).to_pretty(),
        "{\n  \"key\": \"value\"\n}"
    );
}

#[test]
fn parse_reads_every_kind_of_value() {
    assert_eq!(parse_json(b"null"), Ok(JsonValue::Null));
    assert_eq!(parse_json(b" true "), Ok(JsonValue::Bool(true)));
    assert_eq!(parse_json(b"-5"), Ok(number(-5)));
    assert_eq!(parse_json(b"\"a\\u0062c\""), Ok(JsonValue::text("abc")));
    assert_eq!(parse_json(b"[1, [2], []]"), Ok(JsonValue::Array(vec![
        number(1),
        JsonValue::Array(vec![number(2)]),
        JsonValue::Array(vec![]),
    ])));
    assert_eq!(
        parse_json(b"{\"key\":\"value\"}"),
        Ok(JsonValue::Object(vec![("key".to_string(), JsonValue::text("value"))]))
    );
    assert_eq!(
        parse_json(b"1.5"),
        Ok(JsonValue::Number(serde_json::Number::from_f64(1.5).unwrap()))
    );
}

#[test]
fn parse_refuses_what_is_no_json() {
    for text in ["not-json", "", "{", "{\"a\":}", "[1,]", "1 2", "'a'", "{\"a\":1}}", "\u{feff}1"] {
        let outcome = parse_json(text.as_bytes());
        assert!(matches!(outcome, Err(WesterError::SerdeJson(_))), "{text:?} gave {outcome:?}");
        assert!(outcome.unwrap_err().message().len() > "Serde Json Error: ".len());
    }
    assert!(matches!(parse_json(&[0xff, 0xfe]), Err(WesterError::SerdeJson(_))));
    assert!(matches!(parse_json(b"\"\xff\""), Err(WesterError::SerdeJson(_))));
}

#[test]
fn parse_error_says_where_it_failed() {
    assert_eq!(
        parse_json(b"not-json"),
        Err(WesterError::SerdeJson("expected ident at line 1 column 2".to_string()))
    );
    assert_eq!(
        parse_json(b""),
        Err(WesterError::SerdeJson("EOF while parsing a value at line 1 column 0".to_string()))
    );
}

#[test]
fn text_of_a_parsed_value_parses_to_the_same_value() {
    let texts = [
        "null",
        "[]",
        "{}",
        "[1,2,3]",
        "{\"a\":{\"b\":[true,false,null]},\"c\":\"d\"}",
        "\"\\\"quoted\\\"\"",
        "12345678901234567890",
        "-0.5",
    ];
    for text in texts {
        let value = parse_json(text.as_bytes()).unwrap();
        assert_eq!(value.to_compact(), text);
        assert_eq!(parse_json(value.to_compact().as_bytes()).unwrap(), value);
        assert_eq!(parse_json(value.to_pretty().as_bytes()).unwrap(), value);
    }
}

#[test]
fn object_members_are_written_once_and_by_key() {
    let value = JsonValue::Object(vec![
        ("b".to_string(), number(1)),
        ("a".to_string(), number(2)),
    ]);
    assert_eq!(value.to_compact(), "{\"a\":2,\"b\":1}");
    let parsed = parse_json(b"{\"b\":1,\"a\":2}").unwrap();
    assert_eq!(
        parsed,
        JsonValue::Object(vec![("a".to_string(), number(2)), ("b".to_string(), number(1))])
    );
}
