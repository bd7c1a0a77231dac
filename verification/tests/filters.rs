use ssrender::errors::ErrorClass;
use ssrender::filters::{decode, decode_outcome, json_decode, FilterArgumentError};
use ssrender::tera;
use ssrender::Value;
use std::collections::HashMap;

fn text(s: &str) -> Value {
    Value::String(s.to_owned())
}

fn number(n: u64) -> Value {
    Value::Number(serde_json::Number::from(n))
}

fn object(pairs: Vec<(&str, Value)>) -> Value {
    let mut map = serde_json::Map::new();
    for (key, value) in pairs {
        map.insert(key.to_owned(), value);
    }
    Value::Object(map)
}

#[test]
fn json_decode_reads_an_object() {
    let decoded = json_decode(&text("{\"a\":1}"), &HashMap::new()).unwrap();
    assert_eq!(decoded, object(vec![("a", number(1))]));
}

#[test]
fn json_decode_reads_every_kind_of_value() {
    let args = HashMap::new();
    assert_eq!(json_decode(&text("null"), &args).unwrap(), Value::Null);
    assert_eq!(json_decode(&text("true"), &args).unwrap(), Value::Bool(true));
    assert_eq!(json_decode(&text("42"), &args).unwrap(), number(42));
    assert_eq!(json_decode(&text("\"s\""), &args).unwrap(), text("s"));
    assert_eq!(
        json_decode(&text(" [1, \"x\"] "), &args).unwrap(),
        Value::Array(vec![number(1), text("x")])
    );
}

#[test]
fn json_decode_refuses_a_number() {
    let error = json_decode(&number(42), &HashMap::new()).unwrap_err();
    assert_eq!(error.to_string(), "value must be a json object string");
    assert!(matches!(error.kind, tera::ErrorKind::Msg(_)));
}

#[test]
fn json_decode_refuses_every_value_that_is_no_text() {
    let args = HashMap::new();
    for value in [Value::Null, Value::Bool(false), Value::Array(vec![]), object(vec![])] {
        let error = json_decode(&value, &args).unwrap_err();
        assert_eq!(error.to_string(), "value must be a json object string");
    }
}

#[test]
fn json_decode_refuses_text_that_is_not_json() {
    let args = HashMap::new();
    for broken in ["", "{a:1}", "{\"a\":1", "1 2", "nul"] {
        let error = json_decode(&text(broken), &args).unwrap_err();
        assert!(matches!(error.kind, tera::ErrorKind::Json(_)));
    }
}

#[test]
fn json_decode_ignores_its_arguments() {
    let mut args = HashMap::new();
    args.insert("anything".to_owned(), number(1));
    assert_eq!(json_decode(&text("[]"), &args).unwrap(), Value::Array(vec![]));
}

#[test]
fn json_decode_reports_the_reason_of_the_parser() {
    let reason = serde_json::from_str::<Value>("{\"a\":").unwrap_err().to_string();
    let error = json_decode(&text("{\"a\":"), &HashMap::new()).unwrap_err();
    assert_eq!(error.to_string(), reason);
    assert_eq!(error.to_string(), "EOF while parsing a value at line 1 column 5");
}

#[test]
fn decode_outcome_keeps_the_value() {
    let parsed = serde_json::from_str::<Value>("{\"a\":1}");
    assert_eq!(decode_outcome(parsed).unwrap(), object(vec![("a", number(1))]));
}

#[test]
fn decode_outcome_carries_the_reason() {
    let parsed = serde_json::from_str::<Value>("{");
    let reason = serde_json::from_str::<Value>("{").unwrap_err().to_string();
    match decode_outcome(parsed).unwrap_err() {
        FilterArgumentError::NotJson(cause) => assert_eq!(cause.to_string(), reason),
        FilterArgumentError::NotText => panic!("the input was a text"),
    }
}

#[test]
fn decode_tells_the_two_errors_apart() {
    assert_eq!(decode(&text("[1]")).unwrap(), Value::Array(vec![number(1)]));
    assert!(matches!(decode(&number(1)), Err(FilterArgumentError::NotText)));
    assert!(matches!(decode(&Value::Null), Err(FilterArgumentError::NotText)));
    assert!(matches!(decode(&text("[1")), Err(FilterArgumentError::NotJson(_))));
}

#[test]
fn filter_errors_are_reported_to_the_engine_with_their_text() {
    let error = FilterArgumentError::NotText.into_failure();
    assert_eq!(error.to_string(), "value must be a json object string");
    assert!(matches!(error.kind, tera::ErrorKind::Msg(_)));
    let cause = serde_json::from_str::<Value>("nul").unwrap_err();
    let reason = cause.to_string();
    let error = FilterArgumentError::NotJson(cause).into_failure();
    assert_eq!(error.to_string(), reason);
    assert!(matches!(error.kind, tera::ErrorKind::Json(_)));
}

#[test]
fn filter_errors_are_of_their_class() {
    assert_eq!(FilterArgumentError::NotText.class(), ErrorClass::FilterArgumentError);
    let cause = serde_json::from_str::<Value>("nul").unwrap_err();
    assert_eq!(FilterArgumentError::NotJson(cause).class(), ErrorClass::FilterArgumentError);
    assert_eq!(FilterArgumentError::NotText.class().status(), 400);
}
