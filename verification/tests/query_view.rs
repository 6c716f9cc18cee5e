use libra_tools::query_view::{display_view, render_view};
use serde_json::Value;

#[test]
fn render_single_text() {
    assert_eq!(render_view(&vec!["42".to_string()]), "[42]");
}

#[test]
fn render_several_texts() {
    let texts = vec!["1".to_string(), "\"a\"".to_string(), "true".to_string()];
    assert_eq!(render_view(&texts), "[1, \"a\", true]");
}

#[test]
fn render_empty_text_items() {
    let texts = vec![String::new(), String::new()];
    assert_eq!(render_view(&texts), "[, ]");
}

#[test]
fn display_single_value() {
    assert_eq!(display_view(vec![Value::from(1000000u64)]), "[1000000]");
}

#[test]
fn display_string_value() {
    assert_eq!(display_view(vec![Value::String("0x1".to_string())]), "[\"0x1\"]");
}

#[test]
fn display_several_values() {
    let values = vec![Value::from(3u64), Value::Null, Value::Bool(false), Value::String("x".to_string())];
    assert_eq!(display_view(values), "[3, null, false, \"x\"]");
}

#[test]
fn display_nested_values() {
    let mut object = serde_json::Map::new();
    object.insert("k".to_string(), Value::String("v".to_string()));
    let values = vec![
        Value::Array(vec![Value::from(1u64), Value::from(2u64)]),
        Value::Object(object),
    ];
    assert_eq!(display_view(values), "[[1,2], {\"k\":\"v\"}]");
}

#[test]
fn display_opens_and_closes_with_brackets() {
    let out = display_view(vec![Value::from(-5i64), Value::from(6u64)]);
    assert!(out.starts_with('['));
    assert!(out.ends_with(']'));
    assert_eq!(out, "[-5, 6]");
}
