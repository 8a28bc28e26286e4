//! JSON values carried by tool proposals, calls and results.

use platonic_core::{JsonNumber, JsonValue};

fn text(value: &str) -> JsonValue {
    JsonValue::String(value.to_string())
}

#[test]
fn scalars_compare_by_value() {
    assert_eq!(JsonValue::Null, JsonValue::Null);
    assert_eq!(JsonValue::Bool(true), JsonValue::Bool(true));
    assert_ne!(JsonValue::Bool(true), JsonValue::Bool(false));
    assert_eq!(text("a"), text("a"));
    assert_ne!(text("a"), text("b"));
    assert_ne!(JsonValue::Null, JsonValue::Bool(false));
}

#[test]
fn numbers_compare_by_kind_and_value() {
    let pos = |n| JsonValue::Number(JsonNumber::PosInt(n));
    let neg = |n| JsonValue::Number(JsonNumber::NegInt(n));
    assert_eq!(pos(1), pos(1));
    assert_ne!(pos(1), pos(2));
    assert_eq!(neg(-3), neg(-3));
    assert_ne!(pos(1), neg(-1));
}

#[test]
fn float_zeroes_compare_equal_whatever_their_sign() {
    let float = |v: f64| JsonValue::Number(JsonNumber::Float(v.to_bits()));
    assert_eq!(float(0.0), float(-0.0));
    assert_eq!(float(1.5), float(1.5));
    assert_ne!(float(1.5), float(-1.5));
    assert_ne!(float(1.0), JsonValue::Number(JsonNumber::PosInt(1)));
}

#[test]
fn arrays_compare_item_by_item() {
    let a = JsonValue::Array(vec![text("x"), JsonValue::Null]);
    let b = JsonValue::Array(vec![text("x"), JsonValue::Null]);
    let shorter = JsonValue::Array(vec![text("x")]);
    let swapped = JsonValue::Array(vec![JsonValue::Null, text("x")]);
    assert_eq!(a, b);
    assert_ne!(a, shorter);
    assert_ne!(a, swapped);
}

#[test]
fn objects_compare_entry_by_entry() {
    let object = |entries: Vec<(&str, JsonValue)>| {
        JsonValue::Object(
            entries
                .into_iter()
                .map(|(key, value)| (key.to_string(), value))
                .collect(),
        )
    };
    let a = object(vec![("content", text("x")), ("path", text("README.md"))]);
    let b = object(vec![("content", text("x")), ("path", text("README.md"))]);
    let other_value = object(vec![("content", text("y")), ("path", text("README.md"))]);
    let other_key = object(vec![("body", text("x")), ("path", text("README.md"))]);
    assert_eq!(a, b);
    assert_ne!(a, other_value);
    assert_ne!(a, other_key);
    let nested = object(vec![("items", JsonValue::Array(vec![a.clone()]))]);
    assert_eq!(nested.clone(), nested);
}

#[test]
fn objects_compare_as_maps() {
    let object = |entries: Vec<(&str, JsonValue)>| {
        JsonValue::Object(
            entries
                .into_iter()
                .map(|(key, value)| (key.to_string(), value))
                .collect(),
        )
    };
    let sorted = object(vec![("content", text("x")), ("path", text("p"))]);
    let reordered = object(vec![("path", text("p")), ("content", text("x"))]);
    assert_eq!(sorted, reordered);
    let overridden = object(vec![
        ("content", text("old")),
        ("path", text("p")),
        ("content", text("x")),
    ]);
    assert_eq!(sorted, overridden);
    let missing = object(vec![("content", text("x"))]);
    assert_ne!(sorted, missing);
    assert_ne!(missing, sorted);
    assert_eq!(object(vec![]), object(vec![]));
}

#[test]
fn integers_compare_by_value_across_kinds() {
    assert_eq!(
        JsonValue::Number(JsonNumber::PosInt(5)),
        JsonValue::Number(JsonNumber::NegInt(5))
    );
    assert_ne!(
        JsonValue::Number(JsonNumber::PosInt(5)),
        JsonValue::Number(JsonNumber::NegInt(-5))
    );
}

#[test]
fn clones_keep_the_sign_of_a_float_zero() {
    let negative_zero = JsonNumber::Float((-0.0f64).to_bits());
    match JsonValue::Number(negative_zero).clone() {
        JsonValue::Number(n) => assert_eq!(n, negative_zero),
        other => panic!("unexpected clone {other:?}"),
    }
}
