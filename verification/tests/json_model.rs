use automation_core::json::{JsonNumber, JsonObject, JsonValue};

fn text(s: &str) -> JsonValue {
    JsonValue::String(s.to_string())
}

#[test]
fn insert_then_get_returns_the_value() {
    let mut o = JsonObject::new();
    o.insert("a".to_string(), text("one"));
    o.insert("b".to_string(), JsonValue::Bool(true));
    assert_eq!(o.get("a"), Some(&text("one")));
    assert_eq!(o.get("b"), Some(&JsonValue::Bool(true)));
    assert_eq!(o.get("c"), None);
}

#[test]
fn insert_replaces_an_earlier_binding() {
    let mut o = JsonObject::new();
    o.insert("a".to_string(), text("one"));
    o.insert("a".to_string(), text("two"));
    assert_eq!(o.get("a"), Some(&text("two")));
    assert_eq!(o.entries().len(), 1);
}

#[test]
fn insert_if_absent_keeps_the_first_binding() {
    let mut o = JsonObject::new();
    o.insert_if_absent("a".to_string(), text("one"));
    o.insert_if_absent("a".to_string(), text("two"));
    assert_eq!(o.get("a"), Some(&text("one")));
}

#[test]
fn extend_prefers_the_other_object() {
    let mut a = JsonObject::new();
    a.insert("x".to_string(), text("1"));
    a.insert("y".to_string(), text("2"));
    let mut b = JsonObject::new();
    b.insert("y".to_string(), text("3"));
    b.insert("z".to_string(), text("4"));
    a.extend(&b);
    assert_eq!(a.get("x"), Some(&text("1")));
    assert_eq!(a.get("y"), Some(&text("3")));
    assert_eq!(a.get("z"), Some(&text("4")));
    assert_eq!(a.entries().len(), 3);
}

#[test]
fn empty_object_is_empty() {
    let mut o = JsonObject::new();
    assert!(o.is_empty());
    o.insert("k".to_string(), JsonValue::Null);
    assert!(!o.is_empty());
    assert!(o.contains_key("k"));
    assert!(!o.contains_key("K"));
}

#[test]
fn deep_copy_keeps_nested_values() {
    let mut inner = JsonObject::new();
    inner.insert("n".to_string(), JsonValue::Number(JsonNumber::NegInt(-3)));
    let mut o = JsonObject::new();
    o.insert(
        "list".to_string(),
        JsonValue::Array(vec![JsonValue::Object(inner), JsonValue::Null]),
    );
    let v = JsonValue::Object(o);
    let c = v.clone();
    assert_eq!(c, v);
    assert_eq!(v.deep_copy(), v);
}

#[test]
fn value_accessors() {
    let mut o = JsonObject::new();
    o.insert("s".to_string(), text("hi"));
    let v = JsonValue::Object(o);
    assert!(v.is_object());
    assert_eq!(v.get("s").and_then(|s| s.as_str()), Some("hi"));
    assert_eq!(text("x").get("s"), None);
    assert_eq!(JsonValue::Bool(false).as_bool(), Some(false));
    assert_eq!(text("x").as_bool(), None);
    assert!(text("x").as_object().is_none());
    assert_eq!(JsonValue::from_text("q"), text("q"));
}

#[test]
fn from_i64_stores_sign() {
    assert_eq!(JsonValue::from_i64(5), JsonValue::Number(JsonNumber::PosInt(5)));
    assert_eq!(JsonValue::from_i64(-5), JsonValue::Number(JsonNumber::NegInt(-5)));
    assert_eq!(JsonValue::from_i64(0), JsonValue::Number(JsonNumber::PosInt(0)));
}
