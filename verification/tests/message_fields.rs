use automation_core::json::{JsonNumber, JsonObject, JsonValue};
use automation_core::message::{is_truthy_value, number_to_string, value_to_string, IncomingMessage};

fn text(s: &str) -> JsonValue {
    JsonValue::String(s.to_string())
}

fn message(raw: JsonObject) -> IncomingMessage {
    IncomingMessage {
        id: None,
        text: String::new(),
        sender: None,
        chat_id: None,
        device_id: "dev".to_string(),
        is_group: false,
        raw,
    }
}

fn object(pairs: Vec<(&str, JsonValue)>) -> JsonObject {
    let mut o = JsonObject::new();
    for (k, v) in pairs {
        o.insert(k.to_string(), v);
    }
    o
}

#[test]
fn value_to_string_reads_strings_numbers_and_booleans() {
    assert_eq!(value_to_string(Some(&text("abc"))), Some("abc".to_string()));
    assert_eq!(value_to_string(Some(&text(""))), None);
    assert_eq!(value_to_string(Some(&JsonValue::Bool(true))), Some("true".to_string()));
    assert_eq!(value_to_string(Some(&JsonValue::Bool(false))), Some("false".to_string()));
    assert_eq!(
        value_to_string(Some(&JsonValue::Number(JsonNumber::PosInt(1234567890123)))),
        Some("1234567890123".to_string())
    );
    assert_eq!(
        value_to_string(Some(&JsonValue::Number(JsonNumber::NegInt(-42)))),
        Some("-42".to_string())
    );
    assert_eq!(
        value_to_string(Some(&JsonValue::Number(JsonNumber::Float("1.5".to_string())))),
        Some("1.5".to_string())
    );
    assert_eq!(value_to_string(Some(&JsonValue::Null)), None);
    assert_eq!(value_to_string(Some(&JsonValue::Array(vec![]))), None);
    assert_eq!(value_to_string(None), None);
}

#[test]
fn number_text_of_extreme_integers() {
    assert_eq!(number_to_string(&JsonNumber::PosInt(0)), "0");
    assert_eq!(number_to_string(&JsonNumber::PosInt(u64::MAX)), "18446744073709551615");
    assert_eq!(number_to_string(&JsonNumber::NegInt(i64::MIN)), "-9223372036854775808");
}

#[test]
fn truthiness_of_each_kind() {
    assert!(is_truthy_value(&JsonValue::Bool(true)));
    assert!(!is_truthy_value(&JsonValue::Bool(false)));
    assert!(is_truthy_value(&text(" x ")));
    assert!(!is_truthy_value(&text(" \t\n\u{3000}")));
    assert!(!is_truthy_value(&text("")));
    assert!(is_truthy_value(&JsonValue::Number(JsonNumber::PosInt(0))));
    assert!(is_truthy_value(&JsonValue::Array(vec![JsonValue::Null])));
    assert!(!is_truthy_value(&JsonValue::Array(vec![])));
    assert!(!is_truthy_value(&JsonValue::Object(JsonObject::new())));
    assert!(is_truthy_value(&JsonValue::Object(object(vec![("a", JsonValue::Null)]))));
    assert!(!is_truthy_value(&JsonValue::Null));
}

#[test]
fn direction_falls_back_on_is_from_me() {
    let m = message(object(vec![("direction", text("sideways"))]));
    assert_eq!(m.direction(), "sideways");
    let m = message(object(vec![("is_from_me", JsonValue::Bool(true))]));
    assert!(m.is_from_me());
    assert_eq!(m.direction(), "outgoing");
    let m = message(object(vec![("is_from_me", text("true"))]));
    assert!(!m.is_from_me());
    assert_eq!(m.direction(), "incoming");
}

#[test]
fn contact_id_prefers_payload_then_chat_then_sender() {
    let mut m = message(object(vec![("contact_id", text("c1"))]));
    m.chat_id = Some("chat".to_string());
    m.sender = Some("sender".to_string());
    assert_eq!(m.contact_id(), Some("c1".to_string()));
    m.raw = JsonObject::new();
    assert_eq!(m.contact_id(), Some("chat".to_string()));
    m.chat_id = None;
    assert_eq!(m.contact_id(), Some("sender".to_string()));
    m.sender = None;
    assert_eq!(m.contact_id(), None);
}

#[test]
fn simple_text_fields() {
    let m = message(object(vec![
        ("replied_to_id", text("r1")),
        ("timestamp", JsonValue::Number(JsonNumber::PosInt(1700000000))),
        ("media_type", text("video")),
        ("media_path", text("/tmp/v.mp4")),
    ]));
    assert_eq!(m.replied_to_id(), Some("r1".to_string()));
    assert_eq!(m.timestamp(), Some("1700000000".to_string()));
    assert_eq!(m.media_type(), Some("video".to_string()));
    assert_eq!(m.media_path(), Some("/tmp/v.mp4".to_string()));
}

#[test]
fn image_uses_media_path_only_for_images() {
    let m = message(object(vec![
        ("media_type", text("image")),
        ("media_path", text("/p.jpg")),
        ("image", text("/other.jpg")),
    ]));
    assert_eq!(m.image(), Some("/p.jpg".to_string()));
    let m = message(object(vec![
        ("media_type", text("video")),
        ("media_path", text("/p.mp4")),
        ("image", text("/other.jpg")),
    ]));
    assert_eq!(m.image(), Some("/other.jpg".to_string()));
    let m = message(object(vec![("media_type", text("image")), ("image", text("/i.jpg"))]));
    assert_eq!(m.image(), Some("/i.jpg".to_string()));
}

#[test]
fn has_media_checks_type_path_and_media_keys() {
    assert!(message(object(vec![("media_type", text("audio"))])).has_media());
    assert!(message(object(vec![("media_path", text("/a"))])).has_media());
    assert!(message(object(vec![("sticker", JsonValue::Bool(true))])).has_media());
    assert!(message(object(vec![("document", text("doc.pdf"))])).has_media());
    assert!(!message(object(vec![("video", JsonValue::Bool(false))])).has_media());
    assert!(!message(object(vec![("image", text("  "))])).has_media());
    assert!(!message(object(vec![("media_type", text(""))])).has_media());
    assert!(!message(JsonObject::new()).has_media());
}

#[test]
fn original_webhook_payload_only_for_objects() {
    let inner = object(vec![("k", text("v"))]);
    let m = message(object(vec![("raw", JsonValue::Object(inner.clone()))]));
    assert_eq!(m.original_webhook_payload(), Some(inner));
    let m = message(object(vec![("raw", text("not an object"))]));
    assert_eq!(m.original_webhook_payload(), None);
    assert_eq!(message(JsonObject::new()).original_webhook_payload(), None);
}

#[test]
fn message_clone_keeps_fields() {
    let mut m = message(object(vec![("k", text("v"))]));
    m.id = Some("id1".to_string());
    let c = m.clone();
    assert_eq!(c.id, m.id);
    assert_eq!(c.raw, m.raw);
    assert_eq!(c.device_id, m.device_id);
}
