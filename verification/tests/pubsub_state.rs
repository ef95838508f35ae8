use automation_core::json::{JsonNumber, JsonObject, JsonValue};
use automation_core::pubsub::{normalize_payload, payload_of_message, SubscribeStep, SubscriberState};

#[test]
fn object_payload_passes_through() {
    let mut o = JsonObject::new();
    o.insert("event".to_string(), JsonValue::String("message".to_string()));
    let p = normalize_payload("{...}".to_string(), Some(JsonValue::Object(o.clone())));
    assert_eq!(p, o);
}

#[test]
fn other_json_is_wrapped_as_raw() {
    let p = normalize_payload("42".to_string(), Some(JsonValue::Number(JsonNumber::PosInt(42))));
    assert_eq!(p.get("event"), Some(&JsonValue::String("raw".to_string())));
    assert_eq!(p.get("raw_payload"), Some(&JsonValue::Number(JsonNumber::PosInt(42))));
    assert_eq!(p.entries().len(), 2);
}

#[test]
fn non_json_text_is_wrapped_as_raw() {
    let p = normalize_payload("hello there".to_string(), None);
    assert_eq!(p.get("event"), Some(&JsonValue::String("raw".to_string())));
    assert_eq!(p.get("raw_payload"), Some(&JsonValue::String("hello there".to_string())));
}

#[test]
fn backoff_factor_doubles_up_to_sixty_four() {
    let mut s = SubscriberState::new();
    let mut seen = Vec::new();
    for i in 0..9u64 {
        seen.push(s.backoff_multiplier());
        s.schedule_reconnect(i, 1);
    }
    assert_eq!(seen, vec![1, 2, 4, 8, 16, 32, 64, 64, 64]);
    assert_eq!(s.reconnect_attempts(), 9);
}

#[test]
fn scheduled_reconnect_waits_then_connects() {
    let mut s = SubscriberState::new();
    assert_eq!(s.next_step(0), SubscribeStep::Connect);
    s.on_subscribed();
    assert!(s.is_connected());
    assert_eq!(s.next_step(5), SubscribeStep::Connected);
    s.schedule_reconnect(100, 50);
    assert!(!s.is_connected());
    assert_eq!(s.reconnect_attempts(), 1);
    assert_eq!(s.next_step(100), SubscribeStep::Wait(50));
    assert_eq!(s.next_step(140), SubscribeStep::Wait(10));
    assert_eq!(s.backoff_left(149), Some(1));
    assert_eq!(s.next_step(150), SubscribeStep::Connect);
    assert_eq!(s.backoff_left(1000), None);
    s.on_subscribed();
    assert_eq!(s.reconnect_attempts(), 0);
    assert_eq!(s.backoff_left(0), None);
}

#[test]
fn close_resets_the_backoff() {
    let mut s = SubscriberState::new();
    s.schedule_reconnect(0, 10);
    s.schedule_reconnect(0, 10);
    assert_eq!(s.reconnect_attempts(), 2);
    s.close();
    assert!(!s.is_connected());
    assert_eq!(s.reconnect_attempts(), 0);
    assert_eq!(s.next_step(0), SubscribeStep::Connect);
    s.schedule_reconnect(0, 10);
    s.reset_reconnect_state();
    assert_eq!(s.reconnect_attempts(), 0);
    assert_eq!(s.backoff_left(0), None);
}

#[test]
fn message_text_is_read_as_json() {
    let p = payload_of_message(r#"{"chat_id":"628","n":7}"#.to_string());
    assert_eq!(p.get("chat_id"), Some(&JsonValue::String("628".to_string())));
    assert_eq!(p.get("n"), Some(&JsonValue::Number(JsonNumber::PosInt(7))));
    assert_eq!(p.entries().len(), 2);
    let p = payload_of_message("\"hi\"".to_string());
    assert_eq!(p.get("event"), Some(&JsonValue::String("raw".to_string())));
    assert_eq!(p.get("raw_payload"), Some(&JsonValue::String("hi".to_string())));
    let p = payload_of_message("not json".to_string());
    assert_eq!(p.get("raw_payload"), Some(&JsonValue::String("not json".to_string())));
    let p = payload_of_message(r#"{"a":1,"a":2}"#.to_string());
    assert_eq!(p.get("a"), Some(&JsonValue::Number(JsonNumber::PosInt(2))));
}
