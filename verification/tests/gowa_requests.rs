use automation_core::gowa_api::{post_response, read_reply, string_array, ApiError, GoWaApi};
use automation_core::json::{JsonNumber, JsonObject, JsonValue};
use automation_core::settings::Settings;

fn text(s: &str) -> JsonValue {
    JsonValue::String(s.to_string())
}

fn settings(base: &str) -> Settings {
    let vars = vec![
        ("DEVICE_ID".to_string(), "dev1".to_string()),
        ("GOWA_BASE_URL".to_string(), base.to_string()),
    ];
    Settings::from_vars(&vars).unwrap()
}

fn api() -> GoWaApi {
    GoWaApi::new(settings("http://gowa:3000//")).unwrap()
}

#[test]
fn base_url_loses_trailing_slashes() {
    assert_eq!(api().base_url(), "http://gowa:3000");
    assert_eq!(GoWaApi::new(settings("/")).unwrap().base_url(), "");
}

#[test]
fn device_id_must_fit_a_header() {
    let mut s = settings("http://x");
    s.gowa_device_id = Some("bad\nid".to_string());
    assert_eq!(GoWaApi::new(s).err(), Some(ApiError::InvalidDeviceIdHeader));
    let mut s = settings("http://x");
    s.gowa_device_id = Some("tab\tand ünicode".to_string());
    assert!(GoWaApi::new(s).is_ok());
    let mut s = settings("http://x");
    s.gowa_device_id = Some("del\u{7f}".to_string());
    assert!(GoWaApi::new(s).is_err());
}

#[test]
fn send_message_rejects_blank_recipient_and_text() {
    let a = api();
    assert_eq!(a.send_message(" ", "hi", None, None, None, None, None).err(), Some(ApiError::ToRequired));
    assert_eq!(a.send_message("", "", None, None, None, None, None).err(), Some(ApiError::ToRequired));
    assert_eq!(a.send_message("123", "\n", None, None, None, None, None).err(), Some(ApiError::TextRequired));
    assert_eq!(ApiError::ToRequired.message(), "to is required");
    assert_eq!(ApiError::TextRequired.message(), "text is required");
    assert_eq!(ApiError::MessageIdRequired.message(), "message_id is required");
}

#[test]
fn send_message_builds_the_body() {
    let a = api();
    let mut extra = JsonObject::new();
    extra.insert("message".to_string(), text("overridden"));
    extra.insert("x".to_string(), JsonValue::Null);
    let req = a
        .send_message(
            "628",
            "hello",
            Some("m1"),
            Some(true),
            Some(-7),
            Some(vec!["a".to_string(), "b".to_string()]),
            Some(extra),
        )
        .unwrap();
    assert_eq!(req.url, "http://gowa:3000/send/message");
    assert_eq!(req.payload.get("phone"), Some(&text("628")));
    assert_eq!(req.payload.get("message"), Some(&text("overridden")));
    assert_eq!(req.payload.get("reply_message_id"), Some(&text("m1")));
    assert_eq!(req.payload.get("is_forwarded"), Some(&JsonValue::Bool(true)));
    assert_eq!(req.payload.get("duration"), Some(&JsonValue::Number(JsonNumber::NegInt(-7))));
    assert_eq!(
        req.payload.get("mentions"),
        Some(&JsonValue::Array(vec![text("a"), text("b")]))
    );
    assert_eq!(req.payload.get("x"), Some(&JsonValue::Null));
    assert_eq!(req.payload.entries().len(), 7);
    assert_eq!(req.basic_auth, None);
}

#[test]
fn minimal_send_has_phone_and_message_only() {
    let req = api().send_message("628", "hi", None, None, None, None, None).unwrap();
    assert_eq!(req.payload.entries().len(), 2);
    assert_eq!(req.payload.get("phone"), Some(&text("628")));
    assert_eq!(req.payload.get("message"), Some(&text("hi")));
}

#[test]
fn basic_auth_needs_both_parts() {
    let mut s = settings("http://x");
    s.gowa_basic_auth_username = Some("u".to_string());
    let a = GoWaApi::new(s.clone()).unwrap();
    assert_eq!(a.post("/p", JsonObject::new()).basic_auth, None);
    s.gowa_basic_auth_password = Some("p".to_string());
    let a = GoWaApi::new(s).unwrap();
    let req = a.post("/p", JsonObject::new());
    assert_eq!(req.basic_auth, Some(("u".to_string(), "p".to_string())));
    assert_eq!(req.url, "http://x/p");
}

#[test]
fn update_message_encodes_the_id() {
    let a = api();
    let req = a.update_message("3EB0/ab c~é", "628", "new").unwrap();
    assert_eq!(req.url, "http://gowa:3000/message/3EB0%2Fab%20c~%C3%A9/update");
    assert_eq!(req.payload.get("phone"), Some(&text("628")));
    assert_eq!(req.payload.get("message"), Some(&text("new")));
    assert_eq!(req.payload.entries().len(), 2);
}

#[test]
fn update_message_checks_in_order() {
    let a = api();
    assert_eq!(a.update_message(" ", "", "").err(), Some(ApiError::MessageIdRequired));
    assert_eq!(a.update_message("id", " ", "").err(), Some(ApiError::ToRequired));
    assert_eq!(a.update_message("id", "to", "").err(), Some(ApiError::TextRequired));
}

#[test]
fn empty_reply_means_ok() {
    let v = post_response(&[], Err(String::new())).unwrap();
    let o = v.as_object().unwrap();
    assert_eq!(o.get("ok"), Some(&JsonValue::Bool(true)));
    assert_eq!(o.entries().len(), 1);
}

#[test]
fn unparsable_reply_is_an_error() {
    let e = ApiError::InvalidResponseBody("expected value at line 1 column 1".to_string());
    assert_eq!(post_response(b"<html>", Err("expected value at line 1 column 1".to_string())).err(), Some(ApiError::InvalidResponseBody("expected value at line 1 column 1".to_string())));
    assert_eq!(e.message(), "expected value at line 1 column 1");
    assert_eq!(read_reply(b"<html>").err(), Some(e));
}

#[test]
fn non_object_reply_is_wrapped() {
    let v = post_response(b"[1]", Ok(JsonValue::Array(vec![JsonValue::Number(JsonNumber::PosInt(1))])))
        .unwrap();
    let o = v.as_object().unwrap();
    assert_eq!(o.get("ok"), Some(&JsonValue::Bool(true)));
    assert_eq!(o.get("data"), Some(&JsonValue::Array(vec![JsonValue::Number(JsonNumber::PosInt(1))])));
}

#[test]
fn message_id_is_lifted_from_results() {
    let mut results = JsonObject::new();
    results.insert("message_id".to_string(), text("3EB0"));
    let mut body = JsonObject::new();
    body.insert("code".to_string(), text("SUCCESS"));
    body.insert("results".to_string(), JsonValue::Object(results.clone()));
    let v = post_response(b"{..}", Ok(JsonValue::Object(body))).unwrap();
    assert_eq!(v.get("message_id"), Some(&text("3EB0")));
    assert_eq!(v.get("code"), Some(&text("SUCCESS")));

    let mut body = JsonObject::new();
    body.insert("message_id".to_string(), text("kept"));
    body.insert("results".to_string(), JsonValue::Object(results));
    let v = post_response(b"{..}", Ok(JsonValue::Object(body))).unwrap();
    assert_eq!(v.get("message_id"), Some(&text("kept")));

    let mut body = JsonObject::new();
    body.insert("results".to_string(), text("none"));
    let v = post_response(b"{..}", Ok(JsonValue::Object(body))).unwrap();
    assert_eq!(v.get("message_id"), None);
}

#[test]
fn read_reply_parses_the_body() {
    let v = read_reply(br#"{"code":"SUCCESS","results":{"message_id":"3EB0","status":"ok"}}"#).unwrap();
    assert_eq!(v.get("message_id"), Some(&text("3EB0")));
    assert_eq!(v.get("code"), Some(&text("SUCCESS")));
    let v = read_reply(b"[1, -2, 2.5]").unwrap();
    assert_eq!(v.get("ok"), Some(&JsonValue::Bool(true)));
    assert_eq!(
        v.get("data"),
        Some(&JsonValue::Array(vec![
            JsonValue::Number(JsonNumber::PosInt(1)),
            JsonValue::Number(JsonNumber::NegInt(-2)),
            JsonValue::Number(JsonNumber::Float("2.5".to_string())),
        ]))
    );
    let v = read_reply(b"").unwrap();
    assert_eq!(v.get("ok"), Some(&JsonValue::Bool(true)));
}

#[test]
fn string_array_keeps_order() {
    let v = string_array(&vec!["x".to_string(), "y".to_string()]);
    assert_eq!(v, JsonValue::Array(vec![text("x"), text("y")]));
}
