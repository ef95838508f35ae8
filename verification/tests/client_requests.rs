use automation_core::client::{AutomationClient, ClientError, TargetMessage, WorkerState};
use automation_core::gowa_api::ApiError;
use automation_core::json::{JsonNumber, JsonObject, JsonValue};
use automation_core::settings::Settings;

fn text(s: &str) -> JsonValue {
    JsonValue::String(s.to_string())
}

fn client() -> AutomationClient {
    let vars = vec![
        ("DEVICE_ID".to_string(), "dev1".to_string()),
        ("BOT_NAME".to_string(), "bot".to_string()),
    ];
    AutomationClient::with_settings(Settings::from_vars(&vars).unwrap()).unwrap()
}

fn object(pairs: Vec<(&str, JsonValue)>) -> JsonObject {
    let mut o = JsonObject::new();
    for (k, v) in pairs {
        o.insert(k.to_string(), v);
    }
    o
}

#[test]
fn invalid_header_fails_with_settings() {
    let vars = vec![
        ("DEVICE_ID".to_string(), "dev\r1".to_string()),
    ];
    let r = AutomationClient::with_settings(Settings::from_vars(&vars).unwrap());
    assert_eq!(r.err(), Some(ClientError::Api(ApiError::InvalidDeviceIdHeader)));
}

#[test]
fn invalid_redis_url_fails_first() {
    let vars = vec![
        ("DEVICE_ID".to_string(), "dev\r1".to_string()),
        ("REDIS_URL".to_string(), "not a url".to_string()),
    ];
    let r = AutomationClient::with_settings(Settings::from_vars(&vars).unwrap());
    match r {
        Err(ClientError::InvalidRedisUrl(m)) => assert!(m.contains("Redis URL did not parse")),
        _ => panic!("expected a Redis URL error"),
    }
    let vars = vec![
        ("DEVICE_ID".to_string(), "dev1".to_string()),
        ("REDIS_URL".to_string(), "http://localhost".to_string()),
    ];
    let e = AutomationClient::with_settings(Settings::from_vars(&vars).unwrap()).err().unwrap();
    assert!(e.message().contains("Redis URL did not parse"));
    let vars = vec![
        ("DEVICE_ID".to_string(), "dev1".to_string()),
        ("REDIS_URL".to_string(), "redis://user:pw@cache:6380/2".to_string()),
    ];
    assert!(AutomationClient::with_settings(Settings::from_vars(&vars).unwrap()).is_ok());
}

#[test]
fn target_from_str_and_value() {
    let c = client();
    let ev = c.build_message_event(object(vec![("chat_id", text("628"))])).unwrap();
    let req = c.update_message("pong", TargetMessage::from("m7"), &ev.message).unwrap();
    assert_eq!(req.url, "http://localhost:3000/message/m7/update");
    let reply = JsonValue::Object(object(vec![("message_id", text("r8"))]));
    let req = c.update_message("pong", TargetMessage::from(&reply), &ev.message).unwrap();
    assert_eq!(req.url, "http://localhost:3000/message/r8/update");
}

#[test]
fn started_event_names_bot_device_and_channel() {
    let ev = client().started_event();
    assert_eq!(ev.bot_name, "bot");
    assert_eq!(ev.device_id, "dev1");
    assert_eq!(ev.channel_name, "wa:incoming:dev1");
}

#[test]
fn build_message_event_reads_the_payload() {
    let c = client();
    let payload = object(vec![
        ("chat_id", text("1203@g.us")),
        ("from", text("628")),
        ("message_id", text("m1")),
        ("body", text("Hello")),
        ("event", text("message.received")),
        ("device_id", JsonValue::Number(JsonNumber::PosInt(77))),
    ]);
    let ev = c.build_message_event(payload.clone()).unwrap();
    assert_eq!(ev.message.chat_id, Some("1203@g.us".to_string()));
    assert_eq!(ev.message.sender, Some("628".to_string()));
    assert_eq!(ev.message.device_id, "77");
    assert_eq!(ev.device_id, "77");
    assert!(ev.message.is_group);
    assert_eq!(ev.message.id, Some("m1".to_string()));
    assert_eq!(ev.message.text, "Hello");
    assert_eq!(ev.event_id, Some("m1".to_string()));
    assert_eq!(ev.event_name, "message.received");
    assert_eq!(ev.channel_name, "wa:incoming:dev1");
    assert_eq!(ev.raw, payload);
    assert_eq!(ev.message.raw, payload);
}

#[test]
fn build_message_event_defaults() {
    let c = client();
    let ev = c
        .build_message_event(object(vec![
            ("sender", text("s")),
            ("from", text("f")),
            ("id", text("i")),
            ("event_id", text("e")),
            ("text", text("t")),
            ("body", text("b")),
            ("is_group", text(" ")),
        ]))
        .unwrap();
    assert_eq!(ev.message.sender, Some("s".to_string()));
    assert_eq!(ev.message.id, Some("i".to_string()));
    assert_eq!(ev.event_id, Some("e".to_string()));
    assert_eq!(ev.message.text, "t");
    assert_eq!(ev.message.device_id, "dev1");
    assert!(!ev.message.is_group);
    assert_eq!(ev.event_name, "message");

    let ev = c.build_message_event(JsonObject::new()).unwrap();
    assert_eq!(ev.message.text, "");
    assert_eq!(ev.message.chat_id, None);
    assert_eq!(ev.event_id, None);
    let ev = c.build_message_event(object(vec![("is_group", JsonValue::Bool(true))])).unwrap();
    assert!(ev.message.is_group);
}

#[test]
fn send_and_reply_need_a_contact() {
    let c = client();
    let ev = c.build_message_event(JsonObject::new()).unwrap();
    assert_eq!(c.send_message("hi", &ev.message).err(), Some(ClientError::SendWithoutContact));
    assert_eq!(c.reply_message("hi", &ev.message).err(), Some(ClientError::ReplyWithoutContact));
    assert_eq!(
        ClientError::SendWithoutContact.message(),
        "Cannot send message because message contact_id is empty"
    );
    assert_eq!(
        ClientError::ReplyWithoutContact.message(),
        "Cannot reply message because message contact_id is empty"
    );
    assert_eq!(ClientError::Api(ApiError::TextRequired).message(), "text is required");
}

#[test]
fn reply_quotes_the_message() {
    let c = client();
    let ev = c
        .build_message_event(object(vec![("chat_id", text("628@s.whatsapp.net")), ("id", text("m9"))]))
        .unwrap();
    let req = c.reply_message("yes", &ev.message).unwrap();
    assert_eq!(req.url, "http://localhost:3000/send/message");
    assert_eq!(req.payload.get("phone"), Some(&text("628@s.whatsapp.net")));
    assert_eq!(req.payload.get("message"), Some(&text("yes")));
    assert_eq!(req.payload.get("reply_message_id"), Some(&text("m9")));
    let req = c.send_message("pong", &ev.message).unwrap();
    assert_eq!(req.payload.get("reply_message_id"), None);
    assert_eq!(c.send_message(" ", &ev.message).err(), Some(ClientError::Api(ApiError::TextRequired)));
}

#[test]
fn update_takes_the_id_from_a_reply() {
    let c = client();
    let ev = c.build_message_event(object(vec![("chat_id", text("628"))])).unwrap();
    let reply = JsonValue::Object(object(vec![("message_id", text("3EB0"))]));
    let req = c.update_message("pong", TargetMessage::from_response(&reply), &ev.message).unwrap();
    assert_eq!(req.url, "http://localhost:3000/message/3EB0/update");
    let req = c.update_message("pong", TargetMessage::from("abc".to_string()), &ev.message).unwrap();
    assert_eq!(req.url, "http://localhost:3000/message/abc/update");
    let no_id = JsonValue::Object(object(vec![("message_id", JsonValue::Number(JsonNumber::PosInt(1)))]));
    assert_eq!(
        c.update_message("pong", TargetMessage::from(no_id), &ev.message).err(),
        Some(ClientError::UpdateWithoutMessageId)
    );
    assert_eq!(
        c.update_message("pong", TargetMessage::from_id(" "), &ev.message).err(),
        Some(ClientError::Api(ApiError::MessageIdRequired))
    );
    let none = c.build_message_event(JsonObject::new()).unwrap();
    assert_eq!(
        c.update_message("pong", TargetMessage::from_id("x"), &none.message).err(),
        Some(ClientError::UpdateWithoutContact)
    );
}

#[test]
fn stop_is_idempotent() {
    let mut s = WorkerState::new();
    assert!(!s.is_running());
    s.mark_running();
    assert!(s.is_running());
    assert!(s.request_stop());
    assert!(!s.is_running());
    assert!(!s.request_stop());
    assert!(!s.is_running());
}
