use automation_core::settings::{env_optional, env_or, env_var, Settings, SettingsError};

fn vars(pairs: &[(&str, &str)]) -> Vec<(String, String)> {
    pairs.iter().map(|(k, v)| (k.to_string(), v.to_string())).collect()
}

#[test]
fn missing_device_id_is_an_error() {
    let r = Settings::from_vars(&vars(&[("BOT_NAME", "b")]));
    assert_eq!(r.err(), Some(SettingsError::MissingDeviceId));
    assert_eq!(SettingsError::MissingDeviceId.message(), "DEVICE_ID is required");
}

#[test]
fn defaults_apply_when_unset() {
    let s = Settings::from_vars(&vars(&[("DEVICE_ID", "dev1")])).unwrap();
    assert_eq!(s.device_id, "dev1");
    assert_eq!(s.bot_name, "automation-bot");
    assert_eq!(s.redis_url, "redis://localhost:6379/0");
    assert_eq!(s.pubsub_channel_name, None);
    assert_eq!(s.pubsub_channel_prefix, "wa:incoming");
    assert_eq!(s.gowa_base_url, "http://localhost:3000");
    assert_eq!(s.gowa_device_id, None);
    assert_eq!(s.gowa_send_message_path, "/send/message");
    assert_eq!(s.gowa_basic_auth_username, None);
    assert_eq!(s.gowa_basic_auth_password, None);
}

#[test]
fn set_values_are_taken_and_blank_optionals_dropped() {
    let s = Settings::from_vars(&vars(&[
        ("DEVICE_ID", ""),
        ("BOT_NAME", "bot"),
        ("PUBSUB_CHANNEL_NAME", "   "),
        ("GOWA_DEVICE_ID", "gd"),
        ("GOWA_BASIC_AUTH_USERNAME", "u"),
        ("GOWA_BASIC_AUTH_PASSWORD", "p"),
        ("REDIS_URL", ""),
    ]))
    .unwrap();
    assert_eq!(s.device_id, "");
    assert_eq!(s.bot_name, "bot");
    assert_eq!(s.redis_url, "");
    assert_eq!(s.pubsub_channel_name, None);
    assert_eq!(s.gowa_device_id, Some("gd".to_string()));
    assert_eq!(s.gowa_basic_auth_username, Some("u".to_string()));
    assert_eq!(s.gowa_basic_auth_password, Some("p".to_string()));
}

#[test]
fn env_helpers() {
    let v = vars(&[("A", "1"), ("B", " ")]);
    assert_eq!(env_var(&v, "A"), Some("1".to_string()));
    assert_eq!(env_var(&v, "C"), None);
    assert_eq!(env_or(&v, "A", "d"), "1");
    assert_eq!(env_or(&v, "C", "d"), "d");
    assert_eq!(env_optional(&v, "A"), Some("1".to_string()));
    assert_eq!(env_optional(&v, "B"), None);
    assert_eq!(env_optional(&v, "C"), None);
}

fn settings() -> Settings {
    Settings::from_vars(&vars(&[("DEVICE_ID", "dev1"), ("BOT_NAME", "bot")])).unwrap()
}

#[test]
fn channel_uses_name_unless_blank() {
    let mut s = settings();
    assert_eq!(s.resolved_pubsub_channel(), "wa:incoming:dev1");
    s.pubsub_channel_name = Some("custom".to_string());
    assert_eq!(s.resolved_pubsub_channel(), "custom");
    s.pubsub_channel_name = Some(" \t".to_string());
    assert_eq!(s.resolved_pubsub_channel(), "wa:incoming:dev1");
}

#[test]
fn consumer_name_joins_bot_host_and_pid() {
    let s = settings();
    assert_eq!(s.resolved_consumer_name(Some("host1".to_string()), 4321), "bot-host1-4321");
    assert_eq!(s.resolved_consumer_name(None, 0), "bot-localhost-0");
}

#[test]
fn gowa_device_id_falls_back_on_device_id() {
    let mut s = settings();
    assert_eq!(s.resolved_gowa_device_id(), "dev1");
    s.gowa_device_id = Some("other".to_string());
    assert_eq!(s.resolved_gowa_device_id(), "other");
}

#[test]
fn settings_clone_is_equal_field_by_field() {
    let mut s = settings();
    s.gowa_device_id = Some("x".to_string());
    let c = s.clone();
    assert_eq!(c.gowa_device_id, s.gowa_device_id);
    assert_eq!(c.bot_name, s.bot_name);
    assert_eq!(c.device_id, s.device_id);
}
