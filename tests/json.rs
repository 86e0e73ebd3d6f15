use twitch_notify::eventsub::{MessageMetadata, SessionWelcome};
use twitch_notify::json::{get_member, int_field, optional_text_field, text_field, text_list_field, JsonValue};

fn obj(members: Vec<(&str, JsonValue)>) -> JsonValue {
    JsonValue::Object(members.into_iter().map(|(k, v)| (k.to_string(), v)).collect())
}

#[test]
fn first_member_wins() {
    let v = obj(vec![("a", JsonValue::Int(1)), ("a", JsonValue::Int(2))]);
    assert_eq!(int_field(&v, "a"), Some(1));
    assert!(get_member(&v, "b").is_none());
    assert!(get_member(&JsonValue::Null, "a").is_none());
}

#[test]
fn field_readers_check_types() {
    let v = obj(vec![
        ("s", JsonValue::Str("x".to_string())),
        ("n", JsonValue::Null),
        ("i", JsonValue::Int(-3)),
        ("f", JsonValue::Number("1.5".to_string())),
        ("l", JsonValue::Array(vec![JsonValue::Str("p".to_string()), JsonValue::Str("q".to_string())])),
        ("bad", JsonValue::Array(vec![JsonValue::Int(1)])),
    ]);
    assert_eq!(text_field(&v, "s"), Some("x".to_string()));
    assert_eq!(text_field(&v, "i"), None);
    assert_eq!(optional_text_field(&v, "n"), Ok(None));
    assert_eq!(optional_text_field(&v, "missing"), Ok(None));
    assert_eq!(optional_text_field(&v, "s"), Ok(Some("x".to_string())));
    assert_eq!(optional_text_field(&v, "i"), Err(()));
    assert_eq!(int_field(&v, "i"), Some(-3));
    assert_eq!(int_field(&v, "f"), None);
    assert_eq!(text_list_field(&v, "l"), Some(vec!["p".to_string(), "q".to_string()]));
    assert_eq!(text_list_field(&v, "bad"), None);
}

#[test]
fn metadata_reads_optional_members() {
    let v = obj(vec![
        ("message_id", JsonValue::Str("id".to_string())),
        ("message_timestamp", JsonValue::Str("ts".to_string())),
        ("message_type", JsonValue::Str("session_keepalive".to_string())),
    ]);
    let m = MessageMetadata::from_json(&v).unwrap();
    assert_eq!(m.message_type, "session_keepalive");
    assert!(m.subscription_type.is_none());
    let broken = obj(vec![("message_id", JsonValue::Str("id".to_string()))]);
    assert!(MessageMetadata::from_json(&broken).is_none());
}

#[test]
fn welcome_needs_integer_timeout() {
    let payload = obj(vec![(
        "session",
        obj(vec![
            ("id", JsonValue::Str("abc".to_string())),
            ("status", JsonValue::Str("connected".to_string())),
            ("connected_at", JsonValue::Str("now".to_string())),
            ("keepalive_timeout_seconds", JsonValue::Number("10.5".to_string())),
        ]),
    )]);
    assert!(SessionWelcome::from_json(&payload).is_none());
}
