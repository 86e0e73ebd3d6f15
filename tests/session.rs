use twitch_notify::eventsub::{decode_frame, DecodedFrame, NotificationType};
use twitch_notify::json::JsonValue;
use twitch_notify::session::{EventSubSession, SessionAction, SessionError, SessionEvent, SessionPhase};

fn s(t: &str) -> JsonValue {
    JsonValue::Str(t.to_string())
}

fn obj(members: Vec<(&str, JsonValue)>) -> JsonValue {
    JsonValue::Object(members.into_iter().map(|(k, v)| (k.to_string(), v)).collect())
}

fn metadata(message_type: &str, subscription_type: Option<&str>) -> JsonValue {
    let mut m = vec![
        ("message_id", s("befa7b53-d79d-478f-86b9-120f112b044e")),
        ("message_timestamp", s("2022-11-16T10:11:12.464757833Z")),
        ("message_type", s(message_type)),
    ];
    if let Some(st) = subscription_type {
        m.push(("subscription_type", s(st)));
        m.push(("subscription_version", s("1")));
    }
    obj(m)
}

fn welcome(id: &str) -> JsonValue {
    obj(vec![
        ("metadata", metadata("session_welcome", None)),
        (
            "payload",
            obj(vec![(
                "session",
                obj(vec![
                    ("id", s(id)),
                    ("status", s("connected")),
                    ("connected_at", s("2022-11-16T10:11:12.464757833Z")),
                    ("keepalive_timeout_seconds", JsonValue::Int(10)),
                    ("reconnect_url", JsonValue::Null),
                ]),
            )]),
        ),
    ])
}

fn channel_update_event(title: &str, category: &str) -> JsonValue {
    obj(vec![
        ("broadcaster_user_id", s("1337")),
        ("broadcaster_user_login", s("cool_user")),
        ("broadcaster_user_name", s("Cool_User")),
        ("title", s(title)),
        ("language", s("en")),
        ("category_id", s("12453")),
        ("category_name", s(category)),
        ("content_classification_labels", JsonValue::Array(vec![s("MatureGame")])),
    ])
}

fn notification(subtype: &str, event: JsonValue) -> JsonValue {
    obj(vec![
        ("metadata", metadata("notification", Some(subtype))),
        ("payload", obj(vec![("subscription", obj(vec![("id", s("f1c2a387"))])), ("event", event)])),
    ])
}

fn topics() -> Vec<(String, String)> {
    vec![
        ("stream.online".to_string(), "1".to_string()),
        ("stream.offline".to_string(), "1".to_string()),
        ("channel.update".to_string(), "2".to_string()),
    ]
}

fn streaming_session() -> EventSubSession {
    let mut session = EventSubSession::new(topics(), "1337".to_string());
    session.step(SessionEvent::Connected);
    session.step(SessionEvent::Text(Some(welcome("AQoQexAWVYKSTIu4ec_2VAxyuhAB"))));
    session.step(SessionEvent::Subscribed(true));
    session.step(SessionEvent::Subscribed(true));
    assert!(matches!(session.step(SessionEvent::Subscribed(true)), SessionAction::Idle));
    assert!(session.phase == SessionPhase::Streaming);
    session
}

#[test]
fn subscriptions_use_welcome_session_id() {
    let mut session = EventSubSession::new(topics(), "1337".to_string());
    assert!(matches!(session.step(SessionEvent::Connected), SessionAction::Idle));
    assert!(session.phase == SessionPhase::AwaitingWelcome);
    let mut requests = Vec::new();
    let mut a = session.step(SessionEvent::Text(Some(welcome("AQoQexAWVYKSTIu4ec_2VAxyuhAB"))));
    while let SessionAction::Subscribe(c) = a {
        requests.push(c);
        a = session.step(SessionEvent::Subscribed(true));
    }
    assert!(matches!(a, SessionAction::Idle));
    assert_eq!(requests.len(), 3);
    let kinds: Vec<&str> = requests.iter().map(|c| c.kind.as_str()).collect();
    assert_eq!(kinds, vec!["stream.online", "stream.offline", "channel.update"]);
    for c in &requests {
        assert_eq!(c.transport.session_id.as_deref(), Some("AQoQexAWVYKSTIu4ec_2VAxyuhAB"));
        assert_eq!(c.transport.method, "websocket");
        assert_eq!(c.condition.broadcaster_user_id.as_deref(), Some("1337"));
        assert_eq!(c.condition.broadcaster_id.as_deref(), Some("1337"));
    }
    assert_eq!(requests[2].version, "2");
    assert!(session.phase == SessionPhase::Streaming);
}

#[test]
fn first_frame_must_be_welcome() {
    let mut session = EventSubSession::new(topics(), "1337".to_string());
    session.step(SessionEvent::Connected);
    let a = session.step(SessionEvent::Text(Some(notification("channel.update", channel_update_event("t", "g")))));
    assert!(matches!(a, SessionAction::Fail(SessionError::Protocol)));
    assert!(session.phase == SessionPhase::Closed);
    assert!(session.error == Some(SessionError::Protocol));
}

#[test]
fn welcome_without_session_id_fails() {
    let mut session = EventSubSession::new(topics(), "1337".to_string());
    session.step(SessionEvent::Connected);
    let frame = obj(vec![
        ("metadata", metadata("session_welcome", None)),
        ("payload", obj(vec![("session", obj(vec![("status", s("connected"))]))])),
    ]);
    assert!(matches!(session.step(SessionEvent::Text(Some(frame))), SessionAction::Fail(SessionError::Protocol)));
}

#[test]
fn subscription_refusal_closes_session() {
    let mut session = EventSubSession::new(topics(), "1337".to_string());
    session.step(SessionEvent::Connected);
    session.step(SessionEvent::Text(Some(welcome("abc"))));
    let a = session.step(SessionEvent::Subscribed(false));
    assert!(matches!(a, SessionAction::Fail(SessionError::Subscription)));
    assert!(session.phase == SessionPhase::Closed);
}

#[test]
fn empty_topic_list_streams_at_once() {
    let mut session = EventSubSession::new(Vec::new(), "1337".to_string());
    session.step(SessionEvent::Connected);
    assert!(matches!(session.step(SessionEvent::Text(Some(welcome("abc")))), SessionAction::Idle));
    assert!(session.phase == SessionPhase::Streaming);
}

#[test]
fn connect_failure_closes_session() {
    let mut session = EventSubSession::new(topics(), "1337".to_string());
    assert!(matches!(session.step(SessionEvent::ConnectFailed), SessionAction::Fail(SessionError::Transport)));
    assert!(session.phase == SessionPhase::Closed);
}

#[test]
fn each_ping_gets_one_pong() {
    let mut session = streaming_session();
    let mut pongs = 0;
    for _ in 0..5 {
        match session.step(SessionEvent::Ping) {
            SessionAction::SendPong => pongs += 1,
            SessionAction::Deliver(_) => panic!("a ping surfaced as a notification"),
            _ => {}
        }
    }
    assert_eq!(pongs, 5);
    assert!(session.phase == SessionPhase::Streaming);
}

#[test]
fn notification_is_delivered() {
    let mut session = streaming_session();
    let a = session.step(SessionEvent::Text(Some(notification("channel.update", channel_update_event("Best Stream Ever", "Fortnite")))));
    match a {
        SessionAction::Deliver(NotificationType::ChannelUpdate(c)) => {
            assert_eq!(c.title, "Best Stream Ever");
            assert_eq!(c.category_name, "Fortnite");
            assert_eq!(c.broadcaster_user_login, "cool_user");
            assert_eq!(c.content_classification_labels, vec!["MatureGame".to_string()]);
        }
        _ => panic!("expected a channel update"),
    }
}

#[test]
fn stream_online_is_delivered() {
    let mut session = streaming_session();
    let event = obj(vec![
        ("id", s("9001")),
        ("broadcaster_user_id", s("1337")),
        ("broadcaster_user_login", s("cool_user")),
        ("broadcaster_user_name", s("Cool_User")),
        ("type", s("live")),
        ("started_at", s("2020-10-11T10:11:12.123Z")),
    ]);
    match session.step(SessionEvent::Text(Some(notification("stream.online", event)))) {
        SessionAction::Deliver(NotificationType::StreamOnline(o)) => {
            assert_eq!(o.kind, "live");
            assert_eq!(o.started_at, "2020-10-11T10:11:12.123Z");
        }
        _ => panic!("expected a stream.online"),
    }
}

#[test]
fn keepalive_and_unknown_types_are_swallowed() {
    let mut session = streaming_session();
    let keepalive = obj(vec![("metadata", metadata("session_keepalive", None)), ("payload", obj(vec![]))]);
    assert!(matches!(session.step(SessionEvent::Text(Some(keepalive))), SessionAction::Idle));
    let other = notification("channel.follow", obj(vec![]));
    assert!(matches!(session.step(SessionEvent::Text(Some(other))), SessionAction::Idle));
    assert!(session.phase == SessionPhase::Streaming);
}

#[test]
fn malformed_frame_ends_stream() {
    let mut session = streaming_session();
    assert!(matches!(session.step(SessionEvent::Text(None)), SessionAction::Fail(SessionError::Protocol)));
    assert!(session.phase == SessionPhase::Closed);
    let later = session.step(SessionEvent::Text(Some(notification("channel.update", channel_update_event("t", "g")))));
    assert!(matches!(later, SessionAction::Idle));
    assert!(matches!(session.step(SessionEvent::Ping), SessionAction::Idle));
}

#[test]
fn missing_required_field_ends_stream() {
    let mut session = streaming_session();
    let event = obj(vec![("title", s("no category"))]);
    let a = session.step(SessionEvent::Text(Some(notification("channel.update", event))));
    assert!(matches!(a, SessionAction::Fail(SessionError::Protocol)));
    assert!(session.phase == SessionPhase::Closed);
}

#[test]
fn notification_without_subscription_type_is_malformed() {
    let frame = obj(vec![
        ("metadata", metadata("notification", None)),
        ("payload", obj(vec![("subscription", obj(vec![])), ("event", channel_update_event("t", "g"))])),
    ]);
    assert!(matches!(decode_frame(&frame), DecodedFrame::Malformed));
}

#[test]
fn keepalive_timer_pings_only_when_idle() {
    let mut session = streaming_session();
    session.step(SessionEvent::OtherFrame);
    assert!(matches!(session.step(SessionEvent::KeepaliveTick), SessionAction::Idle));
    assert!(matches!(session.step(SessionEvent::KeepaliveTick), SessionAction::SendPing));
}

#[test]
fn socket_end_closes_session() {
    let mut session = streaming_session();
    assert!(matches!(session.step(SessionEvent::Ended), SessionAction::Fail(SessionError::Transport)));
    assert!(session.phase == SessionPhase::Closed);
}

#[test]
fn redemption_is_delivered() {
    let event = obj(vec![
        ("id", s("17fa2df1")),
        ("user_login", s("cool_user")),
        ("user_input", s("pogchamp")),
        ("reward", obj(vec![("id", s("92af127c"))])),
    ]);
    match decode_frame(&notification("channel.channel_points_custom_reward_redemption.add", event)) {
        DecodedFrame::Notification(NotificationType::CustomRewardRedemptionAdd(r)) => {
            assert_eq!(r.user_input, "pogchamp");
            assert_eq!(r.reward.id, "92af127c");
        }
        _ => panic!("expected a redemption"),
    }
}
