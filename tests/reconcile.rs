use twitch_notify::eventsub::{ChannelUpdate, NotificationType, StreamOffline, StreamOnline};
use twitch_notify::helix::Stream;
use twitch_notify::reconcile::{category_key, game_change_message, stream_online_message, Reconciled, Reconciler, State, StreamEvent};

const NOW: i64 = 1_700_000_000;

fn update(title: &str, category: &str) -> ChannelUpdate {
    ChannelUpdate {
        broadcaster_user_id: "1337".to_string(),
        broadcaster_user_login: "cool_user".to_string(),
        broadcaster_user_name: "Cool_User".to_string(),
        title: title.to_string(),
        language: "en".to_string(),
        category_id: "1".to_string(),
        category_name: category.to_string(),
        content_classification_labels: vec![],
    }
}

fn online() -> NotificationType {
    NotificationType::StreamOnline(StreamOnline {
        id: "9001".to_string(),
        broadcaster_user_id: "1337".to_string(),
        broadcaster_user_login: "cool_user".to_string(),
        broadcaster_user_name: "Cool_User".to_string(),
        kind: "live".to_string(),
        started_at: "2020-10-11T10:11:12.123Z".to_string(),
    })
}

fn stream(title: &str, game: &str) -> Stream {
    Stream {
        id: "1".to_string(),
        user_id: "1337".to_string(),
        user_login: "cool_user".to_string(),
        user_name: "Cool_User".to_string(),
        game_id: "2".to_string(),
        game_name: game.to_string(),
        kind: "live".to_string(),
        title: title.to_string(),
        tags: vec![],
        viewer_count: 5,
        started_at: "2020-10-11T10:11:12Z".to_string(),
        language: "en".to_string(),
        thumbnail_url: String::new(),
        is_mature: false,
    }
}

fn state(game: &str, last: Option<i64>) -> Option<State> {
    Some(State { title: "old title".to_string(), game: game.to_string(), last_transition_at: last })
}

#[test]
fn same_update_twice_announces_once() {
    let mut r = Reconciler::new(state("Minecraft", None));
    let first = r.apply(NotificationType::ChannelUpdate(update("t", "Fortnite")), NOW);
    match first {
        Reconciled::Notify(StreamEvent::GameChanged { old, new, title }) => {
            assert_eq!(old, "Minecraft");
            assert_eq!(new, "Fortnite");
            assert_eq!(title, "t");
        }
        _ => panic!("expected a game change"),
    }
    let second = r.apply(NotificationType::ChannelUpdate(update("t", "Fortnite")), NOW + 5);
    assert!(matches!(second, Reconciled::Nothing));
}

#[test]
fn update_without_state_only_records() {
    let mut r = Reconciler::new(None);
    assert!(r.apply_channel_update(update("t", "Fortnite")).is_none());
    let s = r.state.as_ref().unwrap();
    assert_eq!(s.game, "Fortnite");
    assert_eq!(s.title, "t");
    assert_eq!(s.last_transition_at, None);
}

#[test]
fn game_compare_ignores_case_and_spaces() {
    let mut r = Reconciler::new(state("Minecraft", Some(NOW)));
    assert!(r.apply_channel_update(update("new title", "  MINECRAFT ")).is_none());
    let s = r.state.as_ref().unwrap();
    assert_eq!(s.game, "  MINECRAFT ");
    assert_eq!(s.title, "new title");
    assert_eq!(category_key(&"  MineCraft\t".to_string()), "minecraft");
}

#[test]
fn online_within_window_is_suppressed() {
    let mut r = Reconciler::new(state("Minecraft", Some(NOW - 10 * 60)));
    assert!(matches!(r.apply(online(), NOW), Reconciled::Nothing));
    assert_eq!(r.state.as_ref().unwrap().last_transition_at, Some(NOW - 600));
}

#[test]
fn online_after_window_announces_once() {
    let mut r = Reconciler::new(state("Minecraft", Some(NOW - 20 * 60)));
    assert!(matches!(r.apply(online(), NOW), Reconciled::FetchStreamInfo));
    match r.on_stream_info(Some(stream("Live now", "Fortnite")), NOW) {
        Some(StreamEvent::StreamStarted { title, game }) => {
            assert_eq!(title, "Live now");
            assert_eq!(game, "Fortnite");
        }
        _ => panic!("expected a stream start"),
    }
    assert_eq!(r.state.as_ref().unwrap().last_transition_at, Some(NOW));
    assert!(matches!(r.apply(online(), NOW + 60), Reconciled::Nothing));
}

#[test]
fn online_at_window_edge_is_suppressed() {
    let mut r = Reconciler::new(state("Minecraft", Some(NOW - 900)));
    assert!(matches!(r.apply(online(), NOW), Reconciled::Nothing));
    assert!(matches!(r.apply(online(), NOW + 1), Reconciled::FetchStreamInfo));
}

#[test]
fn online_without_state_fetches() {
    let mut r = Reconciler::new(None);
    assert!(matches!(r.apply(online(), NOW), Reconciled::FetchStreamInfo));
    assert!(r.on_stream_info(None, NOW).is_none());
    assert!(r.state.is_none());
}

#[test]
fn offline_is_a_no_op() {
    let mut r = Reconciler::new(state("Minecraft", Some(NOW)));
    let n = NotificationType::StreamOffline(StreamOffline {
        broadcaster_user_id: "1337".to_string(),
        broadcaster_user_login: "cool_user".to_string(),
        broadcaster_user_name: "Cool_User".to_string(),
    });
    assert!(matches!(r.apply(n, NOW), Reconciled::Nothing));
    assert_eq!(r.state.as_ref().unwrap().game, "Minecraft");
}

#[test]
fn announcement_texts() {
    assert_eq!(
        game_change_message(&"Title".to_string(), &"Fortnite".to_string()),
        "HafMC сменил игру на Fortnite (Title)! \nПрисоединяйся: https://twitch.tv/hafmc"
    );
    assert_eq!(
        stream_online_message(&"Title".to_string(), &"Fortnite".to_string()),
        "HafMC сейчас стримит Title (Fortnite)! \nПрисоединяйся: https://twitch.tv/hafmc"
    );
    let e = StreamEvent::GameChanged { old: "a".to_string(), new: "b".to_string(), title: "c".to_string() };
    assert_eq!(e.message(), "HafMC сменил игру на b (c)! \nПрисоединяйся: https://twitch.tv/hafmc");
}

#[test]
fn apply_now_reports_current_time() {
    let mut r = Reconciler::new(state("Minecraft", Some(0)));
    let (outcome, now) = r.apply_now(online());
    assert!(now > 1_600_000_000);
    assert!(matches!(outcome, Reconciled::FetchStreamInfo));
}
