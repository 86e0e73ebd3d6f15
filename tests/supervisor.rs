use twitch_notify::supervisor::{backoff_secs, TwitchBot};

#[test]
fn backoff_doubles_up_to_cap() {
    let delays: Vec<u64> = (0..9).map(backoff_secs).collect();
    assert_eq!(delays, vec![1, 2, 4, 8, 16, 32, 60, 60, 60]);
    assert_eq!(backoff_secs(u32::MAX), 60);
}

#[test]
fn healthy_session_resets_backoff() {
    let mut bot = TwitchBot::new();
    assert_eq!(bot.on_session_closed(3), 1);
    assert_eq!(bot.on_session_closed(3), 2);
    assert_eq!(bot.on_session_closed(3), 4);
    assert_eq!(bot.on_session_closed(3600), 1);
    assert_eq!(bot.failures, 1);
}

#[test]
fn persistent_auth_failure_is_reported() {
    let mut bot = TwitchBot::new();
    let a = bot.on_auth_failed();
    assert_eq!(a.delay_secs, 1);
    assert!(!a.persistent);
    assert!(!bot.on_auth_failed().persistent);
    let c = bot.on_auth_failed();
    assert!(c.persistent);
    assert_eq!(c.delay_secs, 4);
    bot.on_auth_ok(100);
    assert_eq!(bot.auth_failures, 0);
}

#[test]
fn validation_runs_on_its_own_interval() {
    let mut bot = TwitchBot::new();
    assert!(bot.validation_due(0));
    bot.on_auth_ok(1000);
    assert!(!bot.validation_due(1000 + 3599));
    assert!(bot.validation_due(1000 + 3600));
}
