use voice_sessions::registry::{ConnectOutcome, JoinError, SessionRegistry};
use voice_sessions::session::PlaybackState;
use voice_sessions::track::ResolvedMetadata;
use voice_sessions::watchdog::{WatchdogState, IDLE_TIMEOUT_SECS};

const PLACEHOLDER_URL: &str = "https://en.wikipedia.org/wiki/HTTP_404";

#[test]
fn join_enqueue_skip_flow() {
    let mut reg = SessionRegistry::new();
    assert_eq!(reg.get_or_create(1, ConnectOutcome::Connected(7), 100), Ok(true));

    let (pos_a, _key_a) = reg.enqueue(1, "songA".to_string(), 101).unwrap();
    assert_eq!(pos_a, 0);
    let (pos_b, _key_b) = reg.enqueue(1, "songB".to_string(), 102).unwrap();
    assert_eq!(pos_b, 1);

    assert_eq!(reg.skip(1, 103), Some(Ok(())));

    let entries = reg.snapshot(1).unwrap();
    assert_eq!(entries.len(), 1);
    assert_eq!(entries[0].title, "songB");
    assert_eq!(reg.get(1).unwrap().state(), PlaybackState::Playing);
}

#[test]
fn join_without_voice_channel_creates_nothing() {
    let mut reg = SessionRegistry::new();
    assert_eq!(
        reg.get_or_create(1, ConnectOutcome::NoVoiceChannel, 5),
        Err(JoinError::NoVoiceChannel)
    );
    assert!(reg.get(1).is_none());
}

#[test]
fn join_transport_failure_creates_nothing() {
    let mut reg = SessionRegistry::new();
    assert_eq!(
        reg.get_or_create(2, ConnectOutcome::TransportFailure, 5),
        Err(JoinError::TransportFailure)
    );
    assert!(reg.get(2).is_none());
}

#[test]
fn join_existing_guild_returns_existing_session() {
    let mut reg = SessionRegistry::new();
    assert_eq!(reg.get_or_create(1, ConnectOutcome::Connected(7), 5), Ok(true));
    assert_eq!(reg.get_or_create(1, ConnectOutcome::Connected(9), 6), Ok(false));
    assert_eq!(reg.get(1).unwrap().connection(), 7);
}

#[test]
fn resolver_failure_falls_back_to_fixed_display() {
    let mut reg = SessionRegistry::new();
    reg.get_or_create(1, ConnectOutcome::Connected(7), 0).unwrap();
    let (_, key) = reg.enqueue(1, "mysong".to_string(), 1).unwrap();

    assert!(reg.apply_resolution(1, key, None));

    let entries = reg.snapshot(1).unwrap();
    assert_eq!(entries[0].title, "Title");
    assert_eq!(entries[0].url, PLACEHOLDER_URL);
}

#[test]
fn resolution_success_fills_display() {
    let mut reg = SessionRegistry::new();
    reg.get_or_create(1, ConnectOutcome::Connected(7), 0).unwrap();
    let (_, key) = reg.enqueue(1, "mysong".to_string(), 1).unwrap();

    let md = ResolvedMetadata {
        title: Some("Cool Song".to_string()),
        source_url: Some("https://example.test/cool".to_string()),
        duration_secs: Some(125),
        thumbnail: None,
    };
    assert!(reg.apply_resolution(1, key, Some(md)));

    let entries = reg.snapshot(1).unwrap();
    assert_eq!(entries[0].title, "Cool Song");
    assert_eq!(entries[0].url, "https://example.test/cool");
}

#[test]
fn resolution_with_missing_fields_falls_back() {
    let mut reg = SessionRegistry::new();
    reg.get_or_create(1, ConnectOutcome::Connected(7), 0).unwrap();
    let (_, key) = reg.enqueue(1, "mysong".to_string(), 1).unwrap();

    let md = ResolvedMetadata { title: None, source_url: None, duration_secs: None, thumbnail: None };
    assert!(reg.apply_resolution(1, key, Some(md)));

    let entries = reg.snapshot(1).unwrap();
    assert_eq!(entries[0].title, "Title");
    assert_eq!(entries[0].url, PLACEHOLDER_URL);
}

#[test]
fn resolution_is_applied_only_once() {
    let mut reg = SessionRegistry::new();
    reg.get_or_create(1, ConnectOutcome::Connected(7), 0).unwrap();
    let (_, key) = reg.enqueue(1, "mysong".to_string(), 1).unwrap();

    let first = ResolvedMetadata {
        title: Some("First".to_string()),
        source_url: None,
        duration_secs: None,
        thumbnail: None,
    };
    let second = ResolvedMetadata {
        title: Some("Second".to_string()),
        source_url: None,
        duration_secs: None,
        thumbnail: None,
    };
    assert!(reg.apply_resolution(1, key, Some(first)));
    assert!(reg.apply_resolution(1, key, Some(second)));

    let entries = reg.snapshot(1).unwrap();
    assert_eq!(entries[0].title, "First");
}

#[test]
fn resolution_for_departed_entry_is_discarded() {
    let mut reg = SessionRegistry::new();
    reg.get_or_create(1, ConnectOutcome::Connected(7), 0).unwrap();
    let (_, key) = reg.enqueue(1, "mysong".to_string(), 1).unwrap();
    reg.skip(1, 2).unwrap().unwrap();

    assert!(!reg.apply_resolution(1, key, None));
}

#[test]
fn watchdog_removes_idle_session_on_next_tick() {
    let mut reg = SessionRegistry::new();
    reg.get_or_create(1, ConnectOutcome::Connected(7), 0).unwrap();

    let removed = reg.watchdog_tick(1).expect("empty queue, so the tick removes");
    assert_eq!(removed.guild_id(), 1);
    assert_eq!(removed.watchdog_state(), WatchdogState::Unarmed);
    assert!(reg.get(1).is_none());
}

#[test]
fn watchdog_never_removes_session_with_queued_tracks() {
    let mut reg = SessionRegistry::new();
    reg.get_or_create(1, ConnectOutcome::Connected(7), 0).unwrap();
    reg.enqueue(1, "songA".to_string(), 1).unwrap();

    for _ in 0..5 {
        assert!(reg.watchdog_tick(1).is_none());
        assert!(reg.get(1).is_some());
    }
}

#[test]
fn watchdog_interval_is_the_design_default() {
    assert_eq!(IDLE_TIMEOUT_SECS, 420);
}

#[test]
fn remove_is_idempotent() {
    let mut reg = SessionRegistry::new();
    reg.get_or_create(1, ConnectOutcome::Connected(7), 0).unwrap();
    assert!(reg.remove(1).is_some());
    assert!(reg.remove(1).is_none());
    assert!(reg.remove(99).is_none());
}

#[test]
fn removed_session_can_be_rearmed() {
    let mut reg = SessionRegistry::new();
    reg.get_or_create(1, ConnectOutcome::Connected(7), 0).unwrap();
    assert_eq!(reg.arm_watchdog(1), Some(false));

    let mut removed = reg.remove(1).unwrap();
    assert_eq!(removed.watchdog_state(), WatchdogState::Unarmed);
    assert!(removed.arm_watchdog());
    assert_eq!(removed.watchdog_state(), WatchdogState::Armed);
}

#[test]
fn guild_sessions_are_independent() {
    let mut reg = SessionRegistry::new();
    reg.get_or_create(1, ConnectOutcome::Connected(7), 0).unwrap();
    reg.get_or_create(2, ConnectOutcome::Connected(8), 0).unwrap();
    reg.enqueue(1, "a".to_string(), 1).unwrap();
    reg.enqueue(2, "b".to_string(), 1).unwrap();

    assert!(reg.stop(1, 2));

    assert_eq!(reg.get(1).unwrap().queue_len(), 0);
    assert_eq!(reg.get(2).unwrap().queue_len(), 1);
    assert_eq!(reg.get(2).unwrap().state(), PlaybackState::Playing);
}

#[test]
fn operations_on_absent_guild_do_nothing() {
    let mut reg = SessionRegistry::new();
    assert!(reg.enqueue(9, "x".to_string(), 0).is_none());
    assert!(reg.pause(9, 0).is_none());
    assert!(reg.resume(9, 0).is_none());
    assert!(reg.skip(9, 0).is_none());
    assert!(!reg.stop(9, 0));
    assert!(reg.snapshot(9).is_none());
    assert!(reg.arm_watchdog(9).is_none());
    assert!(reg.watchdog_tick(9).is_none());
    assert!(!reg.apply_resolution(9, 0, None));
}
