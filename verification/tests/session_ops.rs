use voice_sessions::session::{PlaybackError, PlaybackState, VoiceSession};

#[test]
fn enqueue_on_empty_queue_becomes_head() {
    let mut s = VoiceSession::new(1, 7, 0);
    let (pos, key) = s.enqueue("a".to_string(), 1);
    assert_eq!(pos, 0);
    assert_eq!(key, 0);
    assert_eq!(s.state(), PlaybackState::Playing);
    assert_eq!(s.queue_len(), 1);
}

#[test]
fn enqueue_appends_at_tail_preserving_order() {
    let mut s = VoiceSession::new(1, 7, 0);
    assert_eq!(s.enqueue("a".to_string(), 1).0, 0);
    assert_eq!(s.enqueue("b".to_string(), 2).0, 1);
    assert_eq!(s.enqueue("c".to_string(), 3).0, 2);

    let entries = s.snapshot();
    let titles: Vec<&str> = entries.iter().map(|e| e.title.as_str()).collect();
    assert_eq!(titles, ["a", "b", "c"]);
}

#[test]
fn skip_on_single_entry_queue_idles() {
    let mut s = VoiceSession::new(1, 7, 0);
    s.enqueue("a".to_string(), 1);
    assert_eq!(s.skip(2), Ok(()));
    assert_eq!(s.state(), PlaybackState::Idle);
    assert_eq!(s.queue_len(), 0);
}

#[test]
fn skip_promotes_the_next_entry() {
    let mut s = VoiceSession::new(1, 7, 0);
    s.enqueue("a".to_string(), 1);
    s.enqueue("b".to_string(), 2);
    assert_eq!(s.skip(3), Ok(()));
    assert_eq!(s.state(), PlaybackState::Playing);
    assert_eq!(s.snapshot()[0].title, "b");
}

#[test]
fn skip_when_idle_fails() {
    let mut s = VoiceSession::new(1, 7, 0);
    assert_eq!(s.skip(1), Err(PlaybackError::NothingPlaying));
}

#[test]
fn stop_empties_queue_whatever_the_state() {
    let mut s = VoiceSession::new(1, 7, 0);
    s.enqueue("a".to_string(), 1);
    s.enqueue("b".to_string(), 2);
    s.pause(3).unwrap();
    s.stop(4);
    assert_eq!(s.queue_len(), 0);
    assert_eq!(s.state(), PlaybackState::Idle);
}

#[test]
fn stop_twice_leaves_the_same_state_as_once() {
    let mut twice = VoiceSession::new(1, 7, 0);
    twice.enqueue("a".to_string(), 1);
    twice.stop(5);
    twice.stop(9);

    let mut once = VoiceSession::new(1, 7, 0);
    once.enqueue("a".to_string(), 1);
    once.stop(9);

    assert_eq!(twice.queue_len(), once.queue_len());
    assert_eq!(twice.state(), once.state());
    assert_eq!(twice.last_activity(), once.last_activity());
}

#[test]
fn pause_then_resume_restores_playing_and_queue() {
    let mut s = VoiceSession::new(1, 7, 0);
    s.enqueue("a".to_string(), 1);
    s.enqueue("b".to_string(), 2);

    assert_eq!(s.pause(3), Ok(()));
    assert_eq!(s.state(), PlaybackState::Paused);
    assert_eq!(s.resume(4), Ok(()));
    assert_eq!(s.state(), PlaybackState::Playing);

    let titles: Vec<String> = s.snapshot().into_iter().map(|e| e.title).collect();
    assert_eq!(titles, ["a", "b"]);
}

#[test]
fn pause_when_idle_fails() {
    let mut s = VoiceSession::new(1, 7, 0);
    assert_eq!(s.pause(1), Err(PlaybackError::NothingPlaying));
}

#[test]
fn pause_when_already_paused_fails() {
    let mut s = VoiceSession::new(1, 7, 0);
    s.enqueue("a".to_string(), 1);
    s.pause(2).unwrap();
    assert_eq!(s.pause(3), Err(PlaybackError::NothingPlaying));
}

#[test]
fn resume_when_already_playing_fails() {
    let mut s = VoiceSession::new(1, 7, 0);
    s.enqueue("a".to_string(), 1);
    assert_eq!(s.resume(2), Err(PlaybackError::NothingPlaying));
}

#[test]
fn mutating_operations_update_last_activity() {
    let mut s = VoiceSession::new(1, 7, 0);
    assert_eq!(s.last_activity(), 0);
    s.enqueue("a".to_string(), 5);
    assert_eq!(s.last_activity(), 5);
    s.pause(6).unwrap();
    assert_eq!(s.last_activity(), 6);
    s.resume(7).unwrap();
    assert_eq!(s.last_activity(), 7);
    s.skip(8).unwrap();
    assert_eq!(s.last_activity(), 8);
    assert!(s.pause(9).is_err());
    assert_eq!(s.last_activity(), 8);
}

#[test]
fn snapshot_reports_at_most_ten_entries() {
    let mut s = VoiceSession::new(1, 7, 0);
    for i in 0..12u32 {
        s.enqueue(format!("track{}", i), u64::from(i));
    }
    assert_eq!(s.queue_len(), 12);
    let entries = s.snapshot();
    assert_eq!(entries.len(), 10);
    assert_eq!(entries[9].title, "track9");
}
