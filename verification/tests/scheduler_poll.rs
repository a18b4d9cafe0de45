use wgram::scheduler::SyncScheduler;

#[test]
fn long_idle_with_stale_chat_triggers_fetch() {
    // Idle 65 s, connected, not loading, selected chat updated 10 s ago.
    let now: u64 = 100_000;
    let mut s = SyncScheduler::new(now - 65_000);
    s.set_connected(true);
    s.note_messages_arrived(1, now - 10_000);
    assert_eq!(s.poll_interval_ms(now), 30_000);
    assert_eq!(s.wake(Some(1), now), Some(1));
}

#[test]
fn short_idle_with_fresh_chat_does_not_fetch() {
    // Idle 5 s, same chat updated 0.8 s ago.
    let now: u64 = 100_000;
    let mut s = SyncScheduler::new(now - 5_000);
    s.set_connected(true);
    s.note_messages_arrived(1, now - 800);
    assert_eq!(s.poll_interval_ms(now), 2_000);
    assert_eq!(s.wake(Some(1), now), None);
}

#[test]
fn interval_tiers() {
    let s = SyncScheduler::new(0);
    assert_eq!(s.poll_interval_ms(60_001), 30_000);
    assert_eq!(s.poll_interval_ms(60_000), 10_000);
    assert_eq!(s.poll_interval_ms(30_001), 10_000);
    assert_eq!(s.poll_interval_ms(30_000), 5_000);
    assert_eq!(s.poll_interval_ms(10_001), 5_000);
    assert_eq!(s.poll_interval_ms(10_000), 2_000);
    assert_eq!(s.poll_interval_ms(0), 2_000);
}

#[test]
fn clock_going_backwards_counts_as_no_idle() {
    let s = SyncScheduler::new(50_000);
    assert_eq!(s.poll_interval_ms(10_000), 2_000);
}

#[test]
fn never_updated_chat_is_fetched_at_once() {
    let mut s = SyncScheduler::new(0);
    s.set_connected(true);
    assert_eq!(s.wake(Some(7), 1), Some(7));
}

#[test]
fn wake_needs_connection_and_selection() {
    let mut s = SyncScheduler::new(0);
    // Not connected.
    assert_eq!(s.wake(Some(1), 10_000), None);
    s.set_connected(true);
    // Nothing selected.
    assert_eq!(s.wake(None, 10_000), None);
}

#[test]
fn in_flight_fetch_blocks_the_next_one() {
    let mut s = SyncScheduler::new(0);
    s.set_connected(true);
    assert_eq!(s.wake(Some(1), 10_000), Some(1));
    // The fetch is in flight now: no second command until a response.
    assert_eq!(s.wake(Some(1), 20_000), None);
    s.note_messages_arrived(1, 20_000);
    // Fresh response: not yet stale again.
    assert_eq!(s.wake(Some(1), 21_000), None);
    // 1.5 s passed: stale again.
    assert_eq!(s.wake(Some(1), 21_501), Some(1));
}

#[test]
fn stamps_are_per_chat() {
    let mut s = SyncScheduler::new(0);
    s.set_connected(true);
    s.note_messages_arrived(1, 10_000);
    s.note_messages_arrived(2, 10_400);
    // Chat 1 is stale, chat 2 is not.
    assert_eq!(s.wake(Some(2), 11_600), None);
    assert_eq!(s.wake(Some(1), 11_600), Some(1));
}

#[test]
fn opened_chat_marks_fetch_in_flight() {
    let mut s = SyncScheduler::new(0);
    s.set_connected(true);
    s.note_fetch_started();
    assert_eq!(s.wake(Some(1), 60_000), None);
}
