use tamperlog::activity::{window_query_needed, ActivityState, DEFAULT_INACTIVITY_THRESHOLD_SECS};
use tamperlog::counters::EventCounters;
use tamperlog::monitor::IntervalTimer;
use tamperlog::record::Status;

#[test]
fn counters_accumulate_and_drain() {
    let mut c = EventCounters::new();
    for _ in 0..5 {
        c.record_keystroke();
    }
    c.record_mouse_event();
    c.record_mouse_event();
    assert_eq!(c.drain(), (5, 2));
}

#[test]
fn second_drain_returns_zero() {
    let mut c = EventCounters::new();
    c.record_keystroke();
    c.record_mouse_event();
    let first = c.drain();
    assert_eq!(first, (1, 1));
    assert_eq!(c.drain(), (0, 0));
}

#[test]
fn events_make_the_tick_active() {
    let threshold = DEFAULT_INACTIVITY_THRESHOLD_SECS;
    let mut s = ActivityState::new(0);
    // Events always win, even after a very long silence.
    let status = s.logging_tick(3, 100_000, threshold);
    assert_eq!(status, Status::Active);
    assert_eq!(s.last_activity, 100_000);
    assert!(s.screenshots_allowed());
}

#[test]
fn short_silence_is_idle() {
    let threshold = DEFAULT_INACTIVITY_THRESHOLD_SECS;
    let mut s = ActivityState::new(1000);
    let status = s.logging_tick(0, 1000 + threshold - 1, threshold);
    assert_eq!(status, Status::Idle);
    assert_eq!(s.last_activity, 1000);
    assert!(s.screenshots_allowed());
}

#[test]
fn long_silence_is_inactive_and_suppresses_screenshots() {
    let threshold = DEFAULT_INACTIVITY_THRESHOLD_SECS;
    let mut s = ActivityState::new(1000);
    let status = s.logging_tick(0, 1000 + threshold, threshold);
    assert_eq!(status, Status::Inactive);
    assert!(!s.screenshots_allowed());
    // Activity brings the session back and re-enables screenshots.
    let status = s.logging_tick(1, 1000 + threshold + 60, threshold);
    assert_eq!(status, Status::Active);
    assert!(s.screenshots_allowed());
}

#[test]
fn window_lookup_is_skipped_only_when_inactive() {
    assert!(window_query_needed(Status::Active));
    assert!(window_query_needed(Status::Idle));
    assert!(!window_query_needed(Status::Inactive));
}

#[test]
fn interval_timer_fires_and_rearms() {
    let mut t = IntervalTimer::new(0, 60);
    assert!(!t.due(59));
    assert!(t.due(60));
    // Rearmed at 60: not due again until 120.
    assert!(!t.due(119));
    assert!(t.due(120));
}
