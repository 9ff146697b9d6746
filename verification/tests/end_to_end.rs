use tamperlog::activity::{ActivityState, DEFAULT_INACTIVITY_THRESHOLD_SECS};
use tamperlog::counters::EventCounters;
use tamperlog::logverify::verify_log;
use tamperlog::record::{header_row, LogRecord, Status};
use tamperlog::session::{generate_key, SESSION_KEY_LEN};

fn bytes(s: &str) -> Vec<u8> {
    s.as_bytes().to_vec()
}

#[test]
fn one_tick_session_produces_a_verifiable_log() {
    // A fresh deployment: no key yet, so one is generated.
    let key = generate_key();
    assert_eq!(key.len(), SESSION_KEY_LEN);

    // One logging tick with 5 keystrokes, 0 mouse events, and silence
    // shorter than the threshold.
    let mut counters = EventCounters::new();
    for _ in 0..5 {
        counters.record_keystroke();
    }
    let (keys, mice) = counters.drain();
    assert_eq!((keys, mice), (5, 0));

    let mut activity = ActivityState::new(100);
    let status = activity.logging_tick(keys + mice, 130, DEFAULT_INACTIVITY_THRESHOLD_SECS);
    assert_eq!(status, Status::Active);

    let rec = LogRecord::new(
        bytes("2024-03-03 08:00:00"),
        keys,
        mice,
        status,
        None,
        bytes("None"),
    );
    let row = rec.signed_row(&key);
    let row_text = String::from_utf8(row.clone()).unwrap();
    assert!(row_text.starts_with("2024-03-03 08:00:00,5,0,ACTIVE,N/A,\"N/A\",None,"));

    // Verifying the produced file reports exactly one valid row.
    let report = verify_log(&vec![header_row(), row], &key);
    assert_eq!((report.checked, report.valid, report.errors), (1, 1, 0));
    assert!(report.verified());
}

#[test]
fn two_generated_keys_differ() {
    // 32 random bytes: two independent keys colliding would be
    // astronomically unlikely, and a collision here would point at a
    // broken source of randomness.
    assert_ne!(generate_key(), generate_key());
}
