//! A tamper-evident activity logger: event counters and an activity
//! classifier feed signed, append-only CSV records, with HMAC-SHA256
//! signatures that an offline verifier re-checks line by line, and a
//! screenshot pipeline that deduplicates frames by content hash.

pub mod activity;
pub mod counters;
pub mod logverify;
pub mod monitor;
pub mod record;
pub mod screenshot;
pub mod session;
pub mod sign;
