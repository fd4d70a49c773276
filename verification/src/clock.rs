//! Wall-clock seconds for timestamps and key-refresh decisions.
use std::time::{SystemTime, UNIX_EPOCH};
use vstd::prelude::*;

verus! {

#[verifier::external_type_specification]
#[verifier::external_body]
pub struct ExSystemTime(SystemTime);

/// The current time, from `SystemTime::now`. Trusted for nothing: the value
/// is whatever the system clock reads.
#[verifier::external_body]
fn system_time_now() -> SystemTime {
    SystemTime::now()
}

/// Whole seconds from the Unix epoch to `t`, from `SystemTime::duration_since`
/// (as seconds); `None` when `t` lies before the epoch. Trusted for nothing:
/// the value depends on the clock reading.
#[verifier::external_body]
fn seconds_since_epoch(t: &SystemTime) -> Option<u64> {
    match t.duration_since(UNIX_EPOCH) {
        Ok(d) => Some(d.as_secs()),
        Err(_) => None,
    }
}

/// The timestamp that a clock reading gives: its seconds as `i64` (wrapping
/// as `as` does), or 0 for a reading before the epoch.
pub fn timestamp_from(seconds: Option<u64>) -> (t: i64)
    ensures
        t == match seconds {
            Some(s) => s as i64,
            None => 0,
        },
{
    match seconds {
        Some(s) => s as i64,
        None => 0,
    }
}

/// The current Unix time in seconds, or 0 when the clock reads a time
/// before the epoch.
pub fn now() -> i64 {
    let t = system_time_now();
    timestamp_from(seconds_since_epoch(&t))
}

} // verus!
