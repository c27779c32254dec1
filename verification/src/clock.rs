//! Readings of the wall clock.  Each function returns whatever the machine
//! clock says at the moment of the call, so nothing more can be promised of
//! the values; all logic that depends on a time takes it as an argument.

use vstd::prelude::*;
use std::time::{SystemTime, UNIX_EPOCH};

verus! {

/// Relies on std::time::SystemTime: `now` returns the current system time,
/// `duration_since(UNIX_EPOCH)` measures it from the epoch and errs for a
/// clock standing before the epoch, and `as_millis` counts its whole
/// milliseconds.
#[verifier::external_body]
fn now_unix_millis() -> Option<u64> {
    SystemTime::now()
        .duration_since(UNIX_EPOCH)
        .ok()
        .map(|d| d.as_millis() as u64)
}

/// Milliseconds since the Unix epoch, or zero for a clock before it.
pub fn current_ts_millis() -> u64 {
    match now_unix_millis() {
        Some(ms) => ms,
        None => 0,
    }
}

/// The current local time, written as ISO-8601 / RFC 3339.
///
/// Relies on chrono: `Local::now` reads the clock in the machine's time
/// zone and `to_rfc3339` renders it.
#[verifier::external_body]
pub fn now_rfc3339() -> String {
    chrono::Local::now().to_rfc3339()
}

/// The current local time, written compactly as `yyyyMMdd_HHmmss` for use
/// inside a file name.
///
/// Relies on chrono: `Local::now` reads the clock in the machine's time
/// zone and `format` renders it with the given picture.
#[verifier::external_body]
pub fn now_compact_stamp() -> String {
    chrono::Local::now().format("%Y%m%d_%H%M%S").to_string()
}

} // verus!
