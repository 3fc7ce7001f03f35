//! The host wall clock, read through `std::time`.
use vstd::prelude::*;
use std::time::{Duration, SystemTime, UNIX_EPOCH};

verus! {

#[verifier::external_type_specification]
#[verifier::external_body]
pub struct ExSystemTime(SystemTime);

/// Calls `SystemTime::now`; nothing is known of the value.
#[verifier::external_body]
fn system_time_now() -> SystemTime {
    SystemTime::now()
}

/// Calls `SystemTime::duration_since(UNIX_EPOCH)`: the time since the epoch, or `None` for a
/// time before it. Nothing is stated of the value, which depends on the host clock.
#[verifier::external_body]
fn duration_since_epoch(t: &SystemTime) -> Option<Duration> {
    match t.duration_since(UNIX_EPOCH) {
        Ok(d) => Some(d),
        Err(_) => None,
    }
}

/// Calls `Duration::as_nanos`, the whole length in nanoseconds. Nothing is stated of it: the
/// library holds no model of `Duration`.
#[verifier::external_body]
fn duration_as_nanos(d: &Duration) -> u128 {
    d.as_nanos()
}

/// The host clock, in nanoseconds since the Unix epoch.
pub(crate) fn host_now_nanos() -> u128 {
    let now = system_time_now();
    match duration_since_epoch(&now) {
        Some(d) => duration_as_nanos(&d),
        None => 0,
    }
}

} // verus!
