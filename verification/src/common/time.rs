//! What the library relies on of `std`'s durations, and readings of the
//! system clock as plain numbers.

use vstd::prelude::*;
use core::time::Duration;
use std::time::{SystemTime, UNIX_EPOCH};

verus! {

/// The duration of `secs` whole seconds, as `Duration::from_secs` makes it.
pub uninterp spec fn secs_duration(secs: u64) -> Duration;

/// `Duration::from_secs`: a duration of whole seconds. `Duration` is opaque
/// here; the result is named by the seconds it was made from, which is all
/// that it depends on.
pub assume_specification[ Duration::from_secs ](secs: u64) -> (r: Duration)
    ensures
        r == secs_duration(secs),
;

/// `Duration::clone`: `Duration` is `Copy`, so a clone is the same duration.
pub assume_specification[ <Duration as Clone>::clone ](d: &Duration) -> (r: Duration)
    ensures
        r == *d,
;

/// The current time of the system clock.
///
/// Trusted: calls `SystemTime::now`; the time is not known in advance, so
/// nothing is claimed of it.
#[verifier::external_body]
fn clock_now() -> (r: SystemTime) {
    SystemTime::now()
}

/// How long after the Unix epoch `t` is, or nothing when it is earlier.
///
/// Trusted: calls `SystemTime::duration_since` with `UNIX_EPOCH`; `Duration`
/// is opaque here, so nothing is claimed of the value.
#[verifier::external_body]
fn since_unix_epoch(t: SystemTime) -> (r: Option<Duration>) {
    t.duration_since(UNIX_EPOCH).ok()
}

/// The whole nanoseconds of `d`.
///
/// Trusted: calls `Duration::as_nanos`; `Duration` is opaque here, so
/// nothing is claimed of the value.
#[verifier::external_body]
fn duration_nanos(d: Duration) -> (r: u128) {
    d.as_nanos()
}

/// A reading of the system clock: the whole nanoseconds since the Unix
/// epoch, or nothing when the clock reads earlier than the epoch. The
/// reading depends on when it is taken, so nothing is stated of it.
pub fn clock_reading_nanos() -> (r: Option<u128>) {
    match since_unix_epoch(clock_now()) {
        Some(d) => Some(duration_nanos(d)),
        None => None,
    }
}

/// Nanoseconds since the epoch as a signed 64-bit time: a clock before the
/// epoch counts as the epoch itself, and a reading is cut to its low 64
/// bits.
pub open spec fn unix_ns_of(reading: Option<u128>) -> i64 {
    match reading {
        Some(n) => n as i64,
        None => 0,
    }
}

/// Milliseconds since the epoch as a signed 64-bit time: a clock before the
/// epoch counts as the epoch itself, and the whole milliseconds of a reading
/// are cut to their low 64 bits.
pub open spec fn unix_millis_of(reading: Option<u128>) -> i64 {
    match reading {
        Some(n) => (n / 1_000_000) as i64,
        None => 0,
    }
}

/// The time of a clock reading in nanoseconds, as spans record it.
pub fn unix_ns_from_reading(reading: Option<u128>) -> (r: i64)
    ensures
        r == unix_ns_of(reading),
{
    match reading {
        Some(n) => n as i64,
        None => 0,
    }
}

/// The time of a clock reading in milliseconds, as a test clock starts.
pub fn unix_millis_from_reading(reading: Option<u128>) -> (r: i64)
    ensures
        r == unix_millis_of(reading),
{
    match reading {
        Some(n) => (n / 1_000_000) as i64,
        None => 0,
    }
}

} // verus!
