//! Durations and wall-clock timestamps as the library sees them.
//!
//! A `Duration` is opaque to the verifier. The library reads one through
//! `Duration::as_secs` and `Duration::subsec_nanos` and makes one with
//! `Duration::new`; what is assumed of the three is written down here, over
//! the length of a duration in nanoseconds.

use chrono::Utc;
use std::time::Duration;
use vstd::prelude::*;

verus! {

/// An instant of UTC wall-clock time: whole seconds since the Unix epoch and
/// the nanoseconds within that second.
#[derive(Debug, Clone, Copy, PartialEq, Eq, Structural)]
pub struct Timestamp {
    pub secs: i64,
    pub nanos: u32,
}

/// The most nanoseconds that a `Duration` holds.
pub const MAX_DURATION_NANOS: u128 = 18_446_744_073_709_551_615_999_999_999;

/// The length of a `Duration` in whole nanoseconds: what the duration holds.
pub uninterp spec fn duration_nanos(d: Duration) -> nat;

/// `Duration::as_secs` gives the whole seconds of the duration.
pub assume_specification[ Duration::as_secs ](d: &Duration) -> (secs: u64)
    ensures
        secs == duration_nanos(*d) / 1_000_000_000,
;

/// `Duration::subsec_nanos` gives the part of the duration below one
/// second, in nanoseconds.
pub assume_specification[ Duration::subsec_nanos ](d: &Duration) -> (nanos: u32)
    ensures
        nanos == duration_nanos(*d) % 1_000_000_000,
;

/// `Duration::new` makes the duration of so many seconds and nanoseconds.
/// With a billion nanoseconds or more it carries into the seconds and stops
/// the program where they overflow; such calls are left out.
pub assume_specification[ Duration::new ](secs: u64, nanos: u32) -> (d: Duration)
    requires
        nanos < 1_000_000_000,
    ensures
        duration_nanos(d) == secs * 1_000_000_000 + nanos,
;

/// Reads the wall clock with `chrono::Utc::now` and takes the time apart
/// with `DateTime::timestamp` and `DateTime::timestamp_subsec_nanos`.
/// Nothing is assumed of the result. `Utc::now` stops the program where the
/// system clock stands before the Unix epoch.
#[verifier::external_body]
pub(crate) fn utc_now() -> Timestamp {
    let now = Utc::now();
    Timestamp { secs: now.timestamp(), nanos: now.timestamp_subsec_nanos() }
}

/// The most nanoseconds that a `Duration` holds: the largest count of whole
/// seconds and one nanosecond less than a second more.
pub open spec fn max_duration_nanos() -> nat {
    0xffff_ffff_ffff_ffff * 1_000_000_000 + 999_999_999
}

/// The sum of two lengths of time in nanoseconds, as far as a `Duration`
/// reaches.
pub open spec fn capped_sum(a: nat, b: nat) -> nat {
    if a + b <= max_duration_nanos() {
        a + b
    } else {
        max_duration_nanos()
    }
}

/// The length of a duration in nanoseconds.
pub fn total_nanos(d: Duration) -> (n: u128)
    ensures
        n == duration_nanos(d),
        n <= max_duration_nanos(),
{
    let secs: u64 = d.as_secs();
    let sub: u32 = d.subsec_nanos();
    (secs as u128) * 1_000_000_000u128 + (sub as u128)
}

/// The duration that is `n` nanoseconds long.
pub fn duration_from_nanos(n: u128) -> (d: Duration)
    requires
        n <= max_duration_nanos(),
    ensures
        duration_nanos(d) == n,
{
    let secs: u128 = n / 1_000_000_000u128;
    let sub: u128 = n % 1_000_000_000u128;
    Duration::new(secs as u64, sub as u32)
}

/// The sum of two durations, or the longest duration where the sum is out
/// of reach.
pub fn saturating_sum(a: Duration, b: Duration) -> (sum: Duration)
    ensures
        duration_nanos(sum) == capped_sum(duration_nanos(a), duration_nanos(b)),
{
    let total: u128 = total_nanos(a) + total_nanos(b);
    if total <= MAX_DURATION_NANOS {
        duration_from_nanos(total)
    } else {
        duration_from_nanos(MAX_DURATION_NANOS)
    }
}

} // verus!
