//! The time of day.
use vstd::prelude::*;

verus! {

/// `chrono::Utc::now().to_rfc3339()`: this moment, in the form of RFC 3339. What it
/// says depends on when it is asked, so nothing is claimed of it.
#[verifier::external_body]
pub(crate) fn now_rfc3339() -> (r: String) {
    chrono::Utc::now().to_rfc3339()
}

/// `chrono::Utc::now().timestamp()`: the seconds since 1970. What it says depends on
/// when it is asked, so nothing is claimed of it.
#[verifier::external_body]
pub(crate) fn unix_seconds() -> (r: i64) {
    chrono::Utc::now().timestamp()
}

/// Seconds since 1970 as a count, which wraps around below zero.
pub open spec fn as_count(seconds: i64) -> u64 {
    if seconds >= 0 {
        seconds as u64
    } else {
        (seconds + 0x1_0000_0000_0000_0000) as u64
    }
}

/// Seconds since 1970 as a count, which wraps around below zero.
pub fn seconds_count(seconds: i64) -> (r: u64)
    ensures
        r == as_count(seconds),
{
    if seconds >= 0 {
        seconds as u64
    } else {
        (seconds as i128 + 0x1_0000_0000_0000_0000) as u64
    }
}

/// A moment after 1970 counts as it is.
pub proof fn moments_count_as_they_are(seconds: i64)
    ensures
        seconds >= 0 ==> as_count(seconds) == seconds,
        seconds < 0 ==> as_count(seconds) == seconds + 0x1_0000_0000_0000_0000,
{
}

} // verus!
