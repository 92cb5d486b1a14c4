//! The time of day, in seconds since the Unix epoch.

use vstd::prelude::*;

verus! {

/// The number of seconds in the lifetime of a session.
pub const SESSION_SECONDS: i64 = 86_400;

/// Whether `t` is a time that the clock can give.
pub open spec fn clock_range(t: i64) -> bool {
    -0x1_0000_0000_0000 < t < 0x1_0000_0000_0000
}

/// The current time, from `chrono::Utc::now().timestamp()`. Trusted: the
/// time lies within the range of days that `chrono::DateTime` can hold,
/// which is within 2^48 seconds of the epoch.
#[verifier::external_body]
pub(crate) fn unix_now() -> (t: i64)
    ensures
        clock_range(t),
{
    chrono::Utc::now().timestamp()
}

} // verus!
