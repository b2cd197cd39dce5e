//! The current time.

use crate::types::Timestamp;
use vstd::prelude::*;

verus! {

/// The time at which it is called, from `chrono::Utc::now`.
///
/// The contract claims only that the nanoseconds stay below a second, which
/// holds whatever the clock shows: `now` makes the instant from the seconds and
/// the sub-second nanoseconds of the system time. Which instant it is depends on
/// the clock. `now` panics where the system clock stands before the Unix epoch.
#[verifier::external_body]
pub(crate) fn utc_now() -> (now: Timestamp)
    ensures
        now.nanos < 1_000_000_000,
{
    let now = chrono::Utc::now();
    Timestamp { seconds: now.timestamp(), nanos: now.timestamp_subsec_nanos() }
}

/// `now` is what a reading of the clock returned.
pub closed spec fn is_clock_reading(now: Timestamp) -> bool {
    call_ensures(utc_now, (), now)
}

/// The readings of the clock are what [`utc_now`] returned, and nothing else.
pub(crate) proof fn law_readings_come_from_the_clock(now: Timestamp)
    ensures
        is_clock_reading(now) <==> call_ensures(utc_now, (), now),
{
}

} // verus!
