//! Timestamps in milliseconds.

use vstd::prelude::*;

verus! {

/// The milliseconds in a time span of `secs` whole seconds and `subsec_nanos`
/// nanoseconds; what is left of a millisecond is dropped.
pub open spec fn millis_of(secs: u64, subsec_nanos: u32) -> int {
    secs * 1000 + subsec_nanos / 1_000_000
}

/// The timestamp of the current instant in milliseconds, given the time that
/// has passed since the epoch as the clock reports it: whole seconds, and the
/// nanoseconds of the second that has begun.
pub fn current_ts_millis(secs: u64, subsec_nanos: u32) -> (millis: u128)
    ensures
        millis == millis_of(secs, subsec_nanos),
{
    (secs as u128) * 1000 + (subsec_nanos / 1_000_000) as u128
}

} // verus!
