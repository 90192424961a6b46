//! Reading the clock, and the time between two readings.

use vstd::prelude::*;

verus! {

/// `time::precise_time_ns` reads a high-resolution counter, in nanoseconds since
/// an epoch that is not specified. Nothing is claimed of the value it returns.
pub assume_specification[ time::precise_time_ns ]() -> (now: u64);

/// The nanoseconds from the reading `start` to the reading `end`: their
/// difference, or nothing where the clock did not advance.
pub open spec fn elapsed_between(start: u64, end: u64) -> int {
    if end >= start {
        end - start
    } else {
        0
    }
}

/// The time that passed between two readings of the clock, in nanoseconds.
pub fn elapsed(start: u64, end: u64) -> (duration: u64)
    ensures
        duration == elapsed_between(start, end),
{
    if end >= start {
        end - start
    } else {
        0
    }
}

} // verus!
