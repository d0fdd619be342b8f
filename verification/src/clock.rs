//! Points in time on a clock that never goes back.

use vstd::prelude::*;

verus! {

/// Nanoseconds in a millisecond.
pub const NANOS_PER_MILLI: u64 = 1_000_000;

/// A point in time, as the nanoseconds since the clock was started.
#[derive(Debug, Clone, Copy, PartialEq, Eq, Structural)]
pub struct MonotonicTime {
    pub nanos: u64,
}

impl MonotonicTime {
    /// The nanoseconds from this point to `now`; none, where `now` is no later.
    pub open spec fn nanos_until(self, now: MonotonicTime) -> int {
        if now.nanos >= self.nanos {
            now.nanos - self.nanos
        } else {
            0
        }
    }

    /// The whole milliseconds from this point to `now`.
    pub open spec fn millis_until(self, now: MonotonicTime) -> int {
        self.nanos_until(now) / (NANOS_PER_MILLI as int)
    }

    /// The nanoseconds from this point to `now`.
    pub fn elapsed_nanos(self, now: MonotonicTime) -> (r: u64)
        ensures
            r == self.nanos_until(now),
    {
        if now.nanos >= self.nanos {
            now.nanos - self.nanos
        } else {
            0
        }
    }

    /// The whole milliseconds from this point to `now`.
    pub fn elapsed_millis(self, now: MonotonicTime) -> (r: u64)
        ensures
            r == self.millis_until(now),
    {
        self.elapsed_nanos(now) / NANOS_PER_MILLI
    }
}

/// Time on the clock adds up: from one point to a later one it is the difference, and to an earlier
/// one nothing; a millisecond is a million nanoseconds, and only whole ones count.
pub proof fn law_time_passes(from: MonotonicTime, now: MonotonicTime, nanos: u64, millis: u64)
    requires
        call_ensures(MonotonicTime::elapsed_nanos, (from, now), nanos),
        call_ensures(MonotonicTime::elapsed_millis, (from, now), millis),
    ensures
        from.nanos <= now.nanos ==> from.nanos + nanos == now.nanos,
        from.nanos > now.nanos ==> nanos == 0,
        millis * 1_000_000 <= nanos,
        nanos < millis * 1_000_000 + 1_000_000,
{
}

} // verus!
