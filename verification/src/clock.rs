//! Readings of a monotonic clock, and the spans between them.

use vstd::prelude::*;

verus! {

/// A reading of the monotonic clock, in nanoseconds since its origin.
#[derive(Clone, Copy, Debug, PartialEq, Eq, Structural)]
pub struct Instant {
    pub nanos: u64,
}

impl Instant {
    /// Nanoseconds from `earlier` to `self`; none where `earlier` is the later of the two.
    pub open spec fn nanos_since(self, earlier: Instant) -> nat {
        if self.nanos >= earlier.nanos {
            (self.nanos - earlier.nanos) as nat
        } else {
            0
        }
    }

    /// Whole milliseconds from `earlier` to `self`.
    pub open spec fn millis_since(self, earlier: Instant) -> nat {
        self.nanos_since(earlier) / 1_000_000
    }

    /// The reading `micros` microseconds after the origin.
    pub fn from_micros(micros: u64) -> (r: Instant)
        requires
            micros * 1_000 <= u64::MAX,
        ensures
            r.nanos == micros * 1_000,
    {
        Instant { nanos: micros * 1_000 }
    }

    /// The reading `millis` milliseconds after the origin.
    pub fn from_millis(millis: u64) -> (r: Instant)
        requires
            millis * 1_000_000 <= u64::MAX,
        ensures
            r.nanos == millis * 1_000_000,
    {
        Instant { nanos: millis * 1_000_000 }
    }

    pub fn elapsed_nanos(self, earlier: Instant) -> (r: u64)
        ensures
            r == self.nanos_since(earlier),
    {
        if self.nanos >= earlier.nanos {
            self.nanos - earlier.nanos
        } else {
            0
        }
    }

    pub fn elapsed_millis(self, earlier: Instant) -> (r: u64)
        ensures
            r == self.millis_since(earlier),
    {
        self.elapsed_nanos(earlier) / 1_000_000
    }
}

/// A span is what has to be added to the earlier reading to get the later one; backwards
/// there is none. Milliseconds are whole ones, rounded down.
pub proof fn a_span_leads_from_one_reading_to_the_other(earlier: Instant, later: Instant)
    requires
        earlier.nanos <= later.nanos,
    ensures
        earlier.nanos + later.nanos_since(earlier) == later.nanos,
        earlier.nanos_since(later) == 0,
        earlier.millis_since(later) == 0,
        earlier.nanos + later.millis_since(earlier) * 1_000_000 <= later.nanos,
        later.nanos < earlier.nanos + (later.millis_since(earlier) + 1) * 1_000_000,
{
}

} // verus!
