//! Points on the monotonic clock of the fiber engine, in nanoseconds.
//!
//! Durations are plain `u64` counts of nanoseconds.
use vstd::prelude::*;

verus! {

/// A point on the monotonic clock: nanoseconds since the clock's origin.
#[derive(Clone, Copy, Debug, PartialEq, Eq, Structural)]
pub struct Instant {
    pub nanos: u64,
}

impl Instant {
    /// The instant `nanos` nanoseconds after the clock's origin.
    pub fn from_nanos(nanos: u64) -> (r: Instant)
        ensures
            r.nanos == nanos,
    {
        Instant { nanos }
    }

    /// Nanoseconds since the clock's origin.
    pub fn as_nanos(&self) -> (r: u64)
        ensures
            r == self.nanos,
    {
        self.nanos
    }

    /// The instant `d` nanoseconds later, where the clock can hold it.
    pub fn checked_add(&self, d: u64) -> (r: Option<Instant>)
        ensures
            self.nanos + d <= u64::MAX ==> r == Some(Instant { nanos: (self.nanos + d) as u64 }),
            self.nanos + d > u64::MAX ==> r is None,
    {
        match self.nanos.checked_add(d) {
            Some(nanos) => Some(Instant { nanos }),
            None => None,
        }
    }

    /// The instant `d` nanoseconds later, or the last instant the clock can
    /// hold.
    pub fn saturating_add(&self, d: u64) -> (r: Instant)
        ensures
            r.nanos == if self.nanos + d <= u64::MAX { (self.nanos + d) as u64 } else { u64::MAX },
    {
        Instant { nanos: self.nanos.saturating_add(d) }
    }

    /// The instant `d` nanoseconds earlier, or the clock's origin.
    pub fn saturating_sub(&self, d: u64) -> (r: Instant)
        ensures
            r.nanos == if self.nanos >= d { (self.nanos - d) as u64 } else { 0 },
    {
        Instant { nanos: self.nanos.saturating_sub(d) }
    }

    /// The nanoseconds from `earlier` to `self`, or zero where `earlier` is
    /// later.
    pub fn duration_since(&self, earlier: Instant) -> (r: u64)
        ensures
            r == if self.nanos >= earlier.nanos { (self.nanos - earlier.nanos) as u64 } else { 0 },
    {
        self.nanos.saturating_sub(earlier.nanos)
    }
}

} // verus!
