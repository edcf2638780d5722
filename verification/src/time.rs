//! Concrete nanosecond-precision time values.
//!
//! [`InstantNs`] is a point on a timeline, counted in whole nanoseconds from
//! the timeline's origin; [`DurationNs`] is a non-negative distance between
//! two such points. Both fit in a `u64`, which spans roughly 584 years of
//! nanoseconds, and all arithmetic on them is overflow-checked.

use crate::traits::{IDuration, IInstant};
use vstd::prelude::*;

verus! {

/// A point on a timeline: whole nanoseconds since the timeline's origin.
#[derive(Clone, Copy, Debug, PartialEq, Eq, PartialOrd, Ord, Hash, Structural)]
pub struct InstantNs {
    nanos: u64,
}

/// An elapsed-time magnitude in whole nanoseconds.
#[derive(Clone, Copy, Debug, PartialEq, Eq, PartialOrd, Ord, Hash, Structural)]
pub struct DurationNs {
    nanos: u64,
}

impl InstantNs {
    /// The instant `nanos` nanoseconds after the timeline's origin.
    pub fn from_nanos(nanos: u64) -> (r: InstantNs)
        ensures
            r.ivw() == nanos,
    {
        InstantNs { nanos }
    }

    /// The timeline position, in nanoseconds.
    pub fn nanos(&self) -> (r: u64)
        ensures
            r == self.ivw(),
    {
        self.nanos
    }
}

impl IInstant for InstantNs {
    type Duration = DurationNs;

    closed spec fn ivw(&self) -> int {
        self.nanos as int
    }

    open spec fn imax() -> int {
        u64::MAX as int
    }

    proof fn lemma_ivw_in_range(&self) {
    }

    fn checked_duration_since(&self, earlier: Self) -> (r: Option<DurationNs>)
        ensures
            r is Some <==> earlier.ivw() <= self.ivw(),
            r matches Some(d) ==> d.dvw() == self.ivw() - earlier.ivw(),
    {
        if earlier.nanos <= self.nanos {
            Some(DurationNs { nanos: self.nanos - earlier.nanos })
        } else {
            None
        }
    }

    fn checked_add(&self, duration: DurationNs) -> (r: Option<InstantNs>)
        ensures
            r is Some <==> self.ivw() + duration.dvw() <= Self::imax(),
            r matches Some(later) ==> later.ivw() == self.ivw() + duration.dvw(),
    {
        match self.nanos.checked_add(duration.nanos) {
            Some(nanos) => Some(InstantNs { nanos }),
            None => None,
        }
    }
}

impl DurationNs {
    /// A duration of `nanos` nanoseconds.
    pub fn from_nanos(nanos: u64) -> (r: DurationNs)
        ensures
            r.dvw() == nanos,
    {
        DurationNs { nanos }
    }

    /// A duration of `millis` milliseconds.
    pub fn from_millis(millis: u64) -> (r: DurationNs)
        requires
            millis * 1_000_000 <= u64::MAX,
        ensures
            r.dvw() == millis * 1_000_000,
    {
        DurationNs { nanos: millis * 1_000_000 }
    }

    /// The magnitude, in nanoseconds.
    pub fn nanos(&self) -> (r: u64)
        ensures
            r == self.dvw(),
    {
        self.nanos
    }

    /// The sum of two durations, clamped at the largest representable
    /// magnitude.
    pub fn saturating_add(&self, other: &DurationNs) -> (r: DurationNs)
        ensures
            self.dvw() + other.dvw() <= u64::MAX ==> r.dvw() == self.dvw() + other.dvw(),
            self.dvw() + other.dvw() > u64::MAX ==> r.dvw() == u64::MAX,
    {
        DurationNs { nanos: self.nanos.saturating_add(other.nanos) }
    }
}

impl IDuration for DurationNs {
    closed spec fn dvw(&self) -> int {
        self.nanos as int
    }

    proof fn lemma_dvw_in_range(&self) {
    }

    fn fork(&self) -> (d: Self)
        ensures
            d == *self,
    {
        DurationNs { nanos: self.nanos }
    }

    fn shorter_than(&self, other: &Self) -> (r: bool)
        ensures
            r <==> self.dvw() < other.dvw(),
    {
        self.nanos < other.nanos
    }
}

} // verus!
