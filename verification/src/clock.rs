//! Clock implementations: a clock over the host's monotonic timer, and a
//! virtual clock for tests that simulates the passage of time.

use crate::time::{DurationNs, InstantNs};
use crate::traits::{advanced, IDuration, IInstant, IMonotonicClock};
use vstd::prelude::*;

verus! {

/// `std::time::Instant`, declared so that a host-timer reading can anchor
/// [`MonotonicClock`]. The value is opaque; the clock reads it only through
/// the trusted items below.
#[verifier::external_type_specification]
#[verifier::external_body]
pub struct ExStdInstant(std::time::Instant);

/// Relies on `std::time::Instant::now`: an opaque reading of the host's
/// monotonic timer, used only as the fixed origin a clock measures from.
#[verifier::external_body]
fn host_timer_reading() -> std::time::Instant {
    std::time::Instant::now()
}

/// Relies on `std::time::Instant` being `Copy`: `clone` returns the very
/// same reading.
pub assume_specification[ <std::time::Instant as Clone>::clone ](
    v: &std::time::Instant,
) -> (r: std::time::Instant)
    ensures
        r == *v,
;

/// Relies on `std::time::Instant::elapsed`: the time since `origin` as
/// reported by the host's monotonic timer, converted to whole nanoseconds and
/// clamped at `u64::MAX`. Nothing is assumed of the reading itself; the clock
/// enforces monotonicity on top of it.
#[verifier::external_body]
fn host_nanos_since(origin: &std::time::Instant) -> (r: u64) {
    u64::try_from(origin.elapsed().as_nanos()).unwrap_or(u64::MAX)
}

/// Example production [`IMonotonicClock`] over the host's monotonic timer.
///
/// The clock measures nanoseconds elapsed since its construction and clamps
/// every reading to be no less than the largest reading handed out before, so
/// its monotonicity holds whatever the host timer does.
#[derive(Debug)]
pub struct MonotonicClock {
    origin: std::time::Instant,
    last: u64,
}

impl MonotonicClock {
    /// A clock whose timeline starts at the moment of construction.
    pub fn new() -> (c: MonotonicClock)
        ensures
            c.current() == 0,
    {
        MonotonicClock { origin: host_timer_reading(), last: 0 }
    }
}

impl Default for MonotonicClock {
    fn default() -> (c: MonotonicClock)
        ensures
            c.current() == 0,
    {
        MonotonicClock::new()
    }
}

impl IMonotonicClock for MonotonicClock {
    type Instant = InstantNs;

    type Duration = DurationNs;

    closed spec fn current(&self) -> int {
        self.last as int
    }

    open spec fn passive() -> bool {
        false
    }

    proof fn lemma_current_in_range(&self) {
    }

    fn is_passive() -> (b: bool) {
        false
    }

    fn fork(&self) -> (c: Self) {
        MonotonicClock { origin: self.origin.clone(), last: self.last }
    }

    fn now(&mut self) -> (r: InstantNs) {
        let host = host_nanos_since(&self.origin);
        if host > self.last {
            self.last = host;
        }
        InstantNs::from_nanos(self.last)
    }

    /// Waits until the host timer has moved at least `duration` past the
    /// clock's current position, by polling the timer. Should the host timer
    /// ever stall, each further poll credits a single nanosecond, so the wait
    /// always terminates. A sleep that would run past the end of the
    /// representable range returns at once, leaving the clock in place.
    fn sleep(&mut self, duration: &DurationNs) {
        match InstantNs::from_nanos(self.last).checked_add(*duration) {
            Some(target) => {
                let t: u64 = target.nanos();
                let mut cur: u64 = self.last;
                while cur < t
                    invariant
                        self.last <= cur,
                        t <= u64::MAX,
                    decreases t - cur,
                {
                    let host = host_nanos_since(&self.origin);
                    if host > cur {
                        cur = if host < t {
                            host
                        } else {
                            t
                        };
                    } else {
                        cur = cur + 1;
                    }
                }
                self.last = cur;
            },
            None => {},
        }
    }
}

/// A virtual [`IMonotonicClock`] that advances its instant programmatically
/// instead of blocking, so tests can simulate arbitrarily long latencies
/// instantly.
///
/// On overflow of the representable range, [`IMonotonicClock::sleep`]
/// saturates at the end of the timeline; that is the documented default
/// policy. [`VirtualClock::checked_sleep`] surfaces the overflow to the
/// caller instead and leaves the clock in place.
#[derive(Clone, Copy, Debug, PartialEq, Eq, Structural)]
pub struct VirtualClock {
    now: InstantNs,
}

/// An advance of a [`VirtualClock`] would run past the end of the
/// representable range.
#[derive(Clone, Copy, Debug, PartialEq, Eq, Structural)]
pub struct ClockOverflow;

impl VirtualClock {
    /// A virtual clock whose timeline starts at `start`.
    pub fn at(start: InstantNs) -> (c: VirtualClock)
        ensures
            c.current() == start.ivw(),
    {
        VirtualClock { now: start }
    }

    /// Advances the clock by `duration`, surfacing overflow: on overflow the
    /// clock is left in place and the error is returned.
    pub fn checked_sleep(&mut self, duration: &DurationNs) -> (r: Result<(), ClockOverflow>)
        ensures
            r is Ok <==> old(self).current() + duration.dvw() <= u64::MAX,
            r is Ok ==> final(self).current() == old(self).current() + duration.dvw(),
            r is Err ==> *final(self) == *old(self),
    {
        match self.now.checked_add(*duration) {
            Some(next) => {
                self.now = next;
                Ok(())
            },
            None => Err(ClockOverflow),
        }
    }
}

impl Default for VirtualClock {
    /// A virtual clock whose timeline starts at its origin.
    fn default() -> (c: VirtualClock)
        ensures
            c.current() == 0,
    {
        VirtualClock { now: InstantNs::from_nanos(0) }
    }
}

impl IMonotonicClock for VirtualClock {
    type Instant = InstantNs;

    type Duration = DurationNs;

    closed spec fn current(&self) -> int {
        self.now.ivw()
    }

    open spec fn passive() -> bool {
        true
    }

    proof fn lemma_current_in_range(&self) {
        self.now.lemma_ivw_in_range();
    }

    fn is_passive() -> (b: bool) {
        true
    }

    fn fork(&self) -> (c: Self) {
        VirtualClock { now: self.now }
    }

    fn now(&mut self) -> (r: InstantNs) {
        self.now
    }

    /// Advances the held instant by `duration` with no actual suspension,
    /// saturating at the end of the representable range.
    fn sleep(&mut self, duration: &DurationNs) {
        proof {
            self.now.lemma_ivw_in_range();
            duration.lemma_dvw_in_range();
        }
        match self.now.checked_add(*duration) {
            Some(next) => {
                self.now = next;
            },
            None => {
                self.now = InstantNs::from_nanos(u64::MAX);
            },
        }
    }
}

} // verus!
