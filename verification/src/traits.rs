//! The time-value capability traits.
//!
//! Any pair of types satisfying these contracts can drive the clocks and the
//! timed-execution engine; the arithmetic is checked (overflow is a
//! representable outcome, never undefined behavior) and the ordering is
//! consistent with the arithmetic.

use vstd::prelude::*;

verus! {

/// Instantaneous moment in time.
///
/// Conceptually, this is a point on a timeline. The point is measured by the
/// spec-level view [`IInstant::ivw`], a position within the representable
/// range `0 ..= imax()`.
pub trait IInstant: Sized {
    /// Preferred `IDuration` type to use in conjunction with this instant type.
    type Duration: IDuration;

    /// The position of this instant on its timeline.
    spec fn ivw(&self) -> int;

    /// The largest representable timeline position.
    spec fn imax() -> int;

    /// Every instant lies within the representable range.
    proof fn lemma_ivw_in_range(&self)
        ensures
            0 <= self.ivw() <= Self::imax(),
    ;

    /// The elapsed time from `earlier` to `self`; none exactly when `earlier`
    /// is actually later, so the result is never a negative duration.
    fn checked_duration_since(&self, earlier: Self) -> (r: Option<Self::Duration>)
        ensures
            r is Some <==> earlier.ivw() <= self.ivw(),
            r matches Some(d) ==> d.dvw() == self.ivw() - earlier.ivw(),
    ;

    /// This instant moved forward by `duration`; none exactly when the result
    /// would lie beyond the representable range, never a wrapped-around value.
    fn checked_add(&self, duration: Self::Duration) -> (r: Option<Self>)
        ensures
            r is Some <==> self.ivw() + duration.dvw() <= Self::imax(),
            r matches Some(later) ==> later.ivw() == self.ivw() + duration.dvw(),
    ;
}

/// The timeline position after moving `from` forward by `amount` on a
/// timeline whose representable range ends at `limit`: the advance saturates
/// at `limit` instead of wrapping around.
pub open spec fn advanced(from: int, amount: int, limit: int) -> int {
    if from + amount <= limit {
        from + amount
    } else {
        limit
    }
}

/// Measure of elapsed time.
///
/// Conceptually, this is the distance between two points on a timeline and is
/// never negative. Its spec-level view is [`IDuration::dvw`]. Two durations
/// from different clock families are not comparable.
pub trait IDuration: Sized {
    /// The magnitude of this duration.
    spec fn dvw(&self) -> int;

    /// A duration is a non-negative magnitude.
    proof fn lemma_dvw_in_range(&self)
        ensures
            0 <= self.dvw(),
    ;

    /// An owned copy of this duration, equal to it.
    fn fork(&self) -> (d: Self)
        ensures
            d == *self,
    ;

    /// Strict comparison of magnitudes.
    fn shorter_than(&self, other: &Self) -> (r: bool)
        ensures
            r <==> self.dvw() < other.dvw(),
    ;
}

/// Monotonically non-decreasing clock.
///
/// The monotonicity contract means that when two samples of the clock's time
/// are taken in succession, the second sample cannot be in the past relative
/// to the first sample. The spec-level view [`IMonotonicClock::current`] is
/// the position that the next sample is guaranteed not to precede; `now`
/// returns it, and `sleep` moves it forward.
///
/// A *passive* clock ([`IMonotonicClock::passive`]) is one whose time stands
/// still unless its own `sleep` is called: reading it has no effect, and
/// `sleep` advances it by exactly the requested duration (saturating at the
/// end of the representable range). A virtual test clock is passive; a clock
/// over the host's timer is not, since time passes under it on its own.
pub trait IMonotonicClock: Sized {
    type Instant: IInstant<Duration = Self::Duration>;

    type Duration: IDuration;

    /// The timeline position that the next sample cannot precede.
    spec fn current(&self) -> int;

    /// Whether this clock's time stands still between calls.
    spec fn passive() -> bool;

    /// The current position lies within the instant type's representable range.
    proof fn lemma_current_in_range(&self)
        ensures
            0 <= self.current() <= <Self::Instant as IInstant>::imax(),
    ;

    /// Whether this clock is passive, as an executable test.
    fn is_passive() -> (b: bool)
        ensures
            b == Self::passive(),
    ;

    /// An independent clock starting from the same state, so that two racing
    /// branches never share one clock's mutable state.
    fn fork(&self) -> (c: Self)
        ensures
            c == *self,
    ;

    /// Returns the current instant according to this clock.
    ///
    /// Consecutive samples with no intervening `sleep` are non-decreasing:
    /// each sample reads at least the clock's current position and becomes
    /// the new current position.
    fn now(&mut self) -> (r: Self::Instant)
        ensures
            old(self).current() <= r.ivw(),
            r.ivw() == final(self).current(),
            Self::passive() ==> *final(self) == *old(self),
    ;

    /// Sleeps for the specified duration of time.
    ///
    /// The clock never moves backward, and moves forward by at least
    /// `duration` whenever that stays within the representable range. A
    /// passive clock advances by exactly the requested duration, saturating
    /// at the end of the range.
    fn sleep(&mut self, duration: &Self::Duration)
        ensures
            old(self).current() <= final(self).current(),
            old(self).current() + duration.dvw() <= <Self::Instant as IInstant>::imax()
                ==> final(self).current() >= old(self).current() + duration.dvw(),
            Self::passive() ==> final(self).current() == advanced(
                old(self).current(),
                duration.dvw(),
                <Self::Instant as IInstant>::imax(),
            ),
    ;
}

} // verus!
