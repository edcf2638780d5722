//! The clocks: monotonicity of samples, overflow-safe arithmetic, and the
//! sleep policies of both clock implementations.

use timebox::{
    ClockOverflow, DurationNs, IInstant, IMonotonicClock, InstantNs, MonotonicClock, VirtualClock,
};

#[test]
fn consecutive_real_clock_samples_are_non_decreasing() {
    let mut clock = MonotonicClock::new();
    let first = clock.now();
    let second = clock.now();

    assert!(first <= second);
    assert!(second.checked_duration_since(first).is_some());
}

#[test]
fn consecutive_virtual_clock_samples_are_equal_without_sleep() {
    let mut clock = VirtualClock::at(InstantNs::from_nanos(12_345));
    let first = clock.now();
    let second = clock.now();

    assert_eq!(first, second);
    assert_eq!(second.checked_duration_since(first), Some(DurationNs::from_nanos(0)));
}

#[test]
fn virtual_clock_sleep_advances_by_exactly_the_requested_duration() {
    let mut clock = VirtualClock::at(InstantNs::from_nanos(5));
    let before = clock.now();
    clock.sleep(&DurationNs::from_nanos(100));
    let after = clock.now();

    assert_eq!(after.checked_duration_since(before), Some(DurationNs::from_nanos(100)));
}

#[test]
fn virtual_clock_sleep_saturates_at_the_end_of_the_timeline() {
    let mut clock = VirtualClock::at(InstantNs::from_nanos(u64::MAX - 1));
    clock.sleep(&DurationNs::from_nanos(100));

    assert_eq!(clock.now(), InstantNs::from_nanos(u64::MAX));
}

#[test]
fn virtual_clock_checked_sleep_surfaces_overflow_and_leaves_the_clock_in_place() {
    let mut clock = VirtualClock::at(InstantNs::from_nanos(u64::MAX - 1));

    assert_eq!(clock.checked_sleep(&DurationNs::from_nanos(5)), Err(ClockOverflow));
    assert_eq!(clock.now(), InstantNs::from_nanos(u64::MAX - 1));

    assert_eq!(clock.checked_sleep(&DurationNs::from_nanos(1)), Ok(()));
    assert_eq!(clock.now(), InstantNs::from_nanos(u64::MAX));
}

#[test]
fn real_clock_sleep_waits_at_least_the_requested_duration() {
    let mut clock = MonotonicClock::new();
    let before = clock.now();
    clock.sleep(&DurationNs::from_millis(50));
    let after = clock.now();

    assert!(after.checked_duration_since(before).unwrap() >= DurationNs::from_millis(50));
}

#[test]
fn checked_add_returns_none_on_overflow_instead_of_wrapping() {
    let near_the_end = InstantNs::from_nanos(u64::MAX - 9);

    assert!(near_the_end.checked_add(DurationNs::from_nanos(10)).is_none());
    assert_eq!(
        near_the_end.checked_add(DurationNs::from_nanos(9)),
        Some(InstantNs::from_nanos(u64::MAX))
    );
}

#[test]
fn checked_duration_since_never_returns_a_negative_duration() {
    let earlier = InstantNs::from_nanos(10);
    let later = InstantNs::from_nanos(25);

    assert_eq!(later.checked_duration_since(earlier), Some(DurationNs::from_nanos(15)));
    assert!(earlier.checked_duration_since(later).is_none());
}

#[test]
fn ordering_is_consistent_with_checked_arithmetic() {
    let start = InstantNs::from_nanos(1_000);
    let step = DurationNs::from_nanos(234);
    let later = start.checked_add(step).unwrap();

    assert!(start <= later);
    assert_eq!(later.checked_duration_since(start), Some(step));
}

#[test]
fn durations_convert_between_milliseconds_and_nanoseconds() {
    assert_eq!(DurationNs::from_millis(500), DurationNs::from_nanos(500_000_000));
    assert_eq!(DurationNs::from_millis(500).nanos(), 500_000_000);
    assert_eq!(InstantNs::from_nanos(77).nanos(), 77);
}

#[test]
fn saturating_add_clamps_at_the_largest_magnitude() {
    let big = DurationNs::from_nanos(u64::MAX - 1);

    assert_eq!(big.saturating_add(&DurationNs::from_nanos(1)), DurationNs::from_nanos(u64::MAX));
    assert_eq!(big.saturating_add(&DurationNs::from_nanos(2)), DurationNs::from_nanos(u64::MAX));
    assert_eq!(
        DurationNs::from_nanos(1).saturating_add(&DurationNs::from_nanos(2)),
        DurationNs::from_nanos(3)
    );
}
