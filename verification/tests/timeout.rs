//! The timeout race, on the real clock and on the virtual clock.

use timebox::{
    DurationNs, IMonotonicClock, InstantNs, LatencyOp, MonotonicClock, TestOp, VirtualClock,
};

#[test]
fn high_latency_op_with_real_clock_returns_nothing_within_specified_timeout_plus_small_overhead() {
    let op_latency = DurationNs::from_millis(10_000);
    let timeout = DurationNs::from_millis(500);
    // Accounts for additional latency for machinery involved in managing an
    // operation's execution.
    let small_overhead = DurationNs::from_millis(100);
    let max_expected_latency = timeout.saturating_add(&small_overhead);

    let (actual_latency, output) =
        LatencyOp::new(MonotonicClock::default(), op_latency).timed_run_with_timeout((), timeout);

    assert!(
        actual_latency <= max_expected_latency,
        "Actual latency of {:?} exceeds expected maximum of {:?}",
        actual_latency,
        max_expected_latency
    );
    assert!(output.is_none());
}

#[test]
fn low_latency_op_with_real_clock_returns_something_faster_than_specified_timeout_plus_small_overhead(
) {
    let op_latency = DurationNs::from_millis(500);
    let timeout = DurationNs::from_millis(10_000);
    // Accounts for additional latency for machinery involved in managing an
    // operation's execution.
    let small_overhead = DurationNs::from_millis(100);
    let max_expected_latency = op_latency.saturating_add(&small_overhead);

    let (actual_latency, output) =
        LatencyOp::new(MonotonicClock::default(), op_latency).timed_run_with_timeout((), timeout);

    assert!(
        actual_latency <= max_expected_latency,
        "Actual latency of {:?} exceeds expected maximum of {:?}",
        actual_latency,
        max_expected_latency
    );
    assert!(output.is_some());
}

#[test]
fn virtual_race_with_high_latency_times_out_with_elapsed_exactly_the_timeout() {
    let clock = VirtualClock::at(InstantNs::from_nanos(7_000));
    let mut op = LatencyOp::new(clock, DurationNs::from_millis(1000));

    let (elapsed, output) = op.timed_run_with_timeout((), DurationNs::from_millis(500));

    assert_eq!(elapsed, DurationNs::from_millis(500));
    assert!(output.is_none());
}

#[test]
fn virtual_race_with_low_latency_returns_output_with_elapsed_exactly_the_latency() {
    let clock = VirtualClock::at(InstantNs::from_nanos(7_000));
    let mut op = LatencyOp::new(clock, DurationNs::from_millis(1));

    let (elapsed, output) = op.timed_run_with_timeout((), DurationNs::from_millis(500));

    assert_eq!(elapsed, DurationNs::from_millis(1));
    assert_eq!(output, Some(()));
}

#[test]
fn virtual_race_with_latency_equal_to_timeout_times_out() {
    let clock = VirtualClock::at(InstantNs::from_nanos(0));
    let mut op = LatencyOp::new(clock, DurationNs::from_millis(250));

    let (elapsed, output) = op.timed_run_with_timeout((), DurationNs::from_millis(250));

    assert_eq!(elapsed, DurationNs::from_millis(250));
    assert!(output.is_none());
}

#[test]
fn virtual_race_leaves_the_operation_state_in_place_and_advances_its_clock() {
    let clock = VirtualClock::at(InstantNs::from_nanos(0));
    let mut op = LatencyOp::new(clock, DurationNs::from_millis(2));

    let (_elapsed, _output) = op.timed_run_with_timeout((), DurationNs::from_millis(500));

    assert_eq!(op.latency, DurationNs::from_millis(2));
    let sample = op.clock.now();
    assert_eq!(sample, InstantNs::from_nanos(2_000_000));
}
