//! The example operations: measured runs of the latency operation and the
//! fail-then-succeed behavior of the fallible operation.

use timebox::{DurationNs, FallibleOp, InstantNs, LatencyOp, MonotonicClock, TestOp, VirtualClock};

#[test]
fn takes_at_least_the_specified_latency_to_return() {
    let clock = VirtualClock::at(InstantNs::from_nanos(9));
    let mut op = LatencyOp::new(clock, DurationNs::from_millis(42));

    let (duration, _result) = op.timed_run(());

    assert!(duration >= op.latency, "Actual duration: {:?}", duration);
    assert_eq!(duration, DurationNs::from_millis(42));
}

#[test]
fn fails_specified_number_of_times_and_then_succeeds() {
    let mut op = FallibleOp::new(VirtualClock::default(), 3);

    for _ in 0..3 {
        assert!(op.run(()).is_err());
    }
    assert!(op.run(()).is_ok());
    assert!(op.run(()).is_ok());
}

#[test]
fn fallible_op_with_zero_failures_succeeds_immediately() {
    let mut op = FallibleOp::new(VirtualClock::default(), 0);

    assert!(op.run(()).is_ok());
    assert_eq!(op.times_to_fail, 0);
}

#[test]
fn fallible_run_takes_no_simulated_time() {
    let mut op = FallibleOp::new(VirtualClock::at(InstantNs::from_nanos(3)), 1);

    let (elapsed, result) = op.timed_run(());

    assert_eq!(elapsed, DurationNs::from_nanos(0));
    assert!(result.is_err());
}

#[test]
fn virtual_race_of_an_instant_run_returns_its_output_immediately() {
    let mut op = FallibleOp::new(VirtualClock::at(InstantNs::from_nanos(44)), 0);

    let (elapsed, output) = op.timed_run_with_timeout((), DurationNs::from_millis(500));

    assert_eq!(elapsed, DurationNs::from_nanos(0));
    assert_eq!(output, Some(Ok(())));
}

#[test]
fn real_race_runs_a_fork_and_leaves_the_operation_state_in_place() {
    let mut op = FallibleOp::new(MonotonicClock::default(), 2);

    let output = op.run_with_timeout((), DurationNs::from_millis(5_000));

    assert_eq!(output, Some(Err(())));
    assert_eq!(op.times_to_fail, 2);
}

#[test]
fn timed_run_reports_the_run_output_alongside_the_elapsed_time() {
    let mut op = FallibleOp::new(VirtualClock::default(), 1);

    let (_elapsed, first) = op.timed_run(());
    let (_elapsed, second) = op.timed_run(());

    assert_eq!(first, Err(()));
    assert_eq!(second, Ok(()));
}
