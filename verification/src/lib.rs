//! Deterministic testing of time-sensitive operations.
//!
//! The passage of time is abstracted behind a capability interface: a pair of
//! time-value traits ([`IInstant`], [`IDuration`]) with overflow-checked
//! arithmetic, and a monotonic clock trait ([`IMonotonicClock`]) whose
//! samples never decrease. [`InstantNs`] and [`DurationNs`] are the concrete
//! nanosecond-precision time values; [`MonotonicClock`] reads the host's
//! monotonic timer, while [`VirtualClock`] advances programmatically so tests
//! can simulate arbitrarily long latencies instantly.
//!
//! On top of the clocks, [`TestOp`] is a unit of work owning a clock, with a
//! timed-execution engine: `timed_run` measures how long a run takes, and
//! `timed_run_with_timeout` races a run against a timeout, abandoning the
//! losing branch. On a virtual clock the race is deterministic: the run's
//! output is returned exactly when its latency is under the timeout, and the
//! elapsed time is exactly the winner's. [`LatencyOp`] and [`FallibleOp`] are
//! example operations driven by the engine.

mod clock;
mod op;
mod time;
mod timeout;
mod traits;

pub use {
    clock::{ClockOverflow, MonotonicClock, VirtualClock},
    op::{
        lemma_fallible_run_sequence, lemma_latency_race_exact, remaining_failures, FallibleOp,
        LatencyOp,
    },
    time::{DurationNs, InstantNs},
    timeout::{race_outcome, TestOp},
    traits::{advanced, IDuration, IInstant, IMonotonicClock},
};
