//! Example operations that exercise the timed-execution engine: one whose run
//! takes a configured amount of clock time, and one that fails a bounded
//! number of times before succeeding.

use crate::clock::VirtualClock;
use crate::time::DurationNs;
use crate::timeout::{race_outcome, TestOp};
use crate::traits::{advanced, IDuration, IInstant, IMonotonicClock};
use vstd::prelude::*;

verus! {

/// An operation that takes at least the specified duration to run: each run
/// sleeps on the owned clock for the configured latency.
pub struct LatencyOp<TClock: IMonotonicClock> {
    /// The owned clock that runs sleep on.
    pub clock: TClock,
    /// The simulated latency of one run.
    pub latency: TClock::Duration,
}

impl<TClock: IMonotonicClock> LatencyOp<TClock> {
    /// An operation over `clock` whose every run takes `latency`.
    pub fn new(clock: TClock, latency: TClock::Duration) -> (op: LatencyOp<TClock>)
        ensures
            op.clk() == clock,
            op.latency == latency,
    {
        LatencyOp { clock, latency }
    }
}

impl<TClock: IMonotonicClock> TestOp<TClock> for LatencyOp<TClock> {
    type Input = ();

    type Output = ();

    open spec fn clk(&self) -> TClock {
        self.clock
    }

    open spec fn with_clk(&self, c: TClock) -> Self {
        LatencyOp { clock: c, latency: self.latency }
    }

    open spec fn run_req(&self, input: ()) -> bool {
        true
    }

    /// A run sleeps for the configured latency: it keeps the latency, never
    /// rewinds the clock, advances it by at least the latency whenever that
    /// stays within the representable range, and on a passive clock advances
    /// it by exactly the latency (saturating at the end of the range).
    open spec fn run_post(&self, input: (), post: Self, output: ()) -> bool {
        &&& post.latency == self.latency
        &&& self.clk().current() <= post.clk().current()
        &&& (self.clk().current() + self.latency.dvw() <= <TClock::Instant as IInstant>::imax()
            ==> post.clk().current() >= self.clk().current() + self.latency.dvw())
        &&& (TClock::passive() ==> post.clk().current() == advanced(
            self.clk().current(),
            self.latency.dvw(),
            <TClock::Instant as IInstant>::imax(),
        ))
    }

    proof fn lemma_with_clk(&self, a: TClock, b: TClock) {
        assert(self.with_clk(a) == (LatencyOp { clock: a, latency: self.latency }));
        assert(self.with_clk(b) == (LatencyOp { clock: b, latency: self.latency }));
    }

    fn clock(&mut self) -> (c: &mut TClock) {
        proof {
            assert(forall|x: TClock| #[trigger] self.with_clk(x) == (LatencyOp {
                clock: x,
                latency: self.latency,
            }));
        }
        &mut self.clock
    }

    fn fork(&self) -> (other: Self) {
        LatencyOp { clock: self.clock.fork(), latency: self.latency.fork() }
    }

    fn run(&mut self, input: ()) -> (output: ()) {
        let d = self.latency.fork();
        self.clock.sleep(&d);
    }
}

/// An operation that fails for some number of runs and then succeeds, to
/// simulate flaky work under retries.
pub struct FallibleOp<TClock: IMonotonicClock> {
    /// The owned clock; a run of this operation leaves it in place.
    pub clock: TClock,
    /// How many further runs will fail before the runs start succeeding.
    pub times_to_fail: u8,
}

impl<TClock: IMonotonicClock> FallibleOp<TClock> {
    /// An operation over `clock` whose first `times_to_fail` runs fail.
    pub fn new(clock: TClock, times_to_fail: u8) -> (op: FallibleOp<TClock>)
        ensures
            op.clk() == clock,
            op.times_to_fail == times_to_fail,
    {
        FallibleOp { clock, times_to_fail }
    }
}

impl<TClock: IMonotonicClock> TestOp<TClock> for FallibleOp<TClock> {
    type Input = ();

    type Output = Result<(), ()>;

    open spec fn clk(&self) -> TClock {
        self.clock
    }

    open spec fn with_clk(&self, c: TClock) -> Self {
        FallibleOp { clock: c, times_to_fail: self.times_to_fail }
    }

    open spec fn run_req(&self, input: ()) -> bool {
        true
    }

    /// A run leaves the clock in place. While failures remain it returns
    /// failure and counts one off; once none remain it succeeds and the count
    /// stays at zero.
    open spec fn run_post(&self, input: (), post: Self, output: Result<(), ()>) -> bool {
        &&& post.clk() == self.clk()
        &&& if self.times_to_fail == 0 {
            output == Result::<(), ()>::Ok(()) && post.times_to_fail == 0
        } else {
            output == Result::<(), ()>::Err(()) && post.times_to_fail == self.times_to_fail - 1
        }
    }

    proof fn lemma_with_clk(&self, a: TClock, b: TClock) {
        assert(self.with_clk(a) == (FallibleOp { clock: a, times_to_fail: self.times_to_fail }));
        assert(self.with_clk(b) == (FallibleOp { clock: b, times_to_fail: self.times_to_fail }));
    }

    fn clock(&mut self) -> (c: &mut TClock) {
        proof {
            assert(forall|x: TClock| #[trigger] self.with_clk(x) == (FallibleOp {
                clock: x,
                times_to_fail: self.times_to_fail,
            }));
        }
        &mut self.clock
    }

    fn fork(&self) -> (other: Self) {
        FallibleOp { clock: self.clock.fork(), times_to_fail: self.times_to_fail }
    }

    fn run(&mut self, input: ()) -> (output: Result<(), ()>) {
        if self.times_to_fail == 0 {
            Ok(())
        } else {
            self.times_to_fail = self.times_to_fail - 1;
            Err(())
        }
    }
}

/// How many failures a fail-`n`-times operation has left after `runs` runs.
pub open spec fn remaining_failures(n: nat, runs: nat) -> nat {
    if runs >= n {
        0
    } else {
        (n - runs) as nat
    }
}

/// A fail-`n`-times operation fails on each of its first `n` runs and
/// succeeds from run `n + 1` on, for every `n >= 0`: taking its next run as
/// run number `runs` (counting from zero), the run fails exactly when fewer
/// than `n` runs have happened before, and the remaining-failure count steps
/// down to what run number `runs + 1` expects.
pub proof fn lemma_fallible_run_sequence<TClock: IMonotonicClock>(
    pre: FallibleOp<TClock>,
    post: FallibleOp<TClock>,
    output: Result<(), ()>,
    n: nat,
    runs: nat,
)
    requires
        n <= u8::MAX,
        pre.times_to_fail == remaining_failures(n, runs),
        pre.run_post((), post, output),
    ensures
        output is Err <==> runs < n,
        post.times_to_fail == remaining_failures(n, runs + 1),
{
}

/// For a virtual clock and any non-overflowing combination of start instant,
/// latency and timeout: the timeout race of a latency operation returns an
/// output if and only if the latency is strictly under the timeout, and the
/// measured elapsed time is exactly the smaller of the two — no real
/// scheduling jitter. The premises are exactly what the engine's race
/// contract hands a caller: the fork's run report and the race's resolution.
pub proof fn lemma_latency_race_exact(
    pre: LatencyOp<VirtualClock>,
    probe: LatencyOp<VirtualClock>,
    timeout: DurationNs,
    post_current: int,
    finished: bool,
    elapsed: DurationNs,
)
    requires
        pre.clk().current() + pre.latency.dvw() <= u64::MAX,
        pre.clk().current() + timeout.dvw() <= u64::MAX,
        pre.run_post((), probe, ()),
        race_outcome(
            pre.clk().current(),
            probe.clk().current(),
            timeout.dvw(),
            post_current,
            u64::MAX as int,
            finished,
        ),
        elapsed.dvw() == post_current - pre.clk().current(),
    ensures
        finished <==> pre.latency.dvw() < timeout.dvw(),
        pre.latency.dvw() < timeout.dvw() ==> elapsed.dvw() == pre.latency.dvw(),
        timeout.dvw() <= pre.latency.dvw() ==> elapsed.dvw() == timeout.dvw(),
{
    pre.latency.lemma_dvw_in_range();
    timeout.lemma_dvw_in_range();
    pre.clk().lemma_current_in_range();
}

} // verus!
