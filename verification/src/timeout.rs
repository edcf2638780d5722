//! The operation contract and the timed-execution engine.
//!
//! A [`TestOp`] is a unit of work owning a monotonic clock. The engine's
//! provided methods measure how long a run takes (`timed_run`) and race a run
//! against a timeout (`timed_run_with_timeout`). The race spawns two
//! independently-scheduled branches — a watchdog that sleeps for the timeout,
//! and a worker that runs the operation — each on its own forked clock, and
//! resolves on the first message through a channel; the losing branch is
//! abandoned, not cancelled. On a passive clock no real time passes, so the
//! race is instead resolved deterministically: the worker's simulated elapsed
//! time is measured on a fork and compared against the timeout, and the
//! outcome is exactly [`race_outcome`].

use crate::traits::{advanced, IDuration, IInstant, IMonotonicClock};
use vstd::prelude::*;

verus! {

/// Relies on `threadpool::ThreadPool`: `new(1)` starts one worker thread and
/// `execute` hands `task` to it, returning at once. The pool handle is
/// dropped without joining, so the task runs to completion in the background
/// — exactly the fire-and-forget branch the race needs. The task itself is
/// verified: its obligations are checked here, at the spawn.
#[verifier::external_body]
fn spawn_task<F: FnOnce() + Send + 'static>(task: F)
    requires
        task.requires(()),
{
    threadpool::ThreadPool::new(1).execute(task);
}

/// `std::sync::mpsc::Sender`, declared so the race's branches can report to
/// its resolution point.
#[verifier::external_type_specification]
#[verifier::external_body]
#[verifier::reject_recursive_types(T)]
pub struct ExSender<T>(std::sync::mpsc::Sender<T>);

/// `std::sync::mpsc::Receiver`, the race's single consumer.
#[verifier::external_type_specification]
#[verifier::external_body]
#[verifier::reject_recursive_types(T)]
pub struct ExReceiver<T>(std::sync::mpsc::Receiver<T>);

/// Relies on `std::sync::mpsc::channel`: a fresh channel whose receiver
/// blocks in `recv` until some sender has sent.
#[verifier::external_body]
fn channel_endpoints<T>() -> (std::sync::mpsc::Sender<T>, std::sync::mpsc::Receiver<T>) {
    std::sync::mpsc::channel()
}

/// Relies on `std::sync::mpsc::Sender::clone`: a second producer handle for
/// the same channel.
#[verifier::external_body]
fn fork_sender<T>(tx: &std::sync::mpsc::Sender<T>) -> std::sync::mpsc::Sender<T> {
    tx.clone()
}

/// Relies on `std::sync::mpsc::Sender::send`: hands `message` to the channel.
/// A send after the receiver is gone reports an error, which is dropped here:
/// the race abandons its losing branch, so the branch's late message has no
/// observable effect.
#[verifier::external_body]
fn send_message<T>(tx: &std::sync::mpsc::Sender<T>, message: T) {
    let _ = tx.send(message);
}

/// Relies on `std::sync::mpsc::Receiver::recv`: blocks until the first
/// message arrives and returns it; none if every producer went away without
/// sending.
#[verifier::external_body]
fn receive_message<T>(rx: &std::sync::mpsc::Receiver<T>) -> Option<T> {
    rx.recv().ok()
}

/// How the race between a run of an operation and a timeout resolves on a
/// passive clock, over the clock's timeline positions: the clock stood at
/// `pre` when the race began and at `post` when it ended, a fork running the
/// operation advanced its own clock from `pre` to `probe`, and the timeline
/// saturates at `limit`. The run finishes first (`finished`) if and only if
/// its elapsed time is strictly under the timeout, and the racing clock
/// advances by exactly the winning branch's time, `min(elapsed, timeout)`.
pub open spec fn race_outcome(
    pre: int,
    probe: int,
    timeout: int,
    post: int,
    limit: int,
    finished: bool,
) -> bool {
    let elapsed: int = probe - pre;
    let winner: int = if elapsed < timeout {
        elapsed
    } else {
        timeout
    };
    &&& (finished <==> elapsed < timeout)
    &&& post == advanced(pre, winner, limit)
}

/// Any operation for which the time it takes to execute is significant.
///
/// The operation owns a mutable [`IMonotonicClock`], which the engine's
/// provided methods use to drive timing. This enables testing with either
/// real host time or with a virtual clock simulating the passage of time.
pub trait TestOp<TClock: IMonotonicClock>: Sized {
    type Input;

    type Output;

    /// View of the owned clock.
    spec fn clk(&self) -> TClock;

    /// This operation with its clock replaced by `c` and nothing else
    /// changed.
    spec fn with_clk(&self, c: TClock) -> Self;

    /// When `run` may be called.
    spec fn run_req(&self, input: Self::Input) -> bool;

    /// What a completed `run` did: relates the operation's state before the
    /// call to its state after it and to the output.
    spec fn run_post(&self, input: Self::Input, post: Self, output: Self::Output) -> bool;

    /// Replacing the clock touches nothing else: the replacement is kept
    /// exactly, replacing a clock by itself changes nothing, only the last
    /// replacement counts, and `run`'s precondition does not depend on the
    /// clock.
    proof fn lemma_with_clk(&self, a: TClock, b: TClock)
        ensures
            self.with_clk(a).clk() == a,
            a == self.clk() ==> self.with_clk(a) == *self,
            self.with_clk(a).with_clk(b) == self.with_clk(b),
            forall|input: Self::Input| self.with_clk(a).run_req(input) == self.run_req(input),
    ;

    /// Access to the owned clock, for the engine to drive timing.
    fn clock(&mut self) -> (c: &mut TClock)
        ensures
            *c == old(self).clk(),
            *final(self) == old(self).with_clk(*final(c)),
    ;

    /// An independent copy of this operation, clock included, so that a race
    /// branch can run it in a freshly-relocated execution context.
    fn fork(&self) -> (other: Self)
        ensures
            other == *self,
    ;

    /// Runs this operation. A run may consult and advance the owned clock,
    /// but never rewinds it.
    fn run(&mut self, input: Self::Input) -> (output: Self::Output)
        requires
            old(self).run_req(input),
        ensures
            old(self).run_post(input, *final(self), output),
            old(self).clk().current() <= final(self).clk().current(),
    ;

    /// Measures how long it takes to run this operation: the elapsed time
    /// between two clock samples taken around the run, and the run's output.
    ///
    /// The clock's monotonicity contract proves the elapsed time can never
    /// come out negative, so the subtraction below never fails: a clock that
    /// could rewind, or an operation that rewound it, would not verify.
    ///
    /// On a passive clock the measurement is exact: the elapsed time is
    /// precisely the distance the run advanced the clock.
    fn timed_run(&mut self, input: Self::Input) -> (r: (TClock::Duration, Self::Output))
        requires
            old(self).run_req(input),
        ensures
            old(self).clk().current() <= final(self).clk().current(),
            0 <= r.0.dvw() <= final(self).clk().current() - old(self).clk().current(),
            TClock::passive() ==> old(self).run_post(input, *final(self), r.1) && r.0.dvw()
                == final(self).clk().current() - old(self).clk().current(),
    {
        let ghost s0 = *self;
        let c_start = self.clock();
        let start = c_start.now();
        let ghost cl1 = *c_start;
        proof {
            s0.lemma_with_clk(cl1, cl1);
        }
        let output = self.run(input);
        let ghost s2 = *self;
        let c_stop = self.clock();
        let stop = c_stop.now();
        let ghost cl3 = *c_stop;
        proof {
            s2.lemma_with_clk(cl3, cl3);
        }
        let elapsed = stop.checked_duration_since(start);
        (elapsed.unwrap(), output)
    }

    /// Races one run of this operation against a timeout and returns the
    /// winning branch's report: the run's output if the run finished first,
    /// none if the timeout did.
    ///
    /// On a real clock, two independently-scheduled branches — a watchdog
    /// sleeping for the timeout and a worker running a fork of the operation
    /// — report to a channel, and the first message wins; the loser is
    /// abandoned, so the fork's state changes are discarded and this
    /// operation's own state is left in place. On a passive clock the same
    /// race is resolved deterministically, with the outcome [`race_outcome`]:
    /// the worker's simulated elapsed time is measured on a fork, and this
    /// operation's clock advances by the winning branch's time.
    fn run_with_timeout(&mut self, input: Self::Input, timeout: TClock::Duration) -> (output:
        Option<Self::Output>) where
        Self: Send + 'static,
        Self::Input: Send + 'static,
        Self::Output: Send + 'static,
        TClock: Send + 'static,
        TClock::Duration: Send,

        requires
            old(self).run_req(input),
        ensures
            old(self).clk().current() <= final(self).clk().current(),
            *final(self) == old(self).with_clk(final(self).clk()),
            !TClock::passive() ==> *final(self) == *old(self),
            TClock::passive() ==> (exists|probe: Self, out: Self::Output|
                #![trigger old(self).run_post(input, probe, out)]
                {
                    &&& old(self).run_post(input, probe, out)
                    &&& race_outcome(
                        old(self).clk().current(),
                        probe.clk().current(),
                        timeout.dvw(),
                        final(self).clk().current(),
                        <TClock::Instant as IInstant>::imax(),
                        output is Some,
                    )
                    &&& (probe.clk().current() - old(self).clk().current() < timeout.dvw()
                        ==> output == Some(out))
                }),
    {
        let ghost s0 = *self;
        if TClock::is_passive() {
            let mut probe = self.fork();
            let (elapsed, out) = probe.timed_run(input);
            if elapsed.shorter_than(&timeout) {
                let c = self.clock();
                c.sleep(&elapsed);
                let ghost cl = *c;
                proof {
                    s0.lemma_with_clk(cl, cl);
                    assert(s0.run_post(input, probe, out));
                }
                Some(out)
            } else {
                let c = self.clock();
                c.sleep(&timeout);
                let ghost cl = *c;
                proof {
                    s0.lemma_with_clk(cl, cl);
                    assert(s0.run_post(input, probe, out));
                }
                None
            }
        } else {
            let mut clock_source = self.fork();
            let watchdog_clock = clock_source.clock().fork();
            let worker = self.fork();
            let (tx, rx) = channel_endpoints::<Option<Self::Output>>();
            let watchdog_tx = fork_sender(&tx);
            spawn_task(move || {
                let mut branch_clock = watchdog_clock;
                branch_clock.sleep(&timeout);
                send_message(&watchdog_tx, None);
            });
            spawn_task(move || {
                let mut branch_op = worker;
                let out = branch_op.run(input);
                send_message(&tx, Some(out));
            });
            proof {
                s0.lemma_with_clk(s0.clk(), s0.clk());
            }
            match receive_message(&rx) {
                Some(Some(out)) => Some(out),
                _ => None,
            }
        }
    }

    /// Measures how long the race of [`TestOp::run_with_timeout`] takes on
    /// this operation's own clock and returns the elapsed time along with the
    /// winning branch's report.
    ///
    /// On a passive clock the result is exact: the race takes precisely the
    /// winning branch's time, `min(run's elapsed, timeout)`. On a real clock
    /// the elapsed time is whatever truly passed, which exceeds the winner's
    /// time only by scheduling overhead — a bound that real scheduling cannot
    /// guarantee, so it is not promised here.
    fn timed_run_with_timeout(&mut self, input: Self::Input, timeout: TClock::Duration) -> (r: (
        TClock::Duration,
        Option<Self::Output>,
    )) where
        Self: Send + 'static,
        Self::Input: Send + 'static,
        Self::Output: Send + 'static,
        TClock: Send + 'static,
        TClock::Duration: Send,

        requires
            old(self).run_req(input),
        ensures
            old(self).clk().current() <= final(self).clk().current(),
            *final(self) == old(self).with_clk(final(self).clk()),
            0 <= r.0.dvw() <= final(self).clk().current() - old(self).clk().current(),
            TClock::passive() ==> r.0.dvw() == final(self).clk().current() - old(
                self,
            ).clk().current(),
            TClock::passive() ==> (exists|probe: Self, out: Self::Output|
                #![trigger old(self).run_post(input, probe, out)]
                {
                    &&& old(self).run_post(input, probe, out)
                    &&& race_outcome(
                        old(self).clk().current(),
                        probe.clk().current(),
                        timeout.dvw(),
                        final(self).clk().current(),
                        <TClock::Instant as IInstant>::imax(),
                        r.1 is Some,
                    )
                    &&& (probe.clk().current() - old(self).clk().current() < timeout.dvw()
                        ==> r.1 == Some(out))
                }),
    {
        let ghost s0 = *self;
        let c_start = self.clock();
        let start = c_start.now();
        let ghost cl1 = *c_start;
        proof {
            s0.lemma_with_clk(cl1, cl1);
        }
        let output = self.run_with_timeout(input, timeout);
        let ghost s2 = *self;
        proof {
            s0.lemma_with_clk(cl1, s2.clk());
        }
        let c_stop = self.clock();
        let stop = c_stop.now();
        let ghost cl3 = *c_stop;
        proof {
            s2.lemma_with_clk(cl3, cl3);
            s0.lemma_with_clk(s2.clk(), cl3);
        }
        let elapsed = stop.checked_duration_since(start);
        (elapsed.unwrap(), output)
    }
}

} // verus!
