//! The driver: the externally visible combinator. It owns the factory, the
//! policy and the state machine, and exposes the single `resume` operation an
//! external scheduler calls repeatedly until the work completes.

use vstd::prelude::*;
use vstd::pervasive::unreached;
use crate::policy::{nanos_of_secs, RetryPolicy};
use crate::state::{AttemptWindow, Outcome, RetryState};

verus! {

/// What one query of an asynchronous operation reports: completion with a
/// value, not yet ready, or completion with an error.
pub enum OpPoll<Item, Error> {
    Done(Item),
    NotReady,
    Failed(Error),
}

/// A value representing deferred work. Each `poll` advances it and reports a
/// final value, a final error, or not yet ready; `Ctx` is the scheduler
/// context threaded through unchanged. Nothing is promised of an
/// implementation: the combinator is verified against every possible reply.
pub trait Operation<Ctx, Item, Error> {
    fn poll(&mut self, ctx: &mut Ctx) -> OpPoll<Item, Error>;
}

/// What one resume call reports to the driving scheduler: the combinator
/// holds a final outcome, or the live operation is not yet ready.
#[derive(Clone, Copy, PartialEq, Eq, Structural, Debug)]
pub enum Resumption {
    Ready,
    Suspended,
}

/// The retry combinator: a factory producing a fresh operation per attempt,
/// the policy limiting the attempts, and the current lifecycle state. It is
/// driven by a single external scheduler through `resume`, which takes one
/// monotonic clock reading per call: every failure observed within one resume
/// call is judged at that one reading, so an attempt that runs long inside a
/// single poll is judged at the reading its resume call began with.
#[verifier::reject_recursive_types(Op)]
pub struct Backoff<Item, Error, Op, F> where F: Fn() -> Op {
    pub state: RetryState<Item, Error, Op>,
    pub func: F,
    pub policy: RetryPolicy,
    /// How often the factory has been invoked.
    pub invoked: Ghost<int>,
}

impl<Item, Error, Op, F> Backoff<Item, Error, Op, F> where F: Fn() -> Op {
    /// The combinator as it stands between resume calls: never left in the
    /// transitional placeholder, and its factory invokable.
    pub open spec fn wf(self) -> bool {
        &&& !(self.state is Transitional)
        &&& call_requires(self.func, ())
    }

    /// The attempt window, once the first attempt has begun.
    pub open spec fn spec_window(self) -> Option<AttemptWindow> {
        self.state.spec_window()
    }

    /// The recorded start of the first attempt, or `or` before it.
    pub open spec fn spec_started_or(self, or: u128) -> u128 {
        match self.spec_window() {
            Some(w) => w.started,
            None => or,
        }
    }

    /// Failures consumed so far; zero before the first attempt.
    pub open spec fn spec_tried(self) -> u64 {
        match self.spec_window() {
            Some(w) => w.tried,
            None => 0,
        }
    }

    /// True once the combinator holds a final failure.
    pub open spec fn spec_failed(self) -> bool {
        self.state matches RetryState::Finished { outcome: Outcome::Failure(_), .. }
    }

    /// True when `now` is no earlier than the recorded start of the first
    /// attempt: what a monotonic clock guarantees of every later reading.
    pub open spec fn clock_ok(self, now: u128) -> bool {
        match self.spec_window() {
            Some(w) => now >= w.started,
            None => true,
        }
    }

    /// A fresh combinator in `Idle`, holding the factory and the policy built
    /// from an optional attempt limit and an optional time budget in whole
    /// seconds.
    pub fn new(max_tries: Option<u64>, max_time: Option<u64>, func: F) -> (b: Self)
        requires
            call_requires(func, ()),
        ensures
            b.wf(),
            b.state is Idle,
            b.func == func,
            b.invoked@ == 0,
            b.policy.max_tries == max_tries,
            b.policy.max_time == (match max_time {
                Some(secs) => Some(nanos_of_secs(secs)),
                None => None::<u128>,
            }),
    {
        Backoff {
            state: RetryState::Idle,
            func,
            policy: RetryPolicy::new(max_tries, max_time),
            invoked: Ghost(0),
        }
    }

    /// The final outcome, once the combinator has finished; reading it any
    /// number of times returns the same value and touches nothing.
    pub fn outcome(&self) -> (o: Option<&Outcome<Item, Error>>)
        ensures
            (match self.state {
                RetryState::Finished { outcome, .. } => (o matches Some(x) && *x == outcome),
                _ => o is None,
            }),
    {
        match &self.state {
            RetryState::Finished { outcome, .. } => Some(outcome),
            _ => None,
        }
    }

    /// The state machine's reaction to one reply of the live operation,
    /// pinned for each value of the reply: a success finishes with exactly the
    /// reported value and the window untouched; not ready keeps the window and
    /// the operation and suspends; a failure is recorded in the window and
    /// either finishes with exactly that error, when the policy denies another
    /// attempt (or the counter is at the top of its range), or is absorbed by
    /// invoking the factory for a fresh operation, reported by returning no
    /// resumption so that the caller goes at once to the new attempt.
    pub fn on_reply(
        &mut self,
        now: u128,
        window: AttemptWindow,
        operation: Op,
        reply: OpPoll<Item, Error>,
    ) -> (r: Option<Resumption>)
        requires
            call_requires(old(self).func, ()),
            now >= window.started,
        ensures
            final(self).wf(),
            final(self).func == old(self).func,
            final(self).policy == old(self).policy,
            final(self).invoked@ == old(self).invoked@ + (if r is None {
                1int
            } else {
                0int
            }),
            (match reply {
                OpPoll::Done(value) => {
                    &&& r == Some(Resumption::Ready)
                    &&& final(self).state == (RetryState::<Item, Error, Op>::Finished {
                        window,
                        outcome: Outcome::Success(value),
                    })
                },
                OpPoll::NotReady => {
                    &&& r == Some(Resumption::Suspended)
                    &&& final(self).state == (RetryState::<Item, Error, Op>::InFlight {
                        window,
                        operation,
                    })
                },
                OpPoll::Failed(error) => {
                    let recorded = AttemptWindow {
                        started: window.started,
                        tried: if window.tried < u64::MAX {
                            (window.tried + 1) as u64
                        } else {
                            window.tried
                        },
                    };
                    let denied = !old(self).policy.spec_allows_retry(
                        (now - window.started) as u128,
                        recorded.tried,
                    ) || window.tried == u64::MAX;
                    if denied {
                        &&& r == Some(Resumption::Ready)
                        &&& final(self).state == (RetryState::<Item, Error, Op>::Finished {
                            window: recorded,
                            outcome: Outcome::Failure(error),
                        })
                    } else {
                        &&& r is None
                        &&& (final(self).state matches RetryState::InFlight {
                            window: w,
                            operation: fresh,
                        } && w == recorded && call_ensures(old(self).func, (), fresh))
                    }
                },
            }),
    {
        match reply {
            OpPoll::Done(value) => {
                self.state = RetryState::Finished { window, outcome: Outcome::Success(value) };
                Some(Resumption::Ready)
            },
            OpPoll::NotReady => {
                self.state = RetryState::InFlight { window, operation };
                Some(Resumption::Suspended)
            },
            OpPoll::Failed(error) => {
                if window.tried == u64::MAX {
                    // The window cannot record another attempt: the counter is
                    // at the top of its range.
                    self.state = RetryState::Finished { window, outcome: Outcome::Failure(error) };
                    return Some(Resumption::Ready);
                }
                let mut recorded = window;
                let retry = recorded.record_failure(&self.policy, now);
                if retry {
                    let fresh = (self.func)();
                    self.invoked = Ghost(self.invoked@ + 1);
                    self.state = RetryState::InFlight { window: recorded, operation: fresh };
                    None
                } else {
                    self.state = RetryState::Finished {
                        window: recorded,
                        outcome: Outcome::Failure(error),
                    };
                    Some(Resumption::Ready)
                }
            },
        }
    }

    /// Advances the state machine until the live operation reports not ready
    /// or a final outcome is reached. From `Idle` the factory is invoked and
    /// the window opens at `now`; each failure is recorded in the window and
    /// retried with a fresh operation exactly when the policy allows it, all
    /// within this one call; `Finished` is absorbing and is reported again
    /// with nothing touched. `now` is a monotonic clock reading in
    /// nanoseconds, sampled by the scheduler for this call: every failure
    /// observed in this call is judged at `now`. One machine limit: a failure
    /// arriving with the counter at the top of its range is not retried, since
    /// the window cannot record another attempt.
    pub fn resume<Ctx>(&mut self, now: u128, ctx: &mut Ctx) -> (r: Resumption) where
        Op: Operation<Ctx, Item, Error>,
        requires
            old(self).wf(),
            old(self).clock_ok(now),
        ensures
            final(self).wf(),
            final(self).func == old(self).func,
            final(self).policy == old(self).policy,
            (r is Ready) == (final(self).state is Finished),
            (r is Suspended) == (final(self).state is InFlight),
            // Finished is absorbing: resuming it returns the outcome again and
            // changes nothing at all.
            old(self).state is Finished ==> *final(self) == *old(self),
            // The window opens at `now` on the first attempt and never reopens;
            // the failure count never shrinks.
            (final(self).spec_window() matches Some(w1) ==> w1.started == old(self).spec_started_or(
                now,
            )),
            final(self).spec_tried() >= old(self).spec_tried(),
            // The factory is invoked once to enter the window and once per
            // retried failure (exact while the failure counter is in range).
            (final(self).spec_tried() < u64::MAX ==> final(self).invoked@ == old(self).invoked@ + (
            if old(self).state is Idle && !(final(self).state is Idle) {
                1int
            } else {
                0int
            }) + (final(self).spec_tried() - old(self).spec_tried()) - (
            if !(old(self).state is Finished) && final(self).spec_failed() {
                1int
            } else {
                0int
            })),
            // Every failure this call retried was allowed by the policy, and a
            // failure that finishes this call was denied: the limits decide.
            !(old(self).state is Finished) ==> ({
                let elapsed = (now - old(self).spec_started_or(now)) as u128;
                let t0 = old(self).spec_tried();
                let t1 = final(self).spec_tried();
                &&& (final(self).spec_failed() ==> (!old(self).policy.spec_allows_retry(
                    elapsed,
                    t1,
                ) || t1 == u64::MAX))
                &&& (forall|t: u64|
                    t0 < t < t1 ==> old(self).policy.spec_allows_retry(elapsed, t))
                &&& (!final(self).spec_failed() ==> forall|t: u64|
                    t0 < t <= t1 ==> old(self).policy.spec_allows_retry(elapsed, t))
            }),
    {
        match &self.state {
            RetryState::Finished { .. } => {
                return Resumption::Ready;
            },
            _ => {},
        }
        loop
            invariant
                self.state is Idle || self.state is InFlight,
                call_requires(self.func, ()),
                self.func == old(self).func,
                self.policy == old(self).policy,
                !(old(self).state is Finished),
                self.clock_ok(now),
                self.state is Idle ==> *self == *old(self),
                (self.spec_window() matches Some(w) ==> w.started == old(self).spec_started_or(
                    now,
                )),
                self.spec_tried() >= old(self).spec_tried(),
                (self.spec_tried() < u64::MAX ==> self.invoked@ == old(self).invoked@ + (
                if old(self).state is Idle && !(self.state is Idle) {
                    1int
                } else {
                    0int
                }) + (self.spec_tried() - old(self).spec_tried())),
                ({
                    let elapsed = (now - old(self).spec_started_or(now)) as u128;
                    let t0 = old(self).spec_tried();
                    forall|t: u64|
                        t0 < t <= self.spec_tried() ==> old(self).policy.spec_allows_retry(
                            elapsed,
                            t,
                        )
                }),
            decreases (if self.state is Idle {
                1int
            } else {
                0int
            }), u64::MAX - self.spec_tried(),
        {
            let mut current = RetryState::Transitional;
            core::mem::swap(&mut current, &mut self.state);
            match current {
                RetryState::Idle => {
                    let operation = (self.func)();
                    self.invoked = Ghost(self.invoked@ + 1);
                    self.state = RetryState::InFlight {
                        window: AttemptWindow { started: now, tried: 0 },
                        operation,
                    };
                },
                RetryState::InFlight { window, mut operation } => {
                    let reply = operation.poll(ctx);
                    match self.on_reply(now, window, operation, reply) {
                        Some(resumption) => {
                            return resumption;
                        },
                        None => {},
                    }
                },
                // Reading the transitional placeholder, or looping back to an
                // absorbing state, is proved impossible.
                _ => unreached(),
            }
        }
    }
}

} // verus!
