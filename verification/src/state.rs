//! The state machine's data: the attempt window, the final outcome, and the
//! lifecycle states of the combinator.

use vstd::prelude::*;
use crate::policy::RetryPolicy;

verus! {

/// Bookkeeping for the retry sequence: when the first attempt began (a
/// monotonic clock reading in nanoseconds) and how many failed attempts have
/// been observed. `started` is set exactly once, at the first attempt, and is
/// never reset; `tried` only ever grows, by one per observed failure.
#[derive(Clone, Copy)]
pub struct AttemptWindow {
    pub started: u128,
    pub tried: u64,
}

impl AttemptWindow {
    /// Records one observed failure and reports whether the policy permits
    /// another attempt: the failure count grows by exactly one, and the
    /// decision is taken on the time elapsed since the window began and the
    /// count with the new failure included.
    pub fn record_failure(&mut self, policy: &RetryPolicy, now: u128) -> (retry: bool)
        requires
            now >= old(self).started,
            old(self).tried < u64::MAX,
        ensures
            final(self).started == old(self).started,
            final(self).tried == old(self).tried + 1,
            retry == policy.spec_allows_retry((now - old(self).started) as u128, final(self).tried),
    {
        self.tried = self.tried + 1;
        policy.allows_retry(now - self.started, self.tried)
    }
}

/// The final report of the combinator: the wrapped operation's success value
/// or its error, passed through unchanged. Exhaustion is not a distinct
/// error: the last attempt's error is surfaced verbatim.
pub enum Outcome<Item, Error> {
    Success(Item),
    Failure(Error),
}

/// The lifecycle of the combinator. `Idle` is initial; `InFlight` owns exactly
/// one live operation instance; `Finished` is terminal and absorbing.
pub enum RetryState<Item, Error, Op> {
    /// No attempt has been made yet.
    Idle,
    /// One attempt is live; the window spans all attempts so far.
    InFlight { window: AttemptWindow, operation: Op },
    /// Terminal. The window is kept so that the consumed attempts stay
    /// observable; no transition leaves this state.
    Finished { window: AttemptWindow, outcome: Outcome<Item, Error> },
    /// Placeholder held only while a transition moves the current state out
    /// and writes the next one back; never observable between resume calls.
    Transitional,
}

impl<Item, Error, Op> RetryState<Item, Error, Op> {
    /// The attempt window, once the first attempt has begun.
    pub open spec fn spec_window(self) -> Option<AttemptWindow> {
        match self {
            RetryState::Idle => None,
            RetryState::InFlight { window, .. } => Some(window),
            RetryState::Finished { window, .. } => Some(window),
            RetryState::Transitional => None,
        }
    }
}

} // verus!
