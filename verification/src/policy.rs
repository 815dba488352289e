//! The policy evaluator: the pure decision of whether a failed attempt may be
//! retried, given the elapsed time since the first attempt and the number of
//! failures consumed so far.

use vstd::prelude::*;

verus! {

/// Nanoseconds in one second; the time budget is handed in as whole seconds
/// and kept in nanoseconds, the unit of the clock readings.
pub const NANOS_PER_SEC: u128 = 1_000_000_000;

/// The time budget of `secs` whole seconds, in nanoseconds.
pub open spec fn nanos_of_secs(secs: u64) -> u128 {
    (secs as int * NANOS_PER_SEC as int) as u128
}

/// The two optional limits governing retries: a maximum attempt count and a
/// maximum cumulative elapsed time in nanoseconds, measured from the start of
/// the first attempt. Immutable after construction.
#[derive(Clone, Copy)]
pub struct RetryPolicy {
    pub max_tries: Option<u64>,
    pub max_time: Option<u128>,
}

impl RetryPolicy {
    /// True when a time limit is set and `elapsed` strictly exceeds it. A
    /// failure occurring exactly at the boundary is still retried.
    pub open spec fn time_exceeded(self, elapsed: u128) -> bool {
        match self.max_time {
            Some(t) => elapsed > t,
            None => false,
        }
    }

    /// True when an attempt limit is set and `tried` failures have consumed it.
    pub open spec fn tries_exhausted(self, tried: u64) -> bool {
        match self.max_tries {
            Some(n) => tried >= n,
            None => false,
        }
    }

    /// Whether one more attempt is permitted after a failure observed `elapsed`
    /// nanoseconds after the first attempt began, with `tried` failures
    /// consumed, the attempt that just failed included. Retry is disallowed
    /// exactly when the time budget is strictly exceeded or the attempt budget
    /// is used up; with both limits unset it is always allowed.
    pub open spec fn spec_allows_retry(self, elapsed: u128, tried: u64) -> bool {
        !(self.time_exceeded(elapsed) || self.tries_exhausted(tried))
    }

    /// The policy built from an optional attempt limit and an optional time
    /// budget in whole seconds.
    pub fn new(max_tries: Option<u64>, max_time_secs: Option<u64>) -> (p: RetryPolicy)
        ensures
            p.max_tries == max_tries,
            p.max_time == (match max_time_secs {
                Some(secs) => Some(nanos_of_secs(secs)),
                None => None::<u128>,
            }),
    {
        let max_time = match max_time_secs {
            Some(secs) => Some((secs as u128) * NANOS_PER_SEC),
            None => None,
        };
        RetryPolicy { max_tries, max_time }
    }

    /// The retry decision, exactly as `spec_allows_retry` states it.
    pub fn allows_retry(&self, elapsed: u128, tried: u64) -> (r: bool)
        ensures
            r == self.spec_allows_retry(elapsed, tried),
    {
        let time_ok = match self.max_time {
            Some(t) => elapsed <= t,
            None => true,
        };
        let tries_ok = match self.max_tries {
            Some(n) => tried < n,
            None => true,
        };
        time_ok && tries_ok
    }
}

} // verus!
