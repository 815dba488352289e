//! Laws of the retry policy and of runs of the combinator. The facts named
//! "of one resume call that finishes with a failure" are exactly what
//! `Backoff::resume` ensures of such a call: the finishing failure was denied
//! a retry (or met the counter ceiling), and every failure retried within the
//! call was allowed.

use vstd::prelude::*;
use crate::policy::RetryPolicy;

verus! {

/// With an attempt limit alone, a failure is retried exactly when fewer than
/// `n` attempts have failed, the one that just failed included.
pub proof fn lemma_try_limit_alone(p: RetryPolicy, elapsed: u128, tried: u64, n: u64)
    requires
        p.max_tries == Some(n),
        p.max_time is None,
    ensures
        p.spec_allows_retry(elapsed, tried) <==> tried < n,
{
}

/// With a time limit alone, a failure is retried exactly when the elapsed
/// time has not strictly exceeded the budget: a failure at the boundary is
/// still retried.
pub proof fn lemma_time_limit_alone(p: RetryPolicy, elapsed: u128, tried: u64, t: u128)
    requires
        p.max_time == Some(t),
        p.max_tries is None,
    ensures
        p.spec_allows_retry(elapsed, tried) <==> elapsed <= t,
{
}

/// With both limits set, retry is allowed exactly when each limit alone would
/// allow it: the two conditions are evaluated independently at each failure,
/// and whichever trips first finalizes the run.
pub proof fn lemma_limits_independent(
    p: RetryPolicy,
    p_time: RetryPolicy,
    p_tries: RetryPolicy,
    elapsed: u128,
    tried: u64,
)
    requires
        p_time.max_time == p.max_time,
        p_time.max_tries is None,
        p_tries.max_tries == p.max_tries,
        p_tries.max_time is None,
    ensures
        p.spec_allows_retry(elapsed, tried) <==> (p_time.spec_allows_retry(elapsed, tried)
            && p_tries.spec_allows_retry(elapsed, tried)),
{
}

/// With neither limit set, every failure is retried, whatever the elapsed
/// time and the count.
pub proof fn lemma_unbounded_always_retries(p: RetryPolicy, elapsed: u128, tried: u64)
    requires
        p.max_tries is None,
        p.max_time is None,
    ensures
        p.spec_allows_retry(elapsed, tried),
{
}

/// Under an attempt limit `n` whose time budget was not exceeded: a resume
/// call entered with `t0 < n` failures consumed that finishes with a failure
/// leaves exactly `n` failures consumed. Since the factory is invoked once per
/// recorded failure on such a run, it is invoked exactly `n` times in all.
pub proof fn lemma_tries_decide_finish(
    p: RetryPolicy,
    elapsed: u128,
    t0: u64,
    t1: u64,
    n: u64,
)
    requires
        p.max_tries == Some(n),
        !p.time_exceeded(elapsed),
        t0 < n,
        t0 <= t1,
        // of one resume call that finishes with a failure:
        !p.spec_allows_retry(elapsed, t1) || t1 == u64::MAX,
        forall|t: u64| t0 < t < t1 ==> p.spec_allows_retry(elapsed, t),
    ensures
        t1 == n,
{
    if t1 > n {
        assert(p.spec_allows_retry(elapsed, n));
    }
}

/// Under a time limit alone: a resume call that finishes with a failure
/// before the counter ceiling does so only because the cumulative elapsed
/// time strictly exceeded the budget at the moment of that failure.
pub proof fn lemma_time_decides_finish(p: RetryPolicy, elapsed: u128, t1: u64, t: u128)
    requires
        p.max_time == Some(t),
        p.max_tries is None,
        t1 < u64::MAX,
        // of one resume call that finishes with a failure:
        !p.spec_allows_retry(elapsed, t1) || t1 == u64::MAX,
    ensures
        elapsed > t,
{
}

/// With neither limit set, no failure below the counter ceiling finishes a
/// run: the combinator retries without bound.
pub proof fn lemma_unbounded_never_finishes(p: RetryPolicy, elapsed: u128, t1: u64)
    requires
        p.max_tries is None,
        p.max_time is None,
        // of one resume call that finishes with a failure:
        !p.spec_allows_retry(elapsed, t1) || t1 == u64::MAX,
    ensures
        t1 == u64::MAX,
{
}

} // verus!
