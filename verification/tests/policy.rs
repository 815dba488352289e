//! Unit tests of the policy evaluator and the attempt window.

use backoff::{AttemptWindow, RetryPolicy};

#[test]
fn time_budget_is_kept_in_nanoseconds() {
    let p = RetryPolicy::new(None, Some(3));
    assert_eq!(p.max_time, Some(3_000_000_000u128));
    assert_eq!(p.max_tries, None);
}

#[test]
fn no_time_conversion_without_a_budget() {
    let p = RetryPolicy::new(Some(4), None);
    assert_eq!(p.max_time, None);
    assert_eq!(p.max_tries, Some(4));
}

#[test]
fn retry_allowed_until_tries_exhausted() {
    let p = RetryPolicy::new(Some(3), None);
    assert!(p.allows_retry(0, 1));
    assert!(p.allows_retry(u128::MAX, 2));
    assert!(!p.allows_retry(0, 3));
    assert!(!p.allows_retry(0, 4));
}

#[test]
fn retry_allowed_until_time_strictly_exceeded() {
    let p = RetryPolicy::new(None, Some(1));
    assert!(p.allows_retry(0, 100));
    assert!(p.allows_retry(1_000_000_000, 100));
    assert!(!p.allows_retry(1_000_000_001, 100));
}

#[test]
fn both_limits_evaluated_independently() {
    let p = RetryPolicy::new(Some(2), Some(1));
    assert!(p.allows_retry(1_000_000_000, 1));
    assert!(!p.allows_retry(1_000_000_001, 1));
    assert!(!p.allows_retry(0, 2));
}

#[test]
fn no_limits_means_always_retry() {
    let p = RetryPolicy::new(None, None);
    assert!(p.allows_retry(u128::MAX, u64::MAX));
}

#[test]
fn zero_tries_refuses_the_first_failure() {
    let p = RetryPolicy::new(Some(0), None);
    assert!(!p.allows_retry(0, 1));
}

#[test]
fn recording_a_failure_counts_and_judges() {
    let p = RetryPolicy::new(Some(2), Some(10));
    let mut w = AttemptWindow { started: 5, tried: 0 };
    assert!(w.record_failure(&p, 6));
    assert_eq!(w.tried, 1);
    assert_eq!(w.started, 5);
    assert!(!w.record_failure(&p, 7));
    assert_eq!(w.tried, 2);
}
