use std::time::Duration;
use std::cell::Cell;

use amplifier_relayer::retry::{RetryError, RetryPolicy, RetryStep};
use tokio_retry::strategy::ExponentialBackoff;

#[derive(Debug, Clone, PartialEq)]
struct TestError {
    abort: bool,
}

/// Drives a policy the way the asynchronous runner does, without waiting.
fn run<T, F: FnMut() -> Result<T, TestError>>(mut policy: RetryPolicy, mut f: F) -> (Result<T, RetryError<TestError>>, Vec<u64>) {
    let mut extra_waits = Vec::new();
    loop {
        if policy.next_delay().is_none() {
            return (Err(RetryError::MaxAttempts), extra_waits);
        }
        let result = f();
        let abortable = matches!(&result, Err(e) if e.abort);
        match policy.on_result(result, abortable, false) {
            RetryStep::Finish(r) => return (r, extra_waits),
            RetryStep::WaitThenRetry(secs) => extra_waits.push(secs),
            RetryStep::Retry => {}
        }
    }
}

#[test]
fn retry_succeeds_first_try() {
    let called = Cell::new(0);
    let func = || {
        called.set(called.get() + 1);
        Ok::<_, TestError>("ok")
    };
    let backoff = ExponentialBackoff::from_millis(1);
    let (result, _) = run(RetryPolicy::new(backoff), func);
    assert_eq!(result.unwrap(), "ok");
    assert_eq!(called.get(), 1);
}

#[test]
fn retry_until_success() {
    let called = Cell::new(0);
    let func = || {
        called.set(called.get() + 1);
        if called.get() < 3 {
            Err(TestError { abort: false })
        } else {
            Ok::<_, TestError>("ok")
        }
    };
    let backoff = ExponentialBackoff::from_millis(1);
    let (result, _) = run(RetryPolicy::new(backoff), func);
    assert_eq!(result.unwrap(), "ok");
    assert_eq!(called.get(), 3);
}

#[test]
fn retry_aborts_on_abortable_error() {
    let func = || Err::<(), _>(TestError { abort: true });
    let backoff = ExponentialBackoff::from_millis(1);
    let (result, _) = run(RetryPolicy::new(backoff), func);
    assert!(matches!(result, Err(RetryError::Aborted(ref e)) if e.abort));
}

#[test]
fn retry_returns_max_attempts() {
    let called = Cell::new(0);
    let func = || {
        called.set(called.get() + 1);
        Err::<(), _>(TestError { abort: false })
    };
    let backoff = ExponentialBackoff::from_millis(1);
    let retry_fn = RetryPolicy::new(backoff).with_max_attempts(3);
    let (result, _) = run(retry_fn, func);
    assert!(matches!(result, Err(RetryError::MaxAttempts)));

    // Check that the function was called 3 times
    assert_eq!(called.get(), 3);
}

#[test]
fn default_policy_allows_twenty_attempts() {
    let mut policy = RetryPolicy::new(ExponentialBackoff::from_millis(1));
    assert_eq!(policy.max_attempts(), 20);
    assert_eq!(policy.rate_limit_wait_secs(), 10);
    let mut delays = 0;
    while policy.next_delay().is_some() {
        delays += 1;
    }
    assert_eq!(delays, 20);
    assert_eq!(policy.attempts(), 20);
    assert!(policy.next_delay().is_none());
}

#[test]
fn delays_come_from_the_backoff() {
    let mut policy = RetryPolicy::new(ExponentialBackoff::from_millis(10));
    assert_eq!(policy.next_delay(), Some(std::time::Duration::from_millis(10)));
    assert_eq!(policy.next_delay(), Some(std::time::Duration::from_millis(100)));
    assert_eq!(policy.next_delay(), Some(std::time::Duration::from_millis(1000)));
}

#[test]
fn rate_limited_error_asks_for_extra_wait() {
    let policy = RetryPolicy::new(ExponentialBackoff::from_millis(1));
    let step = policy.on_result(Err::<(), _>(TestError { abort: false }), false, true);
    assert_eq!(step, RetryStep::WaitThenRetry(10));
    let step = policy.on_result(Err::<(), _>(TestError { abort: true }), true, true);
    assert_eq!(step, RetryStep::Finish(Err(RetryError::Aborted(TestError { abort: true }))));
    let step = policy.on_result(Err::<(), _>(TestError { abort: false }), false, false);
    assert_eq!(step, RetryStep::Retry);
}

#[test]
fn delays_follow_the_backoff_with_factor_and_cap() {
    let backoff = ExponentialBackoff::from_millis(10).factor(2).max_delay(Duration::from_millis(500));
    let mut policy = RetryPolicy::new(backoff).with_max_attempts(5);
    assert_eq!(policy.next_delay(), Some(Duration::from_millis(20)));
    assert_eq!(policy.next_delay(), Some(Duration::from_millis(200)));
    assert_eq!(policy.next_delay(), Some(Duration::from_millis(500)));
    assert_eq!(policy.next_delay(), Some(Duration::from_millis(500)));
    assert_eq!(policy.next_delay(), Some(Duration::from_millis(500)));
    assert_eq!(policy.next_delay(), None);
}

#[test]
fn delays_saturate() {
    let backoff = ExponentialBackoff::from_millis(u64::MAX / 2).factor(3);
    let mut policy = RetryPolicy::new(backoff);
    assert_eq!(policy.next_delay(), Some(Duration::from_millis(u64::MAX)));
    assert_eq!(policy.next_delay(), Some(Duration::from_millis(u64::MAX)));
}
