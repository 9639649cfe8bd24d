use wednesday::retry::{
    default_retry_policy, retry_decision, run_retry, AttemptOutcome, RetryDecision, RetryPolicy,
    RetryResult,
};

#[test]
fn two_transient_failures_then_success() {
    // Policy (attempts = 3, delay = 1000 ms) against an operation that
    // fails transiently twice then succeeds: success, and exactly three
    // invocations.
    let policy = RetryPolicy { attempts: 3, delay_ms: 1000 };
    let script = vec![
        AttemptOutcome::<u64, u8>::Transient(1),
        AttemptOutcome::Transient(2),
        AttemptOutcome::Success(42),
    ];
    let (result, invocations, slept) = run_retry(policy, &script);
    assert_eq!(result, RetryResult::Done(42));
    assert_eq!(invocations, 3);
    assert_eq!(slept, 2000);
}

#[test]
fn terminal_failure_stops_immediately() {
    let policy = default_retry_policy();
    let script = vec![
        AttemptOutcome::<u64, u8>::Terminal(7),
        AttemptOutcome::Success(1),
        AttemptOutcome::Success(1),
    ];
    let (result, invocations, slept) = run_retry(policy, &script);
    assert_eq!(result, RetryResult::Stopped(7));
    assert_eq!(invocations, 1);
    assert_eq!(slept, 0);
}

#[test]
fn exhausted_attempts_return_last_error() {
    let policy = RetryPolicy { attempts: 3, delay_ms: 500 };
    let script = vec![
        AttemptOutcome::<u64, u8>::Transient(1),
        AttemptOutcome::Transient(2),
        AttemptOutcome::Transient(3),
    ];
    let (result, invocations, slept) = run_retry(policy, &script);
    assert_eq!(result, RetryResult::Exhausted(3));
    assert_eq!(invocations, 3);
    assert_eq!(slept, 1000);
}

#[test]
fn single_attempt_policy_never_retries() {
    let policy = RetryPolicy { attempts: 1, delay_ms: 1000 };
    let script = vec![AttemptOutcome::<u64, u8>::Transient(9)];
    let (result, invocations, slept) = run_retry(policy, &script);
    assert_eq!(result, RetryResult::Exhausted(9));
    assert_eq!(invocations, 1);
    assert_eq!(slept, 0);
}

#[test]
fn decision_follows_policy() {
    let policy = RetryPolicy { attempts: 3, delay_ms: 1000 };
    assert_eq!(
        retry_decision(1, policy, true),
        RetryDecision::RetryAfterMillis(1000)
    );
    assert_eq!(retry_decision(3, policy, true), RetryDecision::GiveUp);
    assert_eq!(retry_decision(1, policy, false), RetryDecision::GiveUp);
}
