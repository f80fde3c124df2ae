use objstore::retry::{delay_ms, run_retry, RetryDecision, RetryState, MAX_ATTEMPTS};

#[test]
fn retry_budget_is_five_attempts() {
    assert_eq!(MAX_ATTEMPTS, 5);
}

#[test]
fn always_failing_backend_is_attempted_exactly_five_times() {
    let outcomes: Vec<Option<String>> = vec![None, None, None, None, None];
    let report = run_retry(outcomes);
    assert_eq!(report.attempts, 5);
    assert!(report.result.is_none());
    assert_eq!(report.delays_ms, vec![3000, 3000, 6000, 9000]);
}

#[test]
fn success_on_the_fourth_attempt_yields_that_attempt_content() {
    let outcomes = vec![None, None, None, Some(String::from("kubeconfig-bytes")), None];
    let report = run_retry(outcomes);
    assert_eq!(report.attempts, 4);
    assert_eq!(report.result.as_deref(), Some("kubeconfig-bytes"));
    assert_eq!(report.delays_ms, vec![3000, 3000, 6000]);
}

#[test]
fn first_attempt_success_needs_no_sleep() {
    let outcomes = vec![Some(42u64), None, None, None, None];
    let report = run_retry(outcomes);
    assert_eq!(report.attempts, 1);
    assert_eq!(report.result, Some(42));
    assert!(report.delays_ms.is_empty());
}

#[test]
fn later_successes_are_never_reached_after_the_first() {
    let outcomes = vec![None, Some(1u64), Some(2u64), None, None];
    let report = run_retry(outcomes);
    assert_eq!(report.attempts, 2);
    assert_eq!(report.result, Some(1));
    assert_eq!(report.delays_ms, vec![3000]);
}

#[test]
fn delays_follow_the_fibonacci_schedule() {
    assert_eq!(delay_ms(0), 3000);
    assert_eq!(delay_ms(1), 3000);
    assert_eq!(delay_ms(2), 6000);
    assert_eq!(delay_ms(3), 9000);
}

#[test]
fn retry_state_walks_the_schedule_then_gives_up() {
    let mut state = RetryState::begin();
    assert_eq!(state.failures, 0);
    assert_eq!(state.on_failure(), RetryDecision::RetryAfterMs(3000));
    assert_eq!(state.on_failure(), RetryDecision::RetryAfterMs(3000));
    assert_eq!(state.on_failure(), RetryDecision::RetryAfterMs(6000));
    assert_eq!(state.on_failure(), RetryDecision::RetryAfterMs(9000));
    assert_eq!(state.on_failure(), RetryDecision::GiveUp);
    assert_eq!(state.failures, 5);
}

#[test]
fn attempts_left_counts_down() {
    let mut state = RetryState::begin();
    assert_eq!(state.attempts_left(), 5);
    let _ = state.on_failure();
    assert_eq!(state.attempts_left(), 4);
}
