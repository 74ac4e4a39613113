use agent_307::video::{RetryDecision, RetrySupervisor, RETRY_RESET_MILLIS};

#[test]
fn four_rapid_failures_end_terminally() {
    let mut s = RetrySupervisor::new();
    assert_eq!(s.on_attempt_end(false, 50), RetryDecision::RetryAfterDelay);
    assert_eq!(s.on_attempt_end(false, 120), RetryDecision::RetryAfterDelay);
    assert_eq!(s.on_attempt_end(false, 10), RetryDecision::RetryAfterDelay);
    assert_eq!(s.on_attempt_end(false, 400), RetryDecision::TerminalFailure);
}

#[test]
fn long_running_attempt_resets_the_counter() {
    let mut s = RetrySupervisor::new();
    assert_eq!(s.on_attempt_end(false, 1), RetryDecision::RetryAfterDelay);
    assert_eq!(s.on_attempt_end(false, 2), RetryDecision::RetryAfterDelay);
    assert_eq!(s.on_attempt_end(false, 3), RetryDecision::RetryAfterDelay);
    // the fourth failure comes from an attempt that outlived the
    // two-hour window: the counter clears and retrying continues
    assert_eq!(
        s.on_attempt_end(false, RETRY_RESET_MILLIS + 1),
        RetryDecision::RetryAfterDelay
    );
    assert_eq!(s.try_count, 0);
    // three more rapid failures are tolerated again before the end
    assert_eq!(s.on_attempt_end(false, 5), RetryDecision::RetryAfterDelay);
    assert_eq!(s.on_attempt_end(false, 6), RetryDecision::RetryAfterDelay);
    assert_eq!(s.on_attempt_end(false, 7), RetryDecision::RetryAfterDelay);
    assert_eq!(s.on_attempt_end(false, 8), RetryDecision::TerminalFailure);
}

#[test]
fn exactly_two_hours_does_not_reset() {
    let mut s = RetrySupervisor::new();
    assert_eq!(s.on_attempt_end(false, RETRY_RESET_MILLIS), RetryDecision::RetryAfterDelay);
    assert_eq!(s.try_count, 1);
}

#[test]
fn success_ends_the_session() {
    let mut s = RetrySupervisor::new();
    assert_eq!(s.on_attempt_end(false, 9), RetryDecision::RetryAfterDelay);
    assert_eq!(s.on_attempt_end(true, 12345), RetryDecision::Succeeded);
}
