use telegram_bot_seller::retry::{after_attempt, AttemptOutcome, RetryStep};

/// Runs the retry rule over the answers a server gives, returning the number of
/// attempts made and the last step.
fn run(answers: &[AttemptOutcome], max_attempts: u32) -> (u32, RetryStep) {
    let mut attempt = 1;
    loop {
        let outcome = answers[(attempt - 1) as usize];
        let step = after_attempt(attempt, max_attempts, outcome);
        if step != RetryStep::Retry {
            return (attempt, step);
        }
        attempt += 1;
    }
}

#[test]
fn test_send_with_retry_transient_failures_rule() {
    // Fails two times with 500 and succeeds on the third attempt.
    let answers = [AttemptOutcome::Answered(500), AttemptOutcome::Answered(500), AttemptOutcome::Answered(200)];
    assert_eq!(run(&answers, 3), (3, RetryStep::Deliver));
}

#[test]
fn test_send_with_retry_exhaust_retries_rule() {
    // Always fails with 503: the last failing answer is delivered after two attempts.
    let answers = [AttemptOutcome::Answered(503); 5];
    assert_eq!(run(&answers, 2), (2, RetryStep::Deliver));
}

#[test]
fn test_retry_rule_edges() {
    assert_eq!(after_attempt(1, 3, AttemptOutcome::Answered(404)), RetryStep::Deliver);
    assert_eq!(after_attempt(1, 3, AttemptOutcome::Answered(599)), RetryStep::Retry);
    assert_eq!(after_attempt(1, 3, AttemptOutcome::Answered(600)), RetryStep::Deliver);
    assert_eq!(after_attempt(1, 3, AttemptOutcome::NoAnswer), RetryStep::Retry);
    assert_eq!(after_attempt(3, 3, AttemptOutcome::NoAnswer), RetryStep::GiveUp);
    assert_eq!(after_attempt(1, 0, AttemptOutcome::Answered(500)), RetryStep::Deliver);
    let answers = [AttemptOutcome::NoAnswer; 4];
    assert_eq!(run(&answers, 4), (4, RetryStep::GiveUp));
}
