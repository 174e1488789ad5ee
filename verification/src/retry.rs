//! Retrying an outgoing HTTP request: which outcomes are tried again, and when the
//! attempts run out.

use vstd::prelude::*;

verus! {

/// How one attempt at a request ended.
#[derive(Debug, Clone, Copy, PartialEq, Eq, Structural)]
pub enum AttemptOutcome {
    /// An answer came back with this HTTP status.
    Answered(u16),
    /// The request did not get an answer (connection refused, timeout, ...).
    NoAnswer,
}

/// What to do after an attempt.
#[derive(Debug, Clone, Copy, PartialEq, Eq, Structural)]
pub enum RetryStep {
    /// Hand the answer just received to the caller.
    Deliver,
    /// Make the request again.
    Retry,
    /// Report that no answer could be had.
    GiveUp,
}

/// An answer worth asking again for: a server error (status 500 to 599).
pub open spec fn transient(outcome: AttemptOutcome) -> bool {
    match outcome {
        AttemptOutcome::Answered(status) => 500 <= status <= 599,
        AttemptOutcome::NoAnswer => true,
    }
}

/// The step after attempt number `attempt` (counted from 1) of at most `max_attempts`:
/// a transient failure is tried again while attempts remain; otherwise an answer is
/// delivered, the last failing one included, and a missing answer is given up on.
pub open spec fn next_step(attempt: u32, max_attempts: u32, outcome: AttemptOutcome) -> RetryStep {
    if transient(outcome) && attempt < max_attempts {
        RetryStep::Retry
    } else {
        match outcome {
            AttemptOutcome::Answered(_) => RetryStep::Deliver,
            AttemptOutcome::NoAnswer => RetryStep::GiveUp,
        }
    }
}

/// Decides what follows attempt number `attempt` of at most `max_attempts`.
pub fn after_attempt(attempt: u32, max_attempts: u32, outcome: AttemptOutcome) -> (r: RetryStep)
    ensures
        r == next_step(attempt, max_attempts, outcome),
{
    let is_transient = match outcome {
        AttemptOutcome::Answered(status) => 500 <= status && status <= 599,
        AttemptOutcome::NoAnswer => true,
    };
    if is_transient && attempt < max_attempts {
        RetryStep::Retry
    } else {
        match outcome {
            AttemptOutcome::Answered(_) => RetryStep::Deliver,
            AttemptOutcome::NoAnswer => RetryStep::GiveUp,
        }
    }
}

/// Law: the request is never made more than `max_attempts` times (the first attempt is
/// always made): a retry is only ever decided before the last attempt.
pub proof fn law_attempts_bounded(attempt: u32, max_attempts: u32, outcome: AttemptOutcome)
    ensures
        next_step(attempt, max_attempts, outcome) == RetryStep::Retry ==> attempt < max_attempts,
        attempt >= max_attempts ==> next_step(attempt, max_attempts, outcome) != RetryStep::Retry,
{
}

/// Law: an answer that is not a server error is delivered at once, whatever attempt it
/// came on.
pub proof fn law_success_is_delivered(attempt: u32, max_attempts: u32, status: u16)
    requires
        status < 500 || status > 599,
    ensures
        next_step(attempt, max_attempts, AttemptOutcome::Answered(status)) == RetryStep::Deliver,
{
}

/// Law: every server error, whatever its status from 500 to 599, and every attempt that
/// got no answer at all, is tried again while attempts remain.
pub proof fn law_server_errors_retried(attempt: u32, max_attempts: u32, status: u16)
    requires
        attempt < max_attempts,
        500 <= status <= 599,
    ensures
        next_step(attempt, max_attempts, AttemptOutcome::Answered(status)) == RetryStep::Retry,
        next_step(attempt, max_attempts, AttemptOutcome::NoAnswer) == RetryStep::Retry,
{
}

/// Law: on the last attempt a server error is delivered as it is, and a missing answer is
/// given up on.
pub proof fn law_last_attempt_ends(attempt: u32, max_attempts: u32, status: u16)
    requires
        attempt >= max_attempts,
    ensures
        next_step(attempt, max_attempts, AttemptOutcome::Answered(status)) == RetryStep::Deliver,
        next_step(attempt, max_attempts, AttemptOutcome::NoAnswer) == RetryStep::GiveUp,
{
}

/// Law: a run of attempts that keeps failing ends after exactly `max_attempts` attempts
/// (at least one): every attempt before the last is retried, and the last is not.
pub proof fn law_failures_exhaust_attempts(max_attempts: u32, outcome: AttemptOutcome)
    requires
        transient(outcome),
    ensures
        forall|a: u32| 1 <= a < max_attempts ==> #[trigger] next_step(a, max_attempts, outcome) == RetryStep::Retry,
        max_attempts >= 1 ==> next_step(max_attempts, max_attempts, outcome) != RetryStep::Retry,
{
}

} // verus!
