use std::time::{Duration, Instant};
use telegram_bot_seller::rate_limiter::RateLimiter;
use telegram_bot_seller::telegram::{
    handling_step, rate_limit_reply, HandlingAction, HandlingEvent, HandlingStage, Reply, ACK_REACTION, RATE_LIMIT_REPLY,
};

#[test]
fn test_rate_limiter_sliding_window_throttling() {
    // 1. Create a RateLimiter allowing max 3 requests per 100 milliseconds
    let mut limiter = RateLimiter::new(3, Duration::from_millis(100));
    let user_id = 8888i64;

    // First 3 requests should succeed
    assert!(limiter.check(user_id));
    assert!(limiter.check(user_id));
    assert!(limiter.check(user_id));

    // 4th request within 100ms should be blocked
    assert!(!limiter.check(user_id), "4th request within window must be throttled");

    // Other user should not be affected
    assert!(limiter.check(9999i64), "Different user should not be throttled");

    // Wait 120ms to allow window to reset
    let start = Instant::now();
    while start.elapsed() < Duration::from_millis(120) {}

    // Request should succeed again after window expiration
    assert!(limiter.check(user_id), "Request should pass after sliding window resets");
}

#[test]
fn test_rate_limiter_explicit_moments() {
    let mut limiter = RateLimiter::with_window_nanos(2, 1000);
    assert!(limiter.check_at(1, 0));
    assert!(limiter.check_at(1, 10));
    assert!(!limiter.check_at(1, 999));
    // At 1000 the request made at 0 no longer counts, the one at 10 still does.
    assert!(limiter.check_at(1, 1000));
    assert!(!limiter.check_at(1, 1009));
    assert!(limiter.check_at(1, 1010));
    // Another user has a history of their own.
    assert!(limiter.check_at(2, 1010));
    assert!(limiter.check_at(2, 1011));
    assert!(!limiter.check_at(2, 1012));
}

#[test]
fn test_rate_limiter_zero_limit_refuses_everything() {
    let mut limiter = RateLimiter::with_window_nanos(0, 1000);
    assert!(!limiter.check_at(5, 0));
    assert!(!limiter.check_at(5, 1_000_000));
}

#[test]
fn test_rate_limiter_at_most_max_per_window_trace() {
    let mut limiter = RateLimiter::with_window_nanos(3, 100);
    let times: Vec<u64> = vec![0, 1, 2, 3, 50, 99, 100, 101, 102, 103, 250, 251, 252, 253, 400];
    let mut admitted: Vec<u64> = Vec::new();
    for &t in times.iter() {
        if limiter.check_at(77, t) {
            admitted.push(t);
        }
        let in_window = admitted.iter().filter(|&&a| t - a < 100).count();
        assert!(in_window <= 3);
    }
    assert_eq!(admitted, vec![0, 1, 2, 100, 101, 102, 250, 251, 252, 400]);
}

#[test]
fn test_rate_limiter_window_in_seconds() {
    let mut limiter = RateLimiter::with_window_secs(1, 30);
    assert!(limiter.check_at(3, 0));
    assert!(!limiter.check_at(3, 29_999_999_999));
    assert!(limiter.check_at(3, 30_000_000_000));

    // A window too long for the nanosecond clock is capped, not wrapped.
    let mut limiter = RateLimiter::with_window_secs(1, u64::MAX);
    assert!(limiter.check_at(4, 0));
    assert!(!limiter.check_at(4, u64::MAX - 1));
}

#[test]
fn test_rate_limit_reply_only_when_throttled() {
    assert_eq!(rate_limit_reply(true), None);
    let warning = rate_limit_reply(false).unwrap();
    assert_eq!(warning.text, RATE_LIMIT_REPLY);
    assert_eq!(warning.reaction, None);
}

#[test]
fn test_rate_limiter_every_interval_trace() {
    let mut limiter = RateLimiter::with_window_nanos(2, 10);
    let times: Vec<u64> = vec![0, 3, 5, 9, 10, 12, 13, 19, 20, 25, 31, 33];
    let mut admitted: Vec<u64> = Vec::new();
    for &t in times.iter() {
        if limiter.check_at(1, t) {
            admitted.push(t);
        }
    }
    assert_eq!(admitted, vec![0, 3, 10, 13, 20, 25, 31]);
    for a in 0..40u64 {
        let inside = admitted.iter().filter(|&&x| a <= x && x < a + 10).count();
        assert!(inside <= 2);
    }
}

#[test]
fn test_rate_limiter_new_takes_the_duration() {
    let mut limiter = RateLimiter::new(1, Duration::from_millis(100));
    assert!(limiter.check_at(6, 0));
    assert!(!limiter.check_at(6, 99_999_999));
    assert!(limiter.check_at(6, 100_000_000));

    // A window longer than the nanosecond clock can count is capped.
    let mut limiter = RateLimiter::new(1, Duration::from_secs(u64::MAX));
    assert!(limiter.check_at(6, 0));
    assert!(!limiter.check_at(6, u64::MAX - 1));
}

#[test]
fn test_message_handling_order() {
    // A throttled message gets the warning and nothing else.
    let (stage, action) = handling_step(HandlingStage::Arrived, HandlingEvent::RateChecked(false));
    assert_eq!(stage, HandlingStage::Done);
    assert_eq!(action, HandlingAction::SendWarning(RATE_LIMIT_REPLY.to_string()));

    // An admitted one: contact, acknowledgement, answer, reply, then the model's reaction.
    let (stage, action) = handling_step(HandlingStage::Arrived, HandlingEvent::RateChecked(true));
    assert_eq!(action, HandlingAction::SaveContact);
    let (stage, action) = handling_step(stage, HandlingEvent::ContactSaved);
    assert_eq!(action, HandlingAction::Acknowledge(ACK_REACTION.to_string()));
    let (stage, action) = handling_step(stage, HandlingEvent::Acknowledged);
    assert_eq!(action, HandlingAction::Answer);
    let reply = Reply { text: "Добрый день".to_string(), reaction: Some("🔥".to_string()) };
    let (stage, action) = handling_step(stage, HandlingEvent::Answered(Some(reply)));
    assert_eq!(stage, HandlingStage::Replying(Some("🔥".to_string())));
    assert_eq!(action, HandlingAction::SendReply("Добрый день".to_string()));
    let (stage, action) = handling_step(stage, HandlingEvent::ReplySent);
    assert_eq!(stage, HandlingStage::Done);
    assert_eq!(action, HandlingAction::React("🔥".to_string()));

    // A reply without a reaction ends after it; no answer ends at once.
    let (stage, action) = handling_step(
        HandlingStage::Answering,
        HandlingEvent::Answered(Some(Reply { text: "ok".to_string(), reaction: None })),
    );
    assert_eq!(action, HandlingAction::SendReply("ok".to_string()));
    assert_eq!(handling_step(stage, HandlingEvent::ReplySent), (HandlingStage::Done, HandlingAction::Stop));
    assert_eq!(
        handling_step(HandlingStage::Answering, HandlingEvent::Answered(None)),
        (HandlingStage::Done, HandlingAction::Stop)
    );

    // An event out of place ends the handling.
    assert_eq!(
        handling_step(HandlingStage::Done, HandlingEvent::RateChecked(true)),
        (HandlingStage::Done, HandlingAction::Stop)
    );
}

#[test]
fn test_rate_limiter_readmits_after_refusals() {
    let mut limiter = RateLimiter::with_window_nanos(2, 100);
    assert!(limiter.check_at(9, 0));
    assert!(limiter.check_at(9, 40));
    for t in [41u64, 60, 90, 99] {
        assert!(!limiter.check_at(9, t));
    }
    // A whole window after the last admitted request, however many were refused.
    assert!(limiter.check_at(9, 140));
}
