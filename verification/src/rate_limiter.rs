//! A sliding-window rate limiter that protects the bot against flooding.
//!
//! Each user has a history of the moments (in nanoseconds since the limiter was made)
//! at which a request of theirs was admitted. A request is admitted when fewer than
//! `max_requests` of those moments lie inside the window that ends now.

use std::collections::HashMap;
use std::time::{Duration, Instant};
use vstd::prelude::*;

verus! {

broadcast use vstd::std_specs::hash::group_hash_axioms;

/// `std::time::Instant`, carried through opaquely.
#[verifier::external_type_specification]
#[verifier::external_body]
pub struct ExInstant(Instant);

/// Reads the monotonic clock (`Instant::now`). Nothing is promised of the value.
#[verifier::external_body]
fn instant_now() -> Instant {
    Instant::now()
}

/// The time from `earlier` to `later`, zero when `later` is not after it
/// (`Instant::duration_since`). The duration is opaque here.
#[verifier::external_body]
fn duration_since(later: &Instant, earlier: &Instant) -> Duration {
    later.duration_since(*earlier)
}

/// The whole nanoseconds a duration spans, as `Duration::as_nanos` gives them: a
/// function of the duration alone.
pub uninterp spec fn duration_nanos(d: Duration) -> u128;

/// Whole nanoseconds of a duration (`Duration::as_nanos`): the number is
/// `duration_nanos` of the duration.
#[verifier::external_body]
fn duration_as_nanos(d: &Duration) -> (r: u128)
    ensures
        r == duration_nanos(*d),
{
    d.as_nanos()
}

/// The moment, in nanoseconds capped at `u64::MAX`, that an elapsed duration stands for.
pub open spec fn clock_moment(elapsed: Duration) -> u64 {
    if duration_nanos(elapsed) > u64::MAX {
        u64::MAX
    } else {
        duration_nanos(elapsed) as u64
    }
}

/// `n` capped at `u64::MAX`.
fn saturate_u64(n: u128) -> (r: u64)
    ensures
        r == (if n > u64::MAX { u64::MAX as int } else { n as int }),
{
    if n > 18446744073709551615u128 {
        18446744073709551615u64
    } else {
        n as u64
    }
}

/// A moment `t` counts against a request at `now` when it lies less than `window` before
/// `now`; a moment after `now` always counts.
pub open spec fn in_window(t: u64, now: u64, window: u64) -> bool {
    now < t || now - t < window
}

/// The moments of `ts` that still count at `now`, in their order.
pub open spec fn recent(ts: Seq<u64>, now: u64, window: u64) -> Seq<u64>
    decreases ts.len(),
{
    if ts.len() == 0 {
        Seq::empty()
    } else {
        let r = recent(ts.drop_last(), now, window);
        if in_window(ts.last(), now, window) {
            r.push(ts.last())
        } else {
            r
        }
    }
}

/// Dropping moments never lengthens a history.
pub proof fn lemma_recent_len(ts: Seq<u64>, now: u64, window: u64)
    ensures
        recent(ts, now, window).len() <= ts.len(),
    decreases ts.len(),
{
    if ts.len() > 0 {
        lemma_recent_len(ts.drop_last(), now, window);
    }
}

/// The history of `user`: empty when they never made a request.
pub open spec fn user_history(h: Map<i64, Seq<u64>>, user: i64) -> Seq<u64> {
    if h.contains_key(user) {
        h[user]
    } else {
        Seq::empty()
    }
}

/// A request of `user` at `now` is admitted.
pub open spec fn admits(h: Map<i64, Seq<u64>>, max: nat, window: u64, user: i64, now: u64) -> bool {
    recent(user_history(h, user), now, window).len() < max
}

/// The histories after a request of `user` at `now`: theirs loses the moments that no
/// longer count and gains `now` when the request is admitted.
pub open spec fn after_request(
    h: Map<i64, Seq<u64>>,
    max: nat,
    window: u64,
    user: i64,
    now: u64,
) -> Map<i64, Seq<u64>> {
    let kept = recent(user_history(h, user), now, window);
    h.insert(
        user,
        if admits(h, max, window, user, now) {
            kept.push(now)
        } else {
            kept
        },
    )
}

/// No history holds more than `max` moments.
pub open spec fn bounded(h: Map<i64, Seq<u64>>, max: nat) -> bool {
    forall|u: i64| #[trigger] h.contains_key(u) ==> h[u].len() <= max
}

/// Dropping the moments that no longer count is idempotent.
pub proof fn lemma_recent_idempotent(ts: Seq<u64>, now: u64, window: u64)
    ensures
        recent(recent(ts, now, window), now, window) == recent(ts, now, window),
    decreases ts.len(),
{
    if ts.len() > 0 {
        lemma_recent_idempotent(ts.drop_last(), now, window);
        let r = recent(ts.drop_last(), now, window);
        if in_window(ts.last(), now, window) {
            assert(r.push(ts.last()).drop_last() =~= r);
        }
    }
}

/// A history whose moments all lie outside the window keeps none of them.
pub proof fn lemma_recent_empty(ts: Seq<u64>, now: u64, window: u64)
    requires
        forall|i: int| 0 <= i < ts.len() ==> !in_window(#[trigger] ts[i], now, window),
    ensures
        recent(ts, now, window).len() == 0,
    decreases ts.len(),
{
    if ts.len() > 0 {
        assert(!in_window(ts[ts.len() - 1], now, window));
        assert forall|i: int| 0 <= i < ts.drop_last().len() implies !in_window(#[trigger] ts.drop_last()[i], now, window) by {
            assert(ts.drop_last()[i] == ts[i]);
        }
        lemma_recent_empty(ts.drop_last(), now, window);
    }
}

/// Law: no request ever lets a history grow past the limit.
pub proof fn law_history_stays_bounded(h: Map<i64, Seq<u64>>, max: nat, window: u64, user: i64, now: u64)
    requires
        bounded(h, max),
    ensures
        bounded(after_request(h, max, window, user, now), max),
{
    lemma_recent_len(user_history(h, user), now, window);
}

/// Law: a request of one user leaves every other user's history as it was.
pub proof fn law_other_users_untouched(
    h: Map<i64, Seq<u64>>,
    max: nat,
    window: u64,
    user: i64,
    other: i64,
    now: u64,
)
    requires
        other != user,
    ensures
        user_history(after_request(h, max, window, user, now), other) == user_history(h, other),
        admits(after_request(h, max, window, user, now), max, window, other, now) == admits(h, max, window, other, now),
{
}

/// Law: a throttled request changes nothing that counts, so asking again at the same
/// moment is throttled again.
pub proof fn law_throttling_is_stable(h: Map<i64, Seq<u64>>, max: nat, window: u64, user: i64, now: u64)
    requires
        !admits(h, max, window, user, now),
    ensures
        !admits(after_request(h, max, window, user, now), max, window, user, now),
        after_request(after_request(h, max, window, user, now), max, window, user, now)
            == after_request(h, max, window, user, now),
{
    lemma_recent_idempotent(user_history(h, user), now, window);
    let h1 = after_request(h, max, window, user, now);
    assert(h1.insert(user, recent(user_history(h, user), now, window)) =~= h1);
}

/// Law: once a whole window has passed since every admitted request of a user, their
/// next request is admitted (when the limit is not zero) and starts a fresh history.
pub proof fn law_window_expiry_readmits(h: Map<i64, Seq<u64>>, max: nat, window: u64, user: i64, now: u64)
    requires
        forall|i: int|
            0 <= i < user_history(h, user).len() ==> #[trigger] user_history(h, user)[i] <= now
                && now - user_history(h, user)[i] >= window,
    ensures
        admits(h, max, window, user, now) == (max > 0),
        max > 0 ==> after_request(h, max, window, user, now)[user] == seq![now],
{
    let ts = user_history(h, user);
    lemma_recent_empty(ts, now, window);
    let r = recent(ts, now, window);
    assert(r.push(now) =~= seq![now]);
}

/// The histories after requests of `user` at the moments `times`, in order.
pub open spec fn after_requests(h: Map<i64, Seq<u64>>, max: nat, window: u64, user: i64, times: Seq<u64>) -> Map<
    i64,
    Seq<u64>,
>
    decreases times.len(),
{
    if times.len() == 0 {
        h
    } else {
        after_request(after_requests(h, max, window, user, times.drop_last()), max, window, user, times.last())
    }
}

/// The moments among `times` at which the requests of `user` were admitted, in order.
pub open spec fn admitted_moments(h: Map<i64, Seq<u64>>, max: nat, window: u64, user: i64, times: Seq<u64>) -> Seq<
    u64,
>
    decreases times.len(),
{
    if times.len() == 0 {
        Seq::empty()
    } else {
        let earlier = admitted_moments(h, max, window, user, times.drop_last());
        if admits(after_requests(h, max, window, user, times.drop_last()), max, window, user, times.last()) {
            earlier.push(times.last())
        } else {
            earlier
        }
    }
}

/// The moments come in order.
pub open spec fn nondecreasing(times: Seq<u64>) -> bool {
    forall|i: int, j: int| 0 <= i <= j < times.len() ==> times[i] <= times[j]
}

/// What no longer counts at one moment does not count at a later one either.
proof fn lemma_recent_later(ts: Seq<u64>, t1: u64, t2: u64, window: u64)
    requires
        t1 <= t2,
    ensures
        recent(recent(ts, t1, window), t2, window) == recent(ts, t2, window),
    decreases ts.len(),
{
    if ts.len() > 0 {
        lemma_recent_later(ts.drop_last(), t1, t2, window);
        let r = recent(ts.drop_last(), t1, window);
        if in_window(ts.last(), t1, window) {
            assert(r.push(ts.last()).drop_last() =~= r);
        }
    }
}

/// Of the requests of a user with no history, made at moments in order, the limiter
/// keeps (as far as it counts at any later moment) exactly the admitted ones.
proof fn lemma_history_is_admitted(h: Map<i64, Seq<u64>>, max: nat, window: u64, user: i64, times: Seq<u64>, t: u64)
    requires
        user_history(h, user).len() == 0,
        nondecreasing(times),
        times.len() > 0 ==> times.last() <= t,
    ensures
        recent(user_history(after_requests(h, max, window, user, times), user), t, window) == recent(
            admitted_moments(h, max, window, user, times),
            t,
            window,
        ),
    decreases times.len(),
{
    if times.len() > 0 {
        let prev = times.drop_last();
        let tk = times.last();
        let h_prev = after_requests(h, max, window, user, prev);
        let a_prev = admitted_moments(h, max, window, user, prev);
        assert(nondecreasing(prev));
        if prev.len() > 0 {
            assert(prev.last() <= tk);
        }
        lemma_history_is_admitted(h, max, window, user, prev, t);
        lemma_history_is_admitted(h, max, window, user, prev, tk);
        let kept = recent(user_history(h_prev, user), tk, window);
        lemma_recent_later(user_history(h_prev, user), tk, t, window);
        if admits(h_prev, max, window, user, tk) {
            assert(kept.push(tk).drop_last() =~= kept);
            assert(a_prev.push(tk).drop_last() =~= a_prev);
        }
    }
}

/// A user's kept history never holds more than the limit.
proof fn lemma_user_history_bounded(h: Map<i64, Seq<u64>>, max: nat, window: u64, user: i64, times: Seq<u64>)
    requires
        user_history(h, user).len() <= max,
    ensures
        user_history(after_requests(h, max, window, user, times), user).len() <= max,
    decreases times.len(),
{
    if times.len() > 0 {
        let h_prev = after_requests(h, max, window, user, times.drop_last());
        lemma_user_history_bounded(h, max, window, user, times.drop_last());
        lemma_recent_len(user_history(h_prev, user), times.last(), window);
    }
}

/// Law: whatever the requests of a user who starts with no history, made at moments in
/// order up to a moment `t`, at most `max` of the admitted ones lie inside the window
/// that ends at `t`. As `t` is any moment at or after the last request, and requests made
/// after `t` do not change which earlier ones were admitted, no window of the limiter's
/// length ever holds more than `max` admitted requests of one user.
pub proof fn law_at_most_max_in_any_window(
    h: Map<i64, Seq<u64>>,
    max: nat,
    window: u64,
    user: i64,
    times: Seq<u64>,
    t: u64,
)
    requires
        user_history(h, user).len() == 0,
        nondecreasing(times),
        times.len() > 0 ==> times.last() <= t,
    ensures
        recent(admitted_moments(h, max, window, user, times), t, window).len() <= max,
{
    lemma_history_is_admitted(h, max, window, user, times, t);
    lemma_user_history_bounded(h, max, window, user, times);
    lemma_recent_len(user_history(after_requests(h, max, window, user, times), user), t, window);
}

/// How many moments of `s` lie in the interval from `a` (included) to `b` (excluded).
pub open spec fn count_between(s: Seq<u64>, a: int, b: int) -> nat
    decreases s.len(),
{
    if s.len() == 0 {
        0
    } else {
        count_between(s.drop_last(), a, b) + if a <= s.last() < b {
            1nat
        } else {
            0nat
        }
    }
}

/// Of moments no later than `t`, those in an interval of the window's length that ends
/// after `t` all still count at `t`.
proof fn lemma_interval_within_window(s: Seq<u64>, a: int, window: u64, t: u64)
    requires
        forall|i: int| 0 <= i < s.len() ==> #[trigger] s[i] <= t,
        t < a + window,
    ensures
        count_between(s, a, a + window) <= recent(s, t, window).len(),
    decreases s.len(),
{
    if s.len() > 0 {
        assert forall|i: int| 0 <= i < s.drop_last().len() implies #[trigger] s.drop_last()[i] <= t by {
            assert(s.drop_last()[i] == s[i]);
        }
        assert(s.last() == s[s.len() - 1]);
        lemma_interval_within_window(s.drop_last(), a, window, t);
    }
}

/// Every admitted moment is one of the request moments, so none comes after the last.
proof fn lemma_admitted_not_after_last(h: Map<i64, Seq<u64>>, max: nat, window: u64, user: i64, times: Seq<u64>)
    requires
        nondecreasing(times),
        times.len() > 0,
    ensures
        forall|i: int|
            0 <= i < admitted_moments(h, max, window, user, times).len() ==> #[trigger] admitted_moments(
                h,
                max,
                window,
                user,
                times,
            )[i] <= times.last(),
    decreases times.len(),
{
    let prev = times.drop_last();
    let a_prev = admitted_moments(h, max, window, user, prev);
    let a = admitted_moments(h, max, window, user, times);
    assert(nondecreasing(prev));
    if prev.len() > 0 {
        lemma_admitted_not_after_last(h, max, window, user, prev);
        assert(prev.last() <= times.last());
    }
    assert forall|i: int| 0 <= i < a.len() implies #[trigger] a[i] <= times.last() by {
        if i < a_prev.len() {
            assert(a[i] == a_prev[i]);
        }
    }
}

/// Law: whatever the requests of a user who starts with no history, made at moments in
/// order, no interval as long as the window holds more than `max` admitted ones.
pub proof fn law_at_most_max_in_every_interval(
    h: Map<i64, Seq<u64>>,
    max: nat,
    window: u64,
    user: i64,
    times: Seq<u64>,
    a: int,
)
    requires
        user_history(h, user).len() == 0,
        nondecreasing(times),
    ensures
        count_between(admitted_moments(h, max, window, user, times), a, a + window) <= max,
    decreases times.len(),
{
    if times.len() > 0 {
        let t = times.last();
        if t >= a + window {
            let prev = times.drop_last();
            assert(nondecreasing(prev));
            law_at_most_max_in_every_interval(h, max, window, user, prev, a);
            let a_prev = admitted_moments(h, max, window, user, prev);
            assert(a_prev.push(t).drop_last() =~= a_prev);
        } else {
            lemma_admitted_not_after_last(h, max, window, user, times);
            lemma_interval_within_window(admitted_moments(h, max, window, user, times), a, window, t);
            law_at_most_max_in_any_window(h, max, window, user, times, t);
        }
    }
}

/// Requests made in order are admitted in order.
proof fn lemma_admitted_in_order(h: Map<i64, Seq<u64>>, max: nat, window: u64, user: i64, times: Seq<u64>)
    requires
        nondecreasing(times),
    ensures
        nondecreasing(admitted_moments(h, max, window, user, times)),
    decreases times.len(),
{
    if times.len() > 0 {
        let prev = times.drop_last();
        let a_prev = admitted_moments(h, max, window, user, prev);
        let a = admitted_moments(h, max, window, user, times);
        assert(nondecreasing(prev));
        lemma_admitted_in_order(h, max, window, user, prev);
        if prev.len() > 0 {
            lemma_admitted_not_after_last(h, max, window, user, prev);
            assert(prev.last() <= times.last());
        }
        assert forall|i: int, j: int| 0 <= i <= j < a.len() implies a[i] <= a[j] by {
            if j < a_prev.len() {
                assert(a[i] == a_prev[i] && a[j] == a_prev[j]);
            } else if i < a_prev.len() {
                assert(a[i] == a_prev[i]);
            }
        }
    }
}

/// Law: once a whole window has passed since the last admitted request of a user who
/// started with no history, their next request is admitted (when the limit is not
/// zero), however many refused requests came in between.
pub proof fn law_readmitted_after_window(
    h: Map<i64, Seq<u64>>,
    max: nat,
    window: u64,
    user: i64,
    times: Seq<u64>,
    now: u64,
)
    requires
        user_history(h, user).len() == 0,
        nondecreasing(times),
        times.len() > 0 ==> times.last() <= now,
        max > 0,
        admitted_moments(h, max, window, user, times).len() > 0 ==> now >= admitted_moments(
            h,
            max,
            window,
            user,
            times,
        ).last() + window,
    ensures
        admits(after_requests(h, max, window, user, times), max, window, user, now),
{
    let a = admitted_moments(h, max, window, user, times);
    lemma_history_is_admitted(h, max, window, user, times, now);
    lemma_admitted_in_order(h, max, window, user, times);
    assert forall|i: int| 0 <= i < a.len() implies !in_window(#[trigger] a[i], now, window) by {
        assert(a[i] <= a[a.len() - 1]);
    }
    lemma_recent_empty(a, now, window);
}

/// Law: the requests made after some moment do not change which of the earlier ones were
/// admitted.
pub proof fn law_admitted_prefix(h: Map<i64, Seq<u64>>, max: nat, window: u64, user: i64, times: Seq<u64>, k: int)
    requires
        0 <= k <= times.len(),
    ensures
        admitted_moments(h, max, window, user, times.take(k)).is_prefix_of(
            admitted_moments(h, max, window, user, times),
        ),
    decreases times.len(),
{
    if k < times.len() {
        let prev = times.drop_last();
        assert(prev.take(k) =~= times.take(k));
        law_admitted_prefix(h, max, window, user, prev, k);
    } else {
        assert(times.take(k) =~= times);
    }
}

/// Law: whatever the requests of a user who starts with no history, decided at the
/// moments that elapsed durations read from the clock stand for, in order, no interval
/// as long as the window holds more than `max` admitted ones.
pub proof fn law_at_most_max_per_real_window(
    h: Map<i64, Seq<u64>>,
    max: nat,
    window: u64,
    user: i64,
    readings: Seq<Duration>,
    a: int,
)
    requires
        user_history(h, user).len() == 0,
        forall|i: int, j: int|
            0 <= i <= j < readings.len() ==> duration_nanos(#[trigger] readings[i]) <= duration_nanos(
                #[trigger] readings[j],
            ),
    ensures
        count_between(
            admitted_moments(h, max, window, user, readings.map_values(|d: Duration| clock_moment(d))),
            a,
            a + window,
        ) <= max,
{
    let times = readings.map_values(|d: Duration| clock_moment(d));
    assert forall|i: int, j: int| 0 <= i <= j < times.len() implies times[i] <= times[j] by {
        assert(duration_nanos(readings[i]) <= duration_nanos(readings[j]));
    }
    law_at_most_max_in_every_interval(h, max, window, user, times, a);
}

/// Sliding-window limiter: at most `max_requests` admitted requests per user within
/// any window of the configured length.
pub struct RateLimiter {
    requests: HashMap<i64, Vec<u64>>,
    max_requests: usize,
    window_nanos: u64,
    origin: Instant,
}

impl RateLimiter {
    /// The admitted moments of each user that the limiter keeps.
    pub closed spec fn history(&self) -> Map<i64, Seq<u64>> {
        Map::new(|u: i64| self.requests@.contains_key(u), |u: i64| self.requests@[u]@)
    }

    /// How many requests a user may make within one window.
    pub closed spec fn limit(&self) -> nat {
        self.max_requests as nat
    }

    /// The length of the window, in nanoseconds.
    pub closed spec fn window(&self) -> u64 {
        self.window_nanos
    }

    #[verifier::type_invariant]
    closed spec fn inv(&self) -> bool {
        bounded(self.history(), self.max_requests as nat)
    }

    /// A limiter for `max_requests` requests per window of `window_nanos` nanoseconds,
    /// with no history yet.
    pub fn with_window_nanos(max_requests: usize, window_nanos: u64) -> (r: Self)
        ensures
            r.limit() == max_requests,
            r.window() == window_nanos,
            r.history() == Map::<i64, Seq<u64>>::empty(),
    {
        let r = RateLimiter {
            requests: HashMap::new(),
            max_requests,
            window_nanos,
            origin: instant_now(),
        };
        assert(r.history() =~= Map::<i64, Seq<u64>>::empty());
        r
    }

    /// A limiter for `max_requests` requests per window of `window_secs` whole seconds
    /// (capped at `u64::MAX` nanoseconds), with no history yet.
    pub fn with_window_secs(max_requests: usize, window_secs: u64) -> (r: Self)
        ensures
            r.limit() == max_requests,
            r.window() == (if window_secs * 1_000_000_000 > u64::MAX {
                u64::MAX as int
            } else {
                window_secs * 1_000_000_000
            }),
            r.history() == Map::<i64, Seq<u64>>::empty(),
    {
        let nanos: u64 = if window_secs > 18446744073u64 {
            18446744073709551615u64
        } else {
            window_secs * 1_000_000_000u64
        };
        Self::with_window_nanos(max_requests, nanos)
    }

    /// A limiter for `max_requests` requests per `window` (its whole nanoseconds, capped
    /// at `u64::MAX`), with no history yet.
    pub fn new(max_requests: usize, window: Duration) -> (r: Self)
        ensures
            r.limit() == max_requests,
            r.window() == (if duration_nanos(window) > u64::MAX {
                u64::MAX as int
            } else {
                duration_nanos(window) as int
            }),
            r.history() == Map::<i64, Seq<u64>>::empty(),
    {
        let nanos = duration_as_nanos(&window);
        Self::with_window_nanos(max_requests, saturate_u64(nanos))
    }

    /// Decides a request of `user_id` made at `now` (nanoseconds since the limiter was
    /// made): `true` when admitted, `false` when throttled.
    pub fn check_at(&mut self, user_id: i64, now: u64) -> (allowed: bool)
        ensures
            allowed == admits(old(self).history(), old(self).limit(), old(self).window(), user_id, now),
            final(self).history() == after_request(
                old(self).history(),
                old(self).limit(),
                old(self).window(),
                user_id,
                now,
            ),
            final(self).limit() == old(self).limit(),
            final(self).window() == old(self).window(),
    {
        proof {
            use_type_invariant(&*self);
        }
        let ghost h0 = self.history();
        let mut requests: HashMap<i64, Vec<u64>> = HashMap::new();
        std::mem::swap(&mut requests, &mut self.requests);
        let previous = match requests.remove(&user_id) {
            Some(v) => v,
            None => Vec::new(),
        };
        assert(previous@ == user_history(h0, user_id));
        let window = self.window_nanos;
        let mut kept: Vec<u64> = Vec::new();
        let mut i: usize = 0;
        while i < previous.len()
            invariant
                i <= previous.len(),
                kept@ == recent(previous@.take(i as int), now, window),
            decreases previous.len() - i,
        {
            let t = previous[i];
            assert(previous@.take(i + 1).drop_last() =~= previous@.take(i as int));
            if now < t || now - t < window {
                kept.push(t);
            }
            i += 1;
        }
        assert(previous@.take(previous.len() as int) =~= previous@);
        let allowed = kept.len() < self.max_requests;
        if allowed {
            kept.push(now);
        }
        proof {
            lemma_recent_len(previous@, now, window);
        }
        requests.insert(user_id, kept);
        assert(Map::new(|u: i64| requests@.contains_key(u), |u: i64| requests@[u]@) =~= after_request(
            h0,
            self.max_requests as nat,
            window,
            user_id,
            now,
        ));
        self.requests = requests;
        allowed
    }

    /// Decides a request of `user_id` made now: `true` when admitted, `false` when
    /// throttled. The moment is read from the monotonic clock: it is the whole nanoseconds
    /// (capped at `u64::MAX`) of the duration the clock gives as elapsed since the limiter
    /// was made.
    pub fn check(&mut self, user_id: i64) -> (allowed: bool)
        ensures
            exists|now: u64|
                {
                    &&& allowed == admits(
                        old(self).history(),
                        old(self).limit(),
                        old(self).window(),
                        user_id,
                        now,
                    )
                    &&& final(self).history() == #[trigger] after_request(
                        old(self).history(),
                        old(self).limit(),
                        old(self).window(),
                        user_id,
                        now,
                    )
                },
            exists|elapsed: Duration|
                {
                    &&& allowed == admits(
                        old(self).history(),
                        old(self).limit(),
                        old(self).window(),
                        user_id,
                        #[trigger] clock_moment(elapsed),
                    )
                    &&& final(self).history() == after_request(
                        old(self).history(),
                        old(self).limit(),
                        old(self).window(),
                        user_id,
                        clock_moment(elapsed),
                    )
                },
            final(self).limit() == old(self).limit(),
            final(self).window() == old(self).window(),
    {
        let moment = instant_now();
        let elapsed = duration_since(&moment, &self.origin);
        let now = saturate_u64(duration_as_nanos(&elapsed));
        assert(now == clock_moment(elapsed));
        self.check_at(user_id, now)
    }
}

} // verus!
