//! The windowed limiter: counts attempts since the window was last reset and
//! lets an attempt run only while that count is under the ceiling.
use std::time::Instant;
use vstd::prelude::*;

verus! {

/// Seconds in a window of one second.
pub const SECOND_SECS: u64 = 1;
/// Seconds in a window of one minute.
pub const MINUTE_SECS: u64 = 60;
/// Seconds in a window of one hour.
pub const HOUR_SECS: u64 = 3600;
/// Seconds in a window of one day.
pub const DAY_SECS: u64 = 86400;

#[verifier::external_type_specification]
#[verifier::external_body]
pub struct ExInstant(Instant);

/// Relies on `Instant::now`: reads the monotonic clock. Nothing is known of
/// the value it returns.
#[verifier::external_body]
fn instant_now() -> (r: Instant) {
    Instant::now()
}

/// Relies on `Instant::elapsed` and `Duration::as_secs`: the whole seconds
/// that have passed since `since`. It depends on the clock, so nothing is
/// known of the value.
#[verifier::external_body]
fn whole_secs_since(since: &Instant) -> (r: u64) {
    since.elapsed().as_secs()
}

/// The count an attempt is judged by: the stored count, or zero when a call
/// was permitted before and a full window has passed since it.
pub open spec fn window_count(count: u32, has_last: bool, window_secs: u64, elapsed_secs: u64) -> u32 {
    if has_last && elapsed_secs >= window_secs {
        0
    } else {
        count
    }
}

/// The count after one more attempt. It saturates at `u32::MAX`, which leaves
/// every gating decision as it would be with an unbounded count, since a
/// ceiling is at most `u32::MAX`.
pub open spec fn next_count(count: u32) -> u32 {
    if count == u32::MAX {
        count
    } else {
        (count + 1) as u32
    }
}

/// How many of a burst of attempts run, starting from a limiter whose count
/// is `count`, where `elapsed[i]` is the whole seconds passed since the last
/// permitted call when attempt `i` is made.
pub open spec fn burst_runs(
    count: u32,
    has_last: bool,
    limit: u32,
    window_secs: u64,
    elapsed: Seq<u64>,
) -> nat
    decreases elapsed.len(),
{
    if elapsed.len() == 0 {
        0
    } else {
        let c = window_count(count, has_last, window_secs, elapsed[0]);
        let runs = c < limit;
        (if runs { 1nat } else { 0nat }) + burst_runs(
            next_count(c),
            has_last || runs,
            limit,
            window_secs,
            elapsed.drop_first(),
        )
    }
}

/// Within one window no reset happens: a burst runs as many attempts as the
/// ceiling has room for, and no more.
proof fn lemma_burst_without_reset(
    count: u32,
    has_last: bool,
    limit: u32,
    window_secs: u64,
    elapsed: Seq<u64>,
)
    requires
        forall|i: int| 0 <= i < elapsed.len() ==> #[trigger] elapsed[i] < window_secs,
    ensures
        count >= limit ==> burst_runs(count, has_last, limit, window_secs, elapsed) == 0,
        count < limit ==> burst_runs(count, has_last, limit, window_secs, elapsed) == (if elapsed.len()
            <= limit - count {
            elapsed.len() as int
        } else {
            limit - count
        }),
    decreases elapsed.len(),
{
    if elapsed.len() > 0 {
        let rest = elapsed.drop_first();
        assert forall|i: int| 0 <= i < rest.len() implies #[trigger] rest[i] < window_secs by {
            assert(rest[i] == elapsed[i + 1]);
        }
        let c = window_count(count, has_last, window_secs, elapsed[0]);
        assert(c == count);
        lemma_burst_without_reset(next_count(c), has_last || c < limit, limit, window_secs, rest);
    }
}

/// A fresh limiter with ceiling `limit`, given a burst of at least `limit`
/// attempts that all fall within one window of the last permitted call, runs
/// exactly `limit` of them.
pub proof fn lemma_fresh_burst_runs_ceiling(limit: u32, window_secs: u64, elapsed: Seq<u64>)
    requires
        elapsed.len() >= limit,
        forall|i: int| 0 <= i < elapsed.len() ==> #[trigger] elapsed[i] < window_secs,
    ensures
        burst_runs(0, false, limit, window_secs, elapsed) == limit,
{
    lemma_burst_without_reset(0, false, limit, window_secs, elapsed);
}

/// Once a full window has passed since the last permitted call, a burst of at
/// least `limit` attempts, the rest of which fall within one window, runs
/// exactly `limit` of them again, whatever the count was before.
pub proof fn lemma_burst_after_window_runs_ceiling(
    count: u32,
    limit: u32,
    window_secs: u64,
    elapsed: Seq<u64>,
)
    requires
        elapsed.len() >= limit,
        elapsed.len() >= 1,
        elapsed[0] >= window_secs,
        forall|i: int| 1 <= i < elapsed.len() ==> #[trigger] elapsed[i] < window_secs,
    ensures
        burst_runs(count, true, limit, window_secs, elapsed) == limit,
{
    let rest = elapsed.drop_first();
    assert forall|i: int| 0 <= i < rest.len() implies #[trigger] rest[i] < window_secs by {
        assert(rest[i] == elapsed[i + 1]);
    }
    assert(window_count(count, true, window_secs, elapsed[0]) == 0);
    lemma_burst_without_reset(next_count(0), true, limit, window_secs, rest);
}

/// A limiter that lets at most `max_per_time` calls run in each window of
/// `window_secs` seconds. The window is reset lazily: an attempt made a full
/// window or more after the last permitted call starts the count over.
pub struct NoSpam {
    last_call: Option<Instant>,
    max_per_time: u32,
    /// Attempts seen since the window was last reset, permitted or not.
    pub calls_per_time: u32,
    window_secs: u64,
}

impl NoSpam {
    /// The ceiling of calls per window.
    pub closed spec fn limit(&self) -> u32 {
        self.max_per_time
    }

    /// Attempts seen since the window was last reset.
    pub closed spec fn count(&self) -> u32 {
        self.calls_per_time
    }

    /// The window's length in seconds.
    pub closed spec fn window(&self) -> u64 {
        self.window_secs
    }

    /// Whether a call has been permitted yet.
    pub closed spec fn has_last(&self) -> bool {
        self.last_call is Some
    }

    fn with_window(max_per_time: u32, window_secs: u64) -> (r: NoSpam)
        ensures
            r.limit() == max_per_time,
            r.window() == window_secs,
            r.count() == 0,
            !r.has_last(),
    {
        NoSpam { last_call: None, max_per_time, calls_per_time: 0, window_secs }
    }

    /// A limiter that lets `max_per_second` calls run per second.
    pub fn new_per_second(max_per_second: u32) -> (r: NoSpam)
        ensures
            r.limit() == max_per_second,
            r.window() == SECOND_SECS,
            r.count() == 0,
            !r.has_last(),
    {
        NoSpam::with_window(max_per_second, SECOND_SECS)
    }

    /// A limiter that lets `max_per_minute` calls run per minute.
    pub fn new_per_minute(max_per_minute: u32) -> (r: NoSpam)
        ensures
            r.limit() == max_per_minute,
            r.window() == MINUTE_SECS,
            r.count() == 0,
            !r.has_last(),
    {
        NoSpam::with_window(max_per_minute, MINUTE_SECS)
    }

    /// A limiter that lets `max_per_hour` calls run per hour.
    pub fn new_per_hour(max_per_hour: u32) -> (r: NoSpam)
        ensures
            r.limit() == max_per_hour,
            r.window() == HOUR_SECS,
            r.count() == 0,
            !r.has_last(),
    {
        NoSpam::with_window(max_per_hour, HOUR_SECS)
    }

    /// A limiter that lets `max_per_day` calls run per day.
    pub fn new_per_day(max_per_day: u32) -> (r: NoSpam)
        ensures
            r.limit() == max_per_day,
            r.window() == DAY_SECS,
            r.count() == 0,
            !r.has_last(),
    {
        NoSpam::with_window(max_per_day, DAY_SECS)
    }

    /// Decides one attempt made `elapsed_secs` whole seconds after the last
    /// permitted call (ignored when none was permitted yet). When the attempt
    /// may run, the last call is stamped with the current time and the count
    /// to hand to the action is returned. The count goes up in either case.
    pub fn attempt(&mut self, elapsed_secs: u64) -> (r: Option<u32>)
        ensures
            ({
                let c = window_count(
                    old(self).count(),
                    old(self).has_last(),
                    old(self).window(),
                    elapsed_secs,
                );
                &&& r == (if c < old(self).limit() { Some(c) } else { None::<u32> })
                &&& final(self).count() == next_count(c)
                &&& final(self).has_last() == (old(self).has_last() || c < old(self).limit())
            }),
            r matches Some(c) ==> c < final(self).limit(),
            final(self).limit() == old(self).limit(),
            final(self).window() == old(self).window(),
    {
        if self.last_call.is_some() && elapsed_secs >= self.window_secs {
            self.calls_per_time = 0;
        }
        let c = self.calls_per_time;
        let r = if c < self.max_per_time {
            self.last_call = Some(instant_now());
            Some(c)
        } else {
            None
        };
        self.calls_per_time = self.calls_per_time.saturating_add(1);
        r
    }

    /// Runs `f` with the current count if the ceiling allows it, judging the
    /// window by the whole seconds passed since the last permitted call. The
    /// last call is stamped just before `f` runs. Only counts under the
    /// ceiling are ever handed to `f`.
    pub fn on<F>(&mut self, mut f: F)
        where
            F: FnMut(u32),
        requires
            forall|c: u32| c < old(self).limit() ==> f.requires((c,)),
        ensures
            final(self).limit() == old(self).limit(),
            final(self).window() == old(self).window(),
            old(self).has_last() ==> final(self).has_last(),
            old(self).has_last() ==> final(self).count() == next_count(old(self).count())
                || final(self).count() == 1,
            !old(self).has_last() ==> final(self).count() == next_count(old(self).count()),
            !old(self).has_last() ==> final(self).has_last() == (old(self).count()
                < old(self).limit()),
    {
        let elapsed_secs: u64 = match &self.last_call {
            Some(last) => whole_secs_since(last),
            None => 0,
        };
        if let Some(c) = self.attempt(elapsed_secs) {
            f(c);
        }
    }
}

} // verus!
