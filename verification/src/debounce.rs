//! Suppresses restart storms: a restart is accepted only when at least
//! `debounce_ms` milliseconds have passed since the last accepted one.
//! A rejected event is dropped, not queued; the clock moves only on accept,
//! so the decision and the update form one atomic step.

use vstd::prelude::*;

verus! {

/// Whether a restart at `now` is accepted against the last-accepted
/// timestamp: always before the first accepted restart, and afterwards only
/// when at least `debounce_ms` milliseconds have elapsed. `debounce_ms == 0`
/// degenerates to always accepting.
pub open spec fn spec_accepts(last: Option<u64>, now: u64, debounce_ms: u64) -> bool {
    match last {
        None => true,
        Some(l) => now >= l && now - l >= debounce_ms,
    }
}

/// The clock after a decision at `now`: moved to `now` on accept, unchanged
/// on reject.
pub open spec fn spec_clock_after(last: Option<u64>, now: u64, debounce_ms: u64) -> Option<u64> {
    if spec_accepts(last, now, debounce_ms) {
        Some(now)
    } else {
        last
    }
}

/// The timestamp of the last accepted restart, on a monotonic millisecond
/// scale; `None` until the first restart is accepted.
pub struct RestartClock {
    last: Option<u64>,
}

impl View for RestartClock {
    type V = Option<u64>;

    closed spec fn view(&self) -> Option<u64> {
        self.last
    }
}

impl RestartClock {
    /// A fresh clock: no restart has been accepted yet, so the first
    /// qualifying event is accepted whatever the debounce window.
    pub fn new() -> (c: Self)
        ensures
            c@ is None,
    {
        RestartClock { last: None }
    }

    /// Decide one restart request at `now` and move the clock exactly when
    /// accepting, in the same step.
    pub fn accept(&mut self, now: u64, debounce_ms: u64) -> (r: bool)
        ensures
            r == spec_accepts(old(self)@, now, debounce_ms),
            final(self)@ == spec_clock_after(old(self)@, now, debounce_ms),
    {
        let accepted = match self.last {
            None => true,
            Some(l) => now >= l && now - l >= debounce_ms,
        };
        if accepted {
            self.last = Some(now);
        }
        accepted
    }
}

/// How many requests out of `times`, decided in order against a clock that
/// starts at `last`, are accepted.
pub open spec fn spec_accept_count(last: Option<u64>, times: Seq<u64>, debounce_ms: u64) -> nat
    decreases times.len(),
{
    if times.len() == 0 {
        0
    } else {
        (if spec_accepts(last, times[0], debounce_ms) {
            1nat
        } else {
            0nat
        }) + spec_accept_count(
            spec_clock_after(last, times[0], debounce_ms),
            times.drop_first(),
            debounce_ms,
        )
    }
}

/// Once a restart was accepted at `l`, no request strictly inside its window
/// is accepted, so a batch of requests that all fall before `l + debounce_ms`
/// is rejected wholesale.
proof fn lemma_window_rejects_all(l: u64, times: Seq<u64>, debounce_ms: u64)
    requires
        forall|m: int| 0 <= m < times.len() ==> #[trigger] times[m] < l + debounce_ms,
    ensures
        spec_accept_count(Some(l), times, debounce_ms) == 0,
    decreases times.len(),
{
    if times.len() > 0 {
        assert(times[0] < l + debounce_ms);
        assert(!spec_accepts(Some(l), times[0], debounce_ms));
        assert(forall|m: int|
            0 <= m < times.drop_first().len() ==> #[trigger] times.drop_first()[m] < l
                + debounce_ms);
        lemma_window_rejects_all(l, times.drop_first(), debounce_ms);
    }
}

/// Idempotent debounce: for any sequence of qualifying requests that all
/// fall within one window of positive length `debounce_ms` starting at `w`,
/// at most one is accepted, from any starting clock.
pub proof fn lemma_at_most_one_accept_per_window(
    last: Option<u64>,
    times: Seq<u64>,
    w: u64,
    debounce_ms: u64,
)
    requires
        debounce_ms >= 1,
        forall|m: int| 0 <= m < times.len() ==> w <= #[trigger] times[m] < w + debounce_ms,
    ensures
        spec_accept_count(last, times, debounce_ms) <= 1,
    decreases times.len(),
{
    if times.len() > 0 {
        assert(w <= times[0] < w + debounce_ms);
        assert(forall|m: int|
            0 <= m < times.drop_first().len() ==> w <= #[trigger] times.drop_first()[m] < w
                + debounce_ms);
        if spec_accepts(last, times[0], debounce_ms) {
            // The clock moved to times[0] >= w, so the rest of the window,
            // which ends before w + debounce_ms <= times[0] + debounce_ms,
            // is rejected wholesale.
            assert(forall|m: int|
                0 <= m < times.drop_first().len() ==> #[trigger] times.drop_first()[m] < times[0]
                    + debounce_ms);
            lemma_window_rejects_all(times[0], times.drop_first(), debounce_ms);
        } else {
            lemma_at_most_one_accept_per_window(last, times.drop_first(), w, debounce_ms);
        }
    }
}

} // verus!
