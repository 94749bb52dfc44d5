use vstd::prelude::*;

use crate::utils::time;
use crate::utils::time::{current_window_ts, generate_slug, window_end_ts};

verus! {

/// Seconds before the end of the tracked market when the next one is loaded.
pub const PRELOAD_LEAD_SECS: i64 = 20;

/// Seconds between two rounds of the watcher.
pub const TICK_SECS: u64 = 2;

/// A market window: where it starts, where it ends, and the slug of its market.
pub struct WindowPlan {
    pub window_ts: i64,
    pub end_ts: i64,
    pub slug: String,
}

/// Describes the window that starts at `window_ts`.
pub fn plan_window(window_ts: i64) -> (plan: WindowPlan)
    requires
        window_ts <= i64::MAX - 300,
    ensures
        plan.window_ts == window_ts,
        plan.end_ts == window_ts + 300,
        plan.slug@ == time::slug_text(window_ts as int),
{
    let slug = generate_slug(window_ts);
    let end_ts = window_end_ts(window_ts);
    WindowPlan { window_ts, end_ts, slug }
}

/// Describes the window that holds `now`.
pub fn plan_current_window(now: i64) -> (plan: WindowPlan)
    requires
        i64::MIN + 8 <= now,
        time::window_start(now as int) <= i64::MAX - 300,
    ensures
        plan.window_ts == time::window_start(now as int),
        plan.end_ts == time::window_start(now as int) + 300,
        plan.slug@ == time::slug_text(time::window_start(now as int)),
{
    let window_ts = current_window_ts(now);
    plan_window(window_ts)
}

/// What one round of the watcher does with the tracked market.
#[derive(Debug, Clone, Copy, PartialEq, Eq, Structural)]
pub struct TickDecision {
    /// Look up and start following the market of the next window.
    pub preload_next: bool,
    /// The tracked market is over: shift the buffer and settle it.
    pub rotate: bool,
}

/// The decision for a tracked market with `secs_left` seconds to go, when the
/// next market is or is not loaded yet.
pub open spec fn decide_tick(secs_left: int, next_loaded: bool) -> TickDecision {
    TickDecision {
        preload_next: secs_left <= PRELOAD_LEAD_SECS && !next_loaded,
        rotate: secs_left <= 0,
    }
}

/// Decides one round for a tracked market that ends at `end_ts`, at time `now`.
pub fn tick_decision(end_ts: i64, now: i64, next_loaded: bool) -> (decision: TickDecision)
    requires
        i64::MIN <= end_ts - now <= i64::MAX,
    ensures
        decision == decide_tick(end_ts - now, next_loaded),
        decision.rotate == (end_ts - now <= 0),
        decision.preload_next == (end_ts - now <= PRELOAD_LEAD_SECS && !next_loaded),
{
    let secs_left = end_ts - now;
    TickDecision { preload_next: secs_left <= PRELOAD_LEAD_SECS && !next_loaded, rotate: secs_left <= 0 }
}

/// A market is never rotated out before the next one has been asked for:
/// in a round that rotates, the next market is loaded already or is loaded
/// in that same round.
pub proof fn lemma_rotate_only_after_preload(secs_left: int, next_loaded: bool)
    ensures
        decide_tick(secs_left, next_loaded).rotate ==> next_loaded || decide_tick(
            secs_left,
            next_loaded,
        ).preload_next,
{
}

/// The window loaded next starts where the tracked one ends, is a window of
/// its own (its start is a window start), and its market has a slug of its
/// own.
pub proof fn lemma_next_window_follows(now: int)
    ensures
        time::window_start(time::window_start(now) + 300) == time::window_start(now) + 300,
        time::slug_text(time::window_start(now) + 300) != time::slug_text(time::window_start(now)),
{
    time::lemma_window_end_starts_next(now);
    if time::slug_text(time::window_start(now) + 300) == time::slug_text(time::window_start(now)) {
        time::lemma_slug_names_window(time::window_start(now) + 300, time::window_start(now));
    }
}


/// A round rotates exactly when the tracked market's end is reached, whether
/// or not the next market is loaded; it preloads exactly when at most
/// `PRELOAD_LEAD_SECS` seconds are left and the next market is not loaded.
pub proof fn lemma_rotate_exactly_at_end(secs_left: int, next_loaded: bool)
    ensures
        decide_tick(secs_left, next_loaded).rotate <==> secs_left <= 0,
        decide_tick(secs_left, true).rotate == decide_tick(secs_left, false).rotate,
        decide_tick(secs_left, next_loaded).preload_next <==> (secs_left <= PRELOAD_LEAD_SECS
            && !next_loaded),
{
}

} // verus!
