//! Data lifecycle: how long a feature view's data lives, the cutoff before
//! which it is stale, and which materialization intervals have expired.
use vstd::prelude::*;

use crate::time::{dt_before, Duration, UtcDateTime};

verus! {

/// The number of days a feature view's data lives: its time to live in
/// whole days, at least one, or else the default.
pub open spec fn ttl_days_spec(ttl: Option<Duration>, default_days: u64) -> i64 {
    match ttl {
        Some(d) => if d.secs / 86400 < 1 {
            1
        } else {
            (d.secs / 86400) as i64
        },
        None => default_days as i64,
    }
}

/// The number of days a feature view's data lives.
pub fn ttl_days(ttl: Option<Duration>, default_days: u64) -> (r: i64)
    ensures
        r == ttl_days_spec(ttl, default_days),
{
    match ttl {
        Some(d) => {
            let days = d.as_secs() / 86400;
            if days < 1 {
                1
            } else {
                days as i64
            }
        },
        None => default_days as i64,
    }
}

/// The instant `days` days before `now`, as chrono subtracts whole seconds:
/// an instant within a leap second counts from the end of that second.
pub open spec fn days_before(now: UtcDateTime, days: int) -> UtcDateTime {
    let n = days * 86400;
    if n == 0 {
        now
    } else if now.nanos >= 1_000_000_000 {
        UtcDateTime {
            secs: (if n > 0 {
                now.secs + 1 - n
            } else {
                now.secs - n
            }) as i64,
            nanos: (now.nanos - 1_000_000_000) as u32,
        }
    } else {
        UtcDateTime { secs: (now.secs - n) as i64, nanos: now.nanos }
    }
}

/// The cutoff `ttl_days` days before `now`: data that ended before it is
/// stale.
pub fn cutoff_before(now: UtcDateTime, ttl_days: i64) -> (r: UtcDateTime)
    requires
        -106_751_991_167 <= ttl_days <= 106_751_991_167,
        -8_334_601_228_800 <= now.secs - ttl_days * 86400 <= 8_210_266_876_799,
    ensures
        r == days_before(now, ttl_days as int),
{
    let n: i64 = ttl_days * 86400;
    if n == 0 {
        now
    } else if now.nanos >= 1_000_000_000 {
        let secs = if n > 0 {
            now.secs + 1 - n
        } else {
            now.secs - n
        };
        UtcDateTime { secs, nanos: now.nanos - 1_000_000_000 }
    } else {
        UtcDateTime { secs: now.secs - n, nanos: now.nanos }
    }
}

/// The intervals that ended before the cutoff, in order.
pub open spec fn expired_spec(intervals: Seq<(UtcDateTime, UtcDateTime)>, cutoff: UtcDateTime) -> Seq<
    (UtcDateTime, UtcDateTime),
> {
    intervals.filter(|i: (UtcDateTime, UtcDateTime)| dt_before(i.1, cutoff))
}

/// The materialization intervals that ended before the cutoff.
pub fn expired_intervals(intervals: &Vec<(UtcDateTime, UtcDateTime)>, cutoff: UtcDateTime) -> (r: Vec<
    (UtcDateTime, UtcDateTime),
>)
    ensures
        r@ == expired_spec(intervals@, cutoff),
{
    let mut out: Vec<(UtcDateTime, UtcDateTime)> = Vec::new();
    let n = intervals.len();
    let mut i: usize = 0;
    while i < n
        invariant
            n == intervals@.len(),
            i <= n,
            out@ == expired_spec(intervals@.take(i as int), cutoff),
        decreases n - i,
    {
        let iv = intervals[i];
        proof {
            assert(intervals@.take(i + 1).drop_last() =~= intervals@.take(i as int));
            assert(intervals@.take(i + 1).last() == iv);
            reveal(Seq::filter);
        }
        if iv.1.is_before(&cutoff) {
            out.push(iv);
        }
        i = i + 1;
    }
    proof {
        assert(intervals@.take(n as int) =~= intervals@);
    }
    out
}

/// Every expired interval ended before the cutoff; every interval that
/// ended before the cutoff is expired.
pub proof fn lemma_expired(intervals: Seq<(UtcDateTime, UtcDateTime)>, cutoff: UtcDateTime)
    ensures
        forall|i: int|
            0 <= i < expired_spec(intervals, cutoff).len() ==> dt_before(
                (#[trigger] expired_spec(intervals, cutoff)[i]).1,
                cutoff,
            ),
        forall|j: int|
            0 <= j < intervals.len() && dt_before((#[trigger] intervals[j]).1, cutoff) ==> expired_spec(
                intervals,
                cutoff,
            ).contains(intervals[j]),
{
    let f = |i: (UtcDateTime, UtcDateTime)| dt_before(i.1, cutoff);
    intervals.filter_lemma(f);
    let e = expired_spec(intervals, cutoff);
    assert(e == intervals.filter(f));
    assert forall|i: int| 0 <= i < e.len() implies dt_before((#[trigger] e[i]).1, cutoff) by {
        assert(f(e[i]));
    }
    assert forall|j: int| 0 <= j < intervals.len() && dt_before((#[trigger] intervals[j]).1, cutoff) implies expired_spec(
        intervals,
        cutoff,
    ).contains(intervals[j]) by {
        assert(intervals.contains(intervals[j]));
        assert(f(intervals[j]));
    }
}

/// What a cleanup of one feature view does: nothing when no interval has
/// expired; otherwise it removes the expired intervals from the registry and
/// purges data older than the cutoff from the online and offline stores.
#[derive(Debug, Clone)]
pub enum CleanupPlan {
    Nothing,
    Purge { expired: Vec<(UtcDateTime, UtcDateTime)>, cutoff: UtcDateTime },
}

/// The cleanup of a feature view with these intervals at this cutoff.
pub fn plan_cleanup(intervals: &Vec<(UtcDateTime, UtcDateTime)>, cutoff: UtcDateTime) -> (r: CleanupPlan)
    ensures
        expired_spec(intervals@, cutoff).len() == 0 ==> r is Nothing,
        expired_spec(intervals@, cutoff).len() > 0 ==> (r matches CleanupPlan::Purge { expired, cutoff: c }
            && expired@ == expired_spec(intervals@, cutoff) && c == cutoff),
{
    let expired = expired_intervals(intervals, cutoff);
    if expired.len() == 0 {
        CleanupPlan::Nothing
    } else {
        CleanupPlan::Purge { expired, cutoff }
    }
}

/// Whether a feature view's time to live, or the default, gives a cutoff
/// that chrono can compute at `now`: a day count it accepts, and an instant
/// within its range.
pub open spec fn cutoff_computable(ttl: Option<Duration>, default_days: u64, now: UtcDateTime) -> bool {
    let d = ttl_days_spec(ttl, default_days);
    &&& -106_751_991_167 <= d <= 106_751_991_167
    &&& -8_334_601_228_800 <= now.secs - d * 86400 <= 8_210_266_876_799
}

/// The cutoffs of one cleanup cycle of a project at `now`: one per feature
/// view, in order, each its time to live (or the default) before `now`.
pub fn cycle_cutoffs(feature_views: &Vec<crate::types::FeatureView>, default_days: u64, now: UtcDateTime) -> (r: Vec<
    UtcDateTime,
>)
    requires
        forall|i: int|
            0 <= i < feature_views@.len() ==> cutoff_computable(
                (#[trigger] feature_views@[i]).ttl,
                default_days,
                now,
            ),
    ensures
        r@.len() == feature_views@.len(),
        forall|i: int|
            0 <= i < r@.len() ==> #[trigger] r@[i] == days_before(
                now,
                ttl_days_spec(feature_views@[i].ttl, default_days) as int,
            ),
{
    let mut out: Vec<UtcDateTime> = Vec::new();
    let n = feature_views.len();
    let mut i: usize = 0;
    while i < n
        invariant
            n == feature_views@.len(),
            i <= n,
            out@.len() == i,
            forall|k: int|
                0 <= k < feature_views@.len() ==> cutoff_computable(
                    (#[trigger] feature_views@[k]).ttl,
                    default_days,
                    now,
                ),
            forall|k: int|
                0 <= k < i ==> #[trigger] out@[k] == days_before(
                    now,
                    ttl_days_spec(feature_views@[k].ttl, default_days) as int,
                ),
        decreases n - i,
    {
        let days = ttl_days(feature_views[i].ttl, default_days);
        proof {
            assert(cutoff_computable(feature_views@[i as int].ttl, default_days, now));
        }
        out.push(cutoff_before(now, days));
        i = i + 1;
    }
    out
}

/// What wakes the lifecycle manager: a shutdown notice, or the end of the
/// pause between two cycles.
#[derive(Debug, Clone, Copy, PartialEq, Eq, Structural)]
pub enum LifecycleEvent {
    Shutdown,
    IntervalElapsed,
}

/// What the lifecycle manager does next.
#[derive(Debug, Clone, Copy, PartialEq, Eq, Structural)]
pub enum LifecycleAction {
    Stop,
    RunCycle,
}

/// The manager stops on a shutdown notice and otherwise runs a cleanup
/// cycle and waits again.
pub fn lifecycle_step(event: LifecycleEvent) -> (r: LifecycleAction)
    ensures
        event == LifecycleEvent::Shutdown <==> r == LifecycleAction::Stop,
{
    match event {
        LifecycleEvent::Shutdown => LifecycleAction::Stop,
        LifecycleEvent::IntervalElapsed => LifecycleAction::RunCycle,
    }
}

/// What the cleanup of one feature view has just learnt.
#[derive(Debug)]
pub enum CleanupEvent {
    /// The registry's materialization intervals of the view were read.
    Intervals(Result<Vec<(UtcDateTime, UtcDateTime)>, crate::errors::OfsError>),
    /// The expired intervals were removed from the registry.
    Removed(Result<(), crate::errors::OfsError>),
    /// The registry was committed.
    Committed(Result<(), crate::errors::OfsError>),
    /// The online store purged the view's stale entries (how many).
    OnlinePurged(Result<u64, crate::errors::OfsError>),
    /// The offline store purged the view's stale rows (how many).
    OfflinePurged(Result<u64, crate::errors::OfsError>),
}

/// What the cleanup of one feature view does next.
#[derive(Debug)]
pub enum CleanupAction {
    /// Remove these intervals from the registry.
    RemoveIntervals(Vec<(UtcDateTime, UtcDateTime)>),
    /// Commit the registry.
    Commit,
    /// Purge the online store's entries of the view older than the cutoff.
    PurgeOnline(UtcDateTime),
    /// Purge the offline store's rows of the view older than the cutoff.
    PurgeOffline(UtcDateTime),
    /// The cleanup is over, with this outcome.
    Finish(Result<(), crate::errors::OfsError>),
}

/// The cleanup of one feature view at `cutoff`, one step at a time: failing
/// to read or to remove the intervals fails the cleanup; with no expired
/// interval it ends there; otherwise the expired intervals are removed, the
/// registry committed, and the online and then the offline store purged,
/// where the commit and both purges go on whatever they report.
pub fn cleanup_step(cutoff: UtcDateTime, event: CleanupEvent) -> (r: CleanupAction)
    ensures
        match event {
            CleanupEvent::Intervals(Err(e)) => r == CleanupAction::Finish(Err(e)),
            CleanupEvent::Intervals(Ok(ivs)) => if expired_spec(ivs@, cutoff).len() == 0 {
                r == CleanupAction::Finish(Ok(()))
            } else {
                r matches CleanupAction::RemoveIntervals(ex) && ex@ == expired_spec(ivs@, cutoff)
            },
            CleanupEvent::Removed(Err(e)) => r == CleanupAction::Finish(Err(e)),
            CleanupEvent::Removed(Ok(())) => r == CleanupAction::Commit,
            CleanupEvent::Committed(_) => r == CleanupAction::PurgeOnline(cutoff),
            CleanupEvent::OnlinePurged(_) => r == CleanupAction::PurgeOffline(cutoff),
            CleanupEvent::OfflinePurged(_) => r == CleanupAction::Finish(Ok(())),
        },
{
    match event {
        CleanupEvent::Intervals(Err(e)) => CleanupAction::Finish(Err(e)),
        CleanupEvent::Intervals(Ok(ivs)) => match plan_cleanup(&ivs, cutoff) {
            CleanupPlan::Nothing => CleanupAction::Finish(Ok(())),
            CleanupPlan::Purge { expired, .. } => CleanupAction::RemoveIntervals(expired),
        },
        CleanupEvent::Removed(Err(e)) => CleanupAction::Finish(Err(e)),
        CleanupEvent::Removed(Ok(())) => CleanupAction::Commit,
        CleanupEvent::Committed(_) => CleanupAction::PurgeOnline(cutoff),
        CleanupEvent::OnlinePurged(_) => CleanupAction::PurgeOffline(cutoff),
        CleanupEvent::OfflinePurged(_) => CleanupAction::Finish(Ok(())),
    }
}

} // verus!
