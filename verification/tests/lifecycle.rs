use ofs::errors::OfsError;
use ofs::lifecycle::{
    cleanup_step, cutoff_before, cycle_cutoffs, CleanupAction, CleanupEvent, expired_intervals, lifecycle_step, plan_cleanup, ttl_days, CleanupPlan,
    LifecycleAction, LifecycleEvent,
};
use ofs::types::FeatureView;
use ofs::time::{Duration, UtcDateTime};

fn at(secs: i64) -> UtcDateTime {
    UtcDateTime { secs, nanos: 0 }
}

#[test]
fn test_cleanup_cycle_removes_expired_intervals() {
    let intervals = vec![(at(0), at(100)), (at(100), at(500)), (at(500), at(900))];
    match plan_cleanup(&intervals, at(500)) {
        CleanupPlan::Purge { expired, cutoff } => {
            assert_eq!(expired, vec![(at(0), at(100))]);
            assert_eq!(cutoff, at(500));
        }
        CleanupPlan::Nothing => panic!("expected a purge"),
    }
}

#[test]
fn test_cleanup_no_expired_intervals() {
    let intervals = vec![(at(600), at(900))];
    assert!(matches!(plan_cleanup(&intervals, at(500)), CleanupPlan::Nothing));
    assert!(expired_intervals(&intervals, at(500)).is_empty());
}

#[test]
fn ttl_in_days() {
    assert_eq!(ttl_days(Some(Duration::from_secs(86400 * 7)), 90), 7);
    assert_eq!(ttl_days(Some(Duration::from_secs(60)), 90), 1);
    assert_eq!(ttl_days(None, 90), 90);
}

#[test]
fn cutoff_days_before() {
    assert_eq!(cutoff_before(at(86400 * 10), 3), at(86400 * 7));
    assert_eq!(cutoff_before(UtcDateTime { secs: 59, nanos: 1_500_000_000 }, 1), UtcDateTime { secs: 60 - 86400, nanos: 500_000_000 });
}

#[test]
fn test_cleanup_skips_empty_projects() {
    // A project without feature views has nothing to clean in a cycle.
    assert!(cycle_cutoffs(&vec![], 90, at(86400 * 1000)).is_empty());
}

#[test]
fn cycle_cutoffs_per_feature_view() {
    let mut short = FeatureView::new("short");
    short.ttl = Some(Duration::from_secs(30 * 86400));
    let default = FeatureView::new("default");
    let cutoffs = cycle_cutoffs(&vec![short, default], 90, at(86400 * 1000));
    assert_eq!(cutoffs, vec![at(86400 * 970), at(86400 * 910)]);
}

#[test]
fn test_run_respects_shutdown() {
    assert_eq!(lifecycle_step(LifecycleEvent::Shutdown), LifecycleAction::Stop);
    assert_eq!(lifecycle_step(LifecycleEvent::IntervalElapsed), LifecycleAction::RunCycle);
}

#[test]
fn cleanup_steps_and_their_errors() {
    let cutoff = at(500);
    let ivs = vec![(at(0), at(100)), (at(600), at(900))];
    match cleanup_step(cutoff, CleanupEvent::Intervals(Ok(ivs))) {
        CleanupAction::RemoveIntervals(ex) => assert_eq!(ex, vec![(at(0), at(100))]),
        other => panic!("unexpected {:?}", other),
    }
    assert!(matches!(cleanup_step(cutoff, CleanupEvent::Intervals(Ok(vec![(at(600), at(900))]))), CleanupAction::Finish(Ok(()))));
    assert!(matches!(
        cleanup_step(cutoff, CleanupEvent::Intervals(Err(OfsError::Database("x".to_string())))),
        CleanupAction::Finish(Err(OfsError::Database(_)))
    ));
    assert!(matches!(
        cleanup_step(cutoff, CleanupEvent::Removed(Err(OfsError::Database("x".to_string())))),
        CleanupAction::Finish(Err(_))
    ));
    assert!(matches!(cleanup_step(cutoff, CleanupEvent::Removed(Ok(()))), CleanupAction::Commit));
    // The commit and the purges go on whatever they report.
    assert!(matches!(
        cleanup_step(cutoff, CleanupEvent::Committed(Err(OfsError::Database("x".to_string())))),
        CleanupAction::PurgeOnline(c) if c == cutoff
    ));
    assert!(matches!(cleanup_step(cutoff, CleanupEvent::OnlinePurged(Ok(5))), CleanupAction::PurgeOffline(_)));
    assert!(matches!(
        cleanup_step(cutoff, CleanupEvent::OfflinePurged(Err(OfsError::DuckDb("x".to_string())))),
        CleanupAction::Finish(Ok(()))
    ));
}
