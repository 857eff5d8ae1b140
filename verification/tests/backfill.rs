use ofs::backfill::{
    backfill_job_from_row, backfill_start, backfill_job_row, backfill_jobs_from_rows, backfill_outcome, check_cancellable, check_executable, effective_concurrency, plan_chunks, BackfillJob,
    BackfillStatus, BackfillStep,
};
use ofs::errors::OfsError;
use ofs::time::UtcDateTime;

fn at(secs: i64) -> UtcDateTime {
    UtcDateTime { secs, nanos: 0 }
}

fn job(status: BackfillStatus) -> BackfillJob {
    BackfillJob::new_pending("job-1".to_string(), "driver_stats", "default", at(0), at(86400 * 3), 86400, at(0))
        .with_status(status, None, at(1))
}

#[test]
fn test_create_job() {
    let j = BackfillJob::new_pending("job-1".to_string(), "driver_stats", "default", at(0), at(86400), 3600, at(5));
    assert_eq!(j.status, BackfillStatus::Pending);
    assert_eq!(j.progress_bits, 0);
    assert_eq!(j.created_at, at(5));
    assert!(j.error.is_none());
}

#[test]
fn test_execute_job_not_found() {
    let r = check_executable("missing", &None);
    assert!(matches!(r, Err(OfsError::NotFound(_))));
}

#[test]
fn test_cancel_job() {
    assert!(check_cancellable("job-1", &Some(job(BackfillStatus::Running))).is_ok());
    assert!(check_cancellable("job-1", &Some(job(BackfillStatus::Completed))).is_err());
}

#[test]
fn only_pending_jobs_execute() {
    assert!(check_executable("job-1", &Some(job(BackfillStatus::Pending))).is_ok());
    assert!(check_executable("job-1", &Some(job(BackfillStatus::Running))).is_err());
}

#[test]
fn chunks_cover_the_range() {
    let chunks = plan_chunks(at(0), at(250), 100);
    assert_eq!(chunks, vec![(at(0), at(100)), (at(100), at(200)), (at(200), at(250))]);
    let one = plan_chunks(at(10), at(10), 100);
    assert_eq!(one.len(), 1);
}

#[test]
fn outcome_stops_at_first_failure() {
    let results = vec![Ok(()), Err(OfsError::Other("boom".to_string())), Ok(())];
    let (steps, outcome) = backfill_outcome("job-1", &results);
    assert_eq!(steps.len(), 3);
    assert!(matches!(steps[0], BackfillStep::Progress { completed: 1, total: 3 }));
    assert!(matches!(steps[1], BackfillStep::MarkFailed { .. }));
    assert!(matches!(steps[2], BackfillStep::Progress { completed: 1, total: 3 }));
    assert!(matches!(outcome, Err(OfsError::Backfill(_))));
}

#[test]
fn outcome_all_succeed() {
    let results = vec![Ok(()), Ok(())];
    let (steps, outcome) = backfill_outcome("job-1", &results);
    assert_eq!(steps.len(), 4);
    assert!(matches!(steps[2], BackfillStep::MarkCompleted));
    assert!(matches!(steps[3], BackfillStep::FullProgress));
    assert!(outcome.is_ok());
    assert_eq!(effective_concurrency(0), 1);
    assert_eq!(effective_concurrency(4), 4);
}

#[test]
fn backfill_row_roundtrip() {
    let job = BackfillJob::new_pending(
        "job-1".to_string(),
        "driver_stats",
        "demo",
        at(1704067200),
        UtcDateTime { secs: 1704153600, nanos: 500_000_000 },
        3600,
        at(1704067300),
    )
    .with_status(BackfillStatus::Failed, Some("boom".to_string()), at(1704067400));
    let row = backfill_job_row(&job);
    assert_eq!(row.start_ts, "2024-01-01T00:00:00+00:00");
    assert_eq!(row.end_ts, "2024-01-02T00:00:00.500+00:00");
    assert_eq!(row.status, "Failed");
    let back = backfill_job_from_row(row).unwrap();
    assert_eq!(back.id, "job-1");
    assert_eq!(back.start, job.start);
    assert_eq!(back.end, job.end);
    assert_eq!(back.status, BackfillStatus::Failed);
    assert_eq!(back.error.as_deref(), Some("boom"));
    assert_eq!(back.updated_at, at(1704067400));
}

#[test]
fn backfill_row_errors_and_unknown_status() {
    let job = BackfillJob::new_pending("j".to_string(), "fv", "p", at(0), at(60), 30, at(0));
    let mut row = backfill_job_row(&job);
    row.status = "Paused".to_string();
    assert_eq!(backfill_job_from_row(row.clone()).unwrap().status, BackfillStatus::Pending);
    row.end_ts = "not a time".to_string();
    match backfill_job_from_row(row.clone()) {
        Err(OfsError::Database(m)) => assert!(!m.is_empty()),
        other => panic!("unexpected {:?}", other),
    }
    let good = backfill_job_row(&job);
    assert_eq!(backfill_jobs_from_rows(vec![good.clone(), good.clone()]).unwrap().len(), 2);
    assert!(matches!(backfill_jobs_from_rows(vec![good, row]), Err(OfsError::Database(_))));
}

#[test]
fn backfill_start_marks_running_and_runs_each_chunk() {
    let job = BackfillJob::new_pending("j1".to_string(), "driver_stats", "demo", at(0), at(250), 100, at(0));
    let (status, runs) = backfill_start("j1", &Some(job.clone())).unwrap();
    assert_eq!(status, BackfillStatus::Running);
    assert_eq!(runs.len(), 3);
    assert_eq!((runs[0].start, runs[0].end), (at(0), at(100)));
    assert_eq!((runs[2].start, runs[2].end), (at(200), at(250)));
    assert_eq!(runs[1].feature_views, vec!["driver_stats".to_string()]);
    assert_eq!(runs[1].project, "demo");
    assert!(!runs[1].full);
    assert!(matches!(backfill_start("j2", &None), Err(OfsError::NotFound(_))));
    let done = job.with_status(BackfillStatus::Completed, None, at(1));
    assert!(matches!(backfill_start("j1", &Some(done)), Err(OfsError::InvalidInput(_))));
}
