//! Backfill jobs: historical replay of a feature view's data, split into
//! chunks of time that are materialized one by one, with the job's status
//! and progress kept in the registry.
use vstd::prelude::*;

use crate::errors::{error_message, OfsError};
use crate::strings::{concat_str, debug_string};
use crate::time::{
    chrono_rfc3339_error, dt_before, format_rfc3339, is_rfc3339_of, parse_rfc3339_text, rfc3339_instant, rfc3339_round_trips,
    UtcDateTime,
};

verus! {

/// The status of a backfill job.
#[derive(Debug, Clone, Copy, PartialEq, Eq, Structural)]
pub enum BackfillStatus {
    Pending,
    Running,
    Completed,
    Failed,
    Cancelled,
}

/// The name of a status (its `Debug` form).
pub open spec fn backfill_status_name(s: BackfillStatus) -> Seq<char> {
    match s {
        BackfillStatus::Pending => "Pending"@,
        BackfillStatus::Running => "Running"@,
        BackfillStatus::Completed => "Completed"@,
        BackfillStatus::Failed => "Failed"@,
        BackfillStatus::Cancelled => "Cancelled"@,
    }
}

impl BackfillStatus {
    /// The name of this status.
    pub fn name(&self) -> (r: &'static str)
        ensures
            r@ == backfill_status_name(*self),
    {
        match self {
            BackfillStatus::Pending => "Pending",
            BackfillStatus::Running => "Running",
            BackfillStatus::Completed => "Completed",
            BackfillStatus::Failed => "Failed",
            BackfillStatus::Cancelled => "Cancelled",
        }
    }
}

/// The status stored under a name: the name of a status gives that status,
/// and any other text reads as `Pending`.
pub open spec fn status_of_name(s: Seq<char>) -> BackfillStatus {
    if s == "Running"@ {
        BackfillStatus::Running
    } else if s == "Completed"@ {
        BackfillStatus::Completed
    } else if s == "Failed"@ {
        BackfillStatus::Failed
    } else if s == "Cancelled"@ {
        BackfillStatus::Cancelled
    } else {
        BackfillStatus::Pending
    }
}

impl BackfillStatus {
    /// The status stored under a name (unknown names read as `Pending`).
    pub fn from_name(s: &str) -> (r: BackfillStatus)
        ensures
            r == status_of_name(s@),
    {
        proof {
            reveal_strlit("Running");
            reveal_strlit("Completed");
            reveal_strlit("Failed");
            reveal_strlit("Cancelled");
        }
        if crate::strings::str_eq(s, "Running") {
            BackfillStatus::Running
        } else if crate::strings::str_eq(s, "Completed") {
            BackfillStatus::Completed
        } else if crate::strings::str_eq(s, "Failed") {
            BackfillStatus::Failed
        } else if crate::strings::str_eq(s, "Cancelled") {
            BackfillStatus::Cancelled
        } else {
            BackfillStatus::Pending
        }
    }
}

/// A backfill job. Its progress, a fraction between 0 and 1, is an `f64`
/// that this library carries by its IEEE-754 bit pattern.
#[derive(Debug, Clone)]
pub struct BackfillJob {
    pub id: String,
    pub feature_view_name: String,
    pub project: String,
    pub start: UtcDateTime,
    pub end: UtcDateTime,
    pub status: BackfillStatus,
    pub progress_bits: u64,
    pub chunk_size_seconds: i64,
    pub error: Option<String>,
    pub created_at: UtcDateTime,
    pub updated_at: UtcDateTime,
}

impl BackfillJob {
    /// A new pending job with no progress and no error, created now.
    pub fn new_pending(
        id: String,
        feature_view_name: &str,
        project: &str,
        start: UtcDateTime,
        end: UtcDateTime,
        chunk_size_seconds: i64,
        now: UtcDateTime,
    ) -> (r: Self)
        ensures
            r.id == id,
            r.feature_view_name@ == feature_view_name@,
            r.project@ == project@,
            r.start == start,
            r.end == end,
            r.status == BackfillStatus::Pending,
            r.progress_bits == 0,
            r.chunk_size_seconds == chunk_size_seconds,
            r.error is None,
            r.created_at == now,
            r.updated_at == now,
    {
        BackfillJob {
            id,
            feature_view_name: String::from_str(feature_view_name),
            project: String::from_str(project),
            start,
            end,
            status: BackfillStatus::Pending,
            progress_bits: 0,
            chunk_size_seconds,
            error: None,
            created_at: now,
            updated_at: now,
        }
    }

    /// The job with a new status and error, updated at `now`.
    pub fn with_status(self, status: BackfillStatus, error: Option<String>, now: UtcDateTime) -> (r: Self)
        ensures
            r == (BackfillJob { status, error, updated_at: now, ..self }),
    {
        BackfillJob { status, error, updated_at: now, ..self }
    }

    /// The job with a new progress, updated at `now`.
    pub fn with_progress(self, progress_bits: u64, now: UtcDateTime) -> (r: Self)
        ensures
            r == (BackfillJob { progress_bits, updated_at: now, ..self }),
    {
        BackfillJob { progress_bits, updated_at: now, ..self }
    }
}

/// The message of a missing job.
pub open spec fn job_not_found_message(job_id: Seq<char>) -> Seq<char> {
    "Backfill job '"@ + job_id + "' not found"@
}

/// The error for a missing job.
pub fn job_not_found(job_id: &str) -> (r: OfsError)
    ensures
        r matches OfsError::NotFound(m) && m@ == job_not_found_message(job_id@),
{
    let mut m = concat_str("Backfill job '", job_id);
    m.append("' not found");
    OfsError::NotFound(m)
}

/// Whether a job in `s` may be run: it is pending, or it failed before.
pub open spec fn executable_status(s: BackfillStatus) -> bool {
    s == BackfillStatus::Pending || s == BackfillStatus::Failed
}

/// Whether a job in `s` may be cancelled: it is neither completed nor
/// cancelled already.
pub open spec fn cancellable_status(s: BackfillStatus) -> bool {
    !(s == BackfillStatus::Completed || s == BackfillStatus::Cancelled)
}

/// Checks that the job exists and may be run: a missing job is not found,
/// and a job that is neither pending nor failed cannot be run.
pub fn check_executable(job_id: &str, job: &Option<BackfillJob>) -> (r: Result<(), OfsError>)
    ensures
        match job {
            None => r matches Err(OfsError::NotFound(m)) && m@ == job_not_found_message(job_id@),
            Some(j) => if executable_status(j.status) {
                r is Ok
            } else {
                r matches Err(OfsError::InvalidInput(m)) && m@ == "Cannot execute backfill job '"@
                    + job_id@ + "' in status "@ + backfill_status_name(j.status)
            },
        },
{
    match job {
        None => Err(job_not_found(job_id)),
        Some(j) => {
            if j.status == BackfillStatus::Pending || j.status == BackfillStatus::Failed {
                Ok(())
            } else {
                let mut m = concat_str("Cannot execute backfill job '", job_id);
                m.append("' in status ");
                m.append(j.status.name());
                Err(OfsError::InvalidInput(m))
            }
        },
    }
}

/// Checks that the job exists and may be cancelled.
pub fn check_cancellable(job_id: &str, job: &Option<BackfillJob>) -> (r: Result<(), OfsError>)
    ensures
        match job {
            None => r matches Err(OfsError::NotFound(m)) && m@ == job_not_found_message(job_id@),
            Some(j) => if cancellable_status(j.status) {
                r is Ok
            } else {
                r matches Err(OfsError::InvalidInput(m)) && m@ == "Cannot cancel backfill job '"@
                    + job_id@ + "' in status "@ + backfill_status_name(j.status)
            },
        },
{
    match job {
        None => Err(job_not_found(job_id)),
        Some(j) => {
            if j.status == BackfillStatus::Completed || j.status == BackfillStatus::Cancelled {
                let mut m = concat_str("Cannot cancel backfill job '", job_id);
                m.append("' in status ");
                m.append(j.status.name());
                Err(OfsError::InvalidInput(m))
            } else {
                Ok(())
            }
        },
    }
}

/// The instant `n > 0` whole seconds after `d`, as chrono adds them: a
/// leap second is left for the same fraction of the next second.
pub open spec fn add_seconds(d: UtcDateTime, n: int) -> UtcDateTime {
    UtcDateTime {
        secs: (d.secs + n) as i64,
        nanos: if d.nanos >= 1_000_000_000 {
            (d.nanos - 1_000_000_000) as u32
        } else {
            d.nanos
        },
    }
}

/// The earlier of two instants, the first where they are equal.
pub open spec fn dt_min(a: UtcDateTime, b: UtcDateTime) -> UtcDateTime {
    if dt_before(b, a) {
        b
    } else {
        a
    }
}

/// The chunks from `start` up to `end`, each `chunk` seconds long but the
/// last, which ends at `end`.
pub open spec fn chunks_from(start: UtcDateTime, end: UtcDateTime, chunk: int) -> Seq<(UtcDateTime, UtcDateTime)>
    decreases (if dt_before(start, end) {
        end.secs - start.secs + 2
    } else {
        0
    }),
    when chunk > 0 && end.secs + chunk <= 8_210_266_876_799
{
    if !dt_before(start, end) {
        Seq::empty()
    } else {
        let e = dt_min(add_seconds(start, chunk), end);
        seq![(start, e)] + chunks_from(e, end, chunk)
    }
}

/// The chunks of a job: those of its range, or the range itself as one
/// chunk where it is empty.
pub open spec fn plan_chunks_spec(start: UtcDateTime, end: UtcDateTime, chunk: int) -> Seq<(UtcDateTime, UtcDateTime)> {
    if dt_before(start, end) {
        chunks_from(start, end, chunk)
    } else {
        seq![(start, end)]
    }
}

/// The chunks of the range from `start` to `end`, each of
/// `chunk_size_seconds` seconds but the last; a range that is empty is one
/// chunk.
pub fn plan_chunks(start: UtcDateTime, end: UtcDateTime, chunk_size_seconds: i64) -> (r: Vec<
    (UtcDateTime, UtcDateTime),
>)
    requires
        chunk_size_seconds > 0,
        end.secs + chunk_size_seconds <= 8_210_266_876_799,
    ensures
        r@ == plan_chunks_spec(start, end, chunk_size_seconds as int),
{
    let mut chunks: Vec<(UtcDateTime, UtcDateTime)> = Vec::new();
    let mut chunk_start = start;
    let ghost chunk = chunk_size_seconds as int;
    proof {
        assert(chunks@ + chunks_from(start, end, chunk) =~= chunks_from(start, end, chunk));
    }
    while chunk_start.is_before(&end)
        invariant
            chunk > 0,
            chunk == chunk_size_seconds,
            end.secs + chunk_size_seconds <= 8_210_266_876_799,
            chunks@ + chunks_from(chunk_start, end, chunk) == chunks_from(start, end, chunk),
            dt_before(start, end) ==> chunks@.len() > 0 || chunk_start == start,
            !dt_before(start, end) ==> chunk_start == start,
        decreases (if dt_before(chunk_start, end) {
            end.secs - chunk_start.secs + 2
        } else {
            0
        }),
    {
        let next_nanos: u32 = if chunk_start.nanos >= 1_000_000_000 {
            chunk_start.nanos - 1_000_000_000
        } else {
            chunk_start.nanos
        };
        let stepped = UtcDateTime { secs: chunk_start.secs + chunk_size_seconds, nanos: next_nanos };
        let chunk_end = if end.is_before(&stepped) {
            end
        } else {
            stepped
        };
        let ghost before = chunks@;
        chunks.push((chunk_start, chunk_end));
        proof {
            assert(stepped == add_seconds(chunk_start, chunk));
            assert(chunk_end == dt_min(add_seconds(chunk_start, chunk), end));
            assert(chunks@ + chunks_from(chunk_end, end, chunk) =~= before + chunks_from(chunk_start, end, chunk));
        }
        chunk_start = chunk_end;
    }
    if chunks.len() == 0 {
        chunks.push((start, end));
        proof {
            assert(chunks@ =~= seq![(start, end)]);
        }
    } else {
        proof {
            assert(chunks@ =~= chunks@ + Seq::<(UtcDateTime, UtcDateTime)>::empty());
        }
    }
    chunks
}

/// The chunks of a non-empty range cover it: the first starts at `start`,
/// the last ends at `end`, each ends where the next starts, each ends after
/// it starts, and each spans at most `chunk` seconds.
pub proof fn lemma_chunks_cover(start: UtcDateTime, end: UtcDateTime, chunk: int)
    requires
        chunk > 0,
        end.secs + chunk <= 8_210_266_876_799,
        dt_before(start, end),
    ensures
        ({
            let c = chunks_from(start, end, chunk);
            &&& c.len() > 0
            &&& c[0].0 == start
            &&& c.last().1 == end
            &&& forall|i: int| 0 <= i < c.len() - 1 ==> (#[trigger] c[i]).1 == c[i + 1].0
            &&& forall|i: int| 0 <= i < c.len() ==> dt_before((#[trigger] c[i]).0, c[i].1)
            &&& forall|i: int| 0 <= i < c.len() ==> (#[trigger] c[i]).1.secs <= c[i].0.secs + chunk
        }),
    decreases end.secs - start.secs + 2,
{
    let e = dt_min(add_seconds(start, chunk), end);
    let c = chunks_from(start, end, chunk);
    let rest = chunks_from(e, end, chunk);
    assert(c == seq![(start, e)] + rest);
    assert(dt_before(start, e));
    if dt_before(e, end) {
        lemma_chunks_cover(e, end, chunk);
        assert forall|i: int| 0 <= i < c.len() - 1 implies (#[trigger] c[i]).1 == c[i + 1].0 by {
            if i > 0 {
                assert(c[i] == rest[i - 1]);
                assert(c[i + 1] == rest[i]);
            }
        }
        assert forall|i: int| 0 <= i < c.len() implies dt_before((#[trigger] c[i]).0, c[i].1) by {
            if i > 0 {
                assert(c[i] == rest[i - 1]);
            }
        }
        assert forall|i: int| 0 <= i < c.len() implies (#[trigger] c[i]).1.secs <= c[i].0.secs + chunk by {
            if i > 0 {
                assert(c[i] == rest[i - 1]);
            }
        }
        assert(c.last() == rest.last());
    } else {
        assert(rest.len() == 0);
        assert(c =~= seq![(start, e)]);
    }
}

/// One materialization that a backfill runs: a chunk of the job's range,
/// for the job's one feature view in its project, as an incremental run
/// (not a full refresh).
#[derive(Debug, Clone)]
pub struct ChunkRun {
    pub start: UtcDateTime,
    pub end: UtcDateTime,
    pub feature_views: Vec<String>,
    pub project: String,
    pub full: bool,
}

/// Whether `run` materializes chunk `c` of `job`.
pub open spec fn is_chunk_run(run: ChunkRun, job: BackfillJob, c: (UtcDateTime, UtcDateTime)) -> bool {
    &&& run.start == c.0
    &&& run.end == c.1
    &&& crate::strings::views(run.feature_views@) == seq![job.feature_view_name@]
    &&& run.project@ == job.project@
    &&& !run.full
}

/// The materializations of a job, one per chunk of its range, in order.
pub fn chunk_runs(job: &BackfillJob) -> (r: Vec<ChunkRun>)
    requires
        job.chunk_size_seconds > 0,
        job.end.secs + job.chunk_size_seconds <= 8_210_266_876_799,
    ensures
        r@.len() == plan_chunks_spec(job.start, job.end, job.chunk_size_seconds as int).len(),
        forall|i: int|
            0 <= i < r@.len() ==> is_chunk_run(
                #[trigger] r@[i],
                *job,
                plan_chunks_spec(job.start, job.end, job.chunk_size_seconds as int)[i],
            ),
{
    let chunks = plan_chunks(job.start, job.end, job.chunk_size_seconds);
    let mut runs: Vec<ChunkRun> = Vec::new();
    let n = chunks.len();
    let mut i: usize = 0;
    while i < n
        invariant
            n == chunks@.len(),
            chunks@ == plan_chunks_spec(job.start, job.end, job.chunk_size_seconds as int),
            i <= n,
            runs@.len() == i,
            forall|j: int| 0 <= j < i ==> is_chunk_run(#[trigger] runs@[j], *job, chunks@[j]),
        decreases n - i,
    {
        let mut names: Vec<String> = Vec::new();
        names.push(job.feature_view_name.clone());
        proof {
            assert(crate::strings::views(names@) =~= seq![job.feature_view_name@]);
        }
        runs.push(ChunkRun {
            start: chunks[i].0,
            end: chunks[i].1,
            feature_views: names,
            project: job.project.clone(),
            full: false,
        });
        i = i + 1;
    }
    runs
}

/// How the engine starts a job: a missing job is not found, and a job that
/// is neither pending nor failed cannot be run (`check_executable`);
/// otherwise the job is marked `Running` and its chunks are materialized.
pub fn backfill_start(job_id: &str, job: &Option<BackfillJob>) -> (r: Result<(BackfillStatus, Vec<ChunkRun>), OfsError>)
    requires
        match job {
            Some(j) => executable_status(j.status) ==> j.chunk_size_seconds > 0 && j.end.secs
                + j.chunk_size_seconds <= 8_210_266_876_799,
            None => true,
        },
    ensures
        match job {
            None => r matches Err(OfsError::NotFound(m)) && m@ == job_not_found_message(job_id@),
            Some(j) => if executable_status(j.status) {
                r matches Ok((status, runs)) && status == BackfillStatus::Running && runs@.len()
                    == plan_chunks_spec(j.start, j.end, j.chunk_size_seconds as int).len() && forall|i: int|
                    0 <= i < runs@.len() ==> is_chunk_run(
                        #[trigger] runs@[i],
                        *j,
                        plan_chunks_spec(j.start, j.end, j.chunk_size_seconds as int)[i],
                    )
            } else {
                r matches Err(OfsError::InvalidInput(m)) && m@ == "Cannot execute backfill job '"@ + job_id@
                    + "' in status "@ + backfill_status_name(j.status)
            },
        },
{
    match check_executable(job_id, job) {
        Err(e) => Err(e),
        Ok(()) => match job {
            Some(j) => Ok((BackfillStatus::Running, chunk_runs(j))),
            None => Err(job_not_found(job_id)),
        },
    }
}

/// What the engine does with the registry after the chunks ran.
#[derive(Debug, Clone)]
pub enum BackfillStep {
    /// Record `completed` of `total` chunks as done.
    Progress { completed: usize, total: usize },
    /// Mark the job failed with an error message.
    MarkFailed { error: String },
    /// Mark the job completed.
    MarkCompleted,
    /// Record the job as fully done.
    FullProgress,
}

/// The message of a failed job.
pub open spec fn job_failed_message(job_id: Seq<char>, e: OfsError) -> Seq<char> {
    "Backfill job '"@ + job_id + "' failed: "@ + error_message(e)
}

/// The number of results, in order, before the first failure.
pub open spec fn successes_before_failure(results: Seq<Result<(), OfsError>>) -> nat
    decreases results.len(),
{
    if results.len() == 0 || results[0] is Err {
        0
    } else {
        1 + successes_before_failure(results.drop_first())
    }
}

/// The steps to take after the chunks ran, and the job's outcome.
pub fn backfill_outcome(job_id: &str, results: &Vec<Result<(), OfsError>>) -> (r: (
    Vec<BackfillStep>,
    Result<(), OfsError>,
))
    ensures
        ({
            let k = successes_before_failure(results@);
            let total = results@.len();
            &&& forall|i: int| 0 <= i < k ==> (#[trigger] r.0@[i] matches BackfillStep::Progress { completed, total: t } && completed
                == i + 1 && t == total)
            &&& k < total ==> {
                &&& r.0@.len() == k + 2
                &&& r.0@[k as int] matches BackfillStep::MarkFailed { error } && error@ == error_message(
                    results@[k as int]->Err_0,
                )
                &&& r.0@[k + 1int] matches BackfillStep::Progress { completed, total: t } && completed == k && t
                    == total
                &&& r.1 matches Err(OfsError::Backfill(m)) && m@ == job_failed_message(
                    job_id@,
                    results@[k as int]->Err_0,
                )
            }
            &&& k == total ==> {
                &&& r.0@.len() == k + 2
                &&& r.0@[k as int] is MarkCompleted
                &&& r.0@[k + 1int] is FullProgress
                &&& r.1 is Ok
            }
        }),
{
    let total = results.len();
    let mut steps: Vec<BackfillStep> = Vec::new();
    let mut i: usize = 0;
    assert(results@.skip(0) =~= results@);
    while i < total
        invariant
            total == results@.len(),
            i <= total,
            steps@.len() == i,
            successes_before_failure(results@) == i + successes_before_failure(results@.skip(i as int)),
            forall|j: int| 0 <= j < i ==> (#[trigger] steps@[j] matches BackfillStep::Progress { completed, total: t } && completed
                == j + 1 && t == total),
        decreases total - i,
    {
        proof {
            assert(results@.skip(i as int)[0] == results@[i as int]);
            assert(results@.skip(i as int).drop_first() =~= results@.skip(i + 1));
        }
        match &results[i] {
            Ok(()) => {
                steps.push(BackfillStep::Progress { completed: i + 1, total });
            },
            Err(e) => {
                let msg = e.to_string();
                steps.push(BackfillStep::MarkFailed { error: msg });
                steps.push(BackfillStep::Progress { completed: i, total });
                let mut m = concat_str("Backfill job '", job_id);
                m.append("' failed: ");
                m.append(e.to_string().as_str());
                return (steps, Err(OfsError::Backfill(m)));
            },
        }
        i = i + 1;
    }
    proof {
        assert(results@.skip(total as int).len() == 0);
    }
    steps.push(BackfillStep::MarkCompleted);
    steps.push(BackfillStep::FullProgress);
    (steps, Ok(()))
}

/// The number of chunks run at once: at least one.
pub fn effective_concurrency(concurrency: usize) -> (r: usize)
    ensures
        r == if concurrency < 1 {
            1
        } else {
            concurrency
        },
{
    if concurrency < 1 {
        1
    } else {
        concurrency
    }
}

/// The name of every status reads back as that status.
pub proof fn lemma_status_name_roundtrip(st: BackfillStatus)
    ensures
        status_of_name(backfill_status_name(st)) == st,
{
    reveal_strlit("Pending");
    reveal_strlit("Running");
    reveal_strlit("Completed");
    reveal_strlit("Failed");
    reveal_strlit("Cancelled");
    let n = backfill_status_name(st);
    assert(n[0] == match st {
        BackfillStatus::Pending => 'P',
        BackfillStatus::Running => 'R',
        BackfillStatus::Completed => 'C',
        BackfillStatus::Failed => 'F',
        BackfillStatus::Cancelled => 'C',
    });
    if st is Completed {
        assert(n[1] != "Cancelled"@[1]);
    }
    if st is Cancelled {
        assert(n[1] != "Completed"@[1]);
    }
}

/// A backfill job as the registry database stores it: instants as RFC 3339
/// text and the status by name. The progress keeps its bit pattern.
#[derive(Debug, Clone)]
pub struct BackfillJobRow {
    pub id: String,
    pub feature_view_name: String,
    pub project: String,
    pub start_ts: String,
    pub end_ts: String,
    pub status: String,
    pub progress_bits: u64,
    pub chunk_size_seconds: i64,
    pub error: Option<String>,
    pub created_at: String,
    pub updated_at: String,
}

/// The row stored for a job.
pub open spec fn is_row_of(row: BackfillJobRow, job: BackfillJob) -> bool {
    &&& row.id@ == job.id@
    &&& row.feature_view_name@ == job.feature_view_name@
    &&& row.project@ == job.project@
    &&& is_rfc3339_of(row.start_ts@, job.start)
    &&& is_rfc3339_of(row.end_ts@, job.end)
    &&& row.status@ == backfill_status_name(job.status)
    &&& row.progress_bits == job.progress_bits
    &&& row.chunk_size_seconds == job.chunk_size_seconds
    &&& crate::source::opt_view(row.error) == crate::source::opt_view(job.error)
    &&& is_rfc3339_of(row.created_at@, job.created_at)
    &&& is_rfc3339_of(row.updated_at@, job.updated_at)
}

/// The row to store for a job.
pub fn backfill_job_row(job: &BackfillJob) -> (r: BackfillJobRow)
    ensures
        is_row_of(r, *job),
{
    BackfillJobRow {
        id: job.id.clone(),
        feature_view_name: job.feature_view_name.clone(),
        project: job.project.clone(),
        start_ts: format_rfc3339(&job.start),
        end_ts: format_rfc3339(&job.end),
        status: String::from_str(job.status.name()),
        progress_bits: job.progress_bits,
        chunk_size_seconds: job.chunk_size_seconds,
        error: crate::config::clone_opt_string(&job.error),
        created_at: format_rfc3339(&job.created_at),
        updated_at: format_rfc3339(&job.updated_at),
    }
}

/// The instant read from a stored timestamp, or the database error that
/// carries chrono's message.
pub open spec fn stored_instant(s: Seq<char>) -> Result<UtcDateTime, Seq<char>> {
    match rfc3339_instant(s) {
        Some(d) => Ok(d),
        None => Err(chrono_rfc3339_error(s)),
    }
}

/// The job that a row holds: its four timestamps are read in the order
/// start, end, creation, update, and the first that does not read fails the
/// whole row with a database error; unknown status names read as `Pending`.
pub open spec fn job_of_row(row: BackfillJobRow, r: Result<BackfillJob, OfsError>) -> bool {
    match (stored_instant(row.start_ts@), stored_instant(row.end_ts@), stored_instant(row.created_at@),
        stored_instant(row.updated_at@)) {
        (Err(m), _, _, _) => r matches Err(OfsError::Database(e)) && e@ == m,
        (Ok(_), Err(m), _, _) => r matches Err(OfsError::Database(e)) && e@ == m,
        (Ok(_), Ok(_), Err(m), _) => r matches Err(OfsError::Database(e)) && e@ == m,
        (Ok(_), Ok(_), Ok(_), Err(m)) => r matches Err(OfsError::Database(e)) && e@ == m,
        (Ok(start), Ok(end), Ok(created), Ok(updated)) => r matches Ok(job) && job.id@ == row.id@
            && job.feature_view_name@ == row.feature_view_name@ && job.project@ == row.project@ && job.start
            == start && job.end == end && job.status == status_of_name(row.status@) && job.progress_bits
            == row.progress_bits && job.chunk_size_seconds == row.chunk_size_seconds
            && crate::source::opt_view(job.error) == crate::source::opt_view(row.error) && job.created_at
            == created && job.updated_at == updated,
    }
}

/// Whether all four timestamps of a row read.
pub open spec fn row_reads(row: BackfillJobRow) -> bool {
    &&& stored_instant(row.start_ts@) is Ok
    &&& stored_instant(row.end_ts@) is Ok
    &&& stored_instant(row.created_at@) is Ok
    &&& stored_instant(row.updated_at@) is Ok
}

fn read_stored_instant(s: &str) -> (r: Result<UtcDateTime, OfsError>)
    ensures
        match stored_instant(s@) {
            Ok(d) => r == Ok::<UtcDateTime, OfsError>(d),
            Err(m) => r matches Err(OfsError::Database(e)) && e@ == m,
        },
{
    match parse_rfc3339_text(s) {
        Ok(d) => Ok(d),
        Err(e) => Err(OfsError::Database(e)),
    }
}

/// Whether two rows hold the same text and values.
pub open spec fn same_row(a: BackfillJobRow, b: BackfillJobRow) -> bool {
    &&& a.id@ == b.id@
    &&& a.feature_view_name@ == b.feature_view_name@
    &&& a.project@ == b.project@
    &&& a.start_ts@ == b.start_ts@
    &&& a.end_ts@ == b.end_ts@
    &&& a.status@ == b.status@
    &&& a.progress_bits == b.progress_bits
    &&& a.chunk_size_seconds == b.chunk_size_seconds
    &&& crate::source::opt_view(a.error) == crate::source::opt_view(b.error)
    &&& a.created_at@ == b.created_at@
    &&& a.updated_at@ == b.updated_at@
}

fn copy_row(row: &BackfillJobRow) -> (r: BackfillJobRow)
    ensures
        same_row(r, *row),
{
    BackfillJobRow {
        id: row.id.clone(),
        feature_view_name: row.feature_view_name.clone(),
        project: row.project.clone(),
        start_ts: row.start_ts.clone(),
        end_ts: row.end_ts.clone(),
        status: row.status.clone(),
        progress_bits: row.progress_bits,
        chunk_size_seconds: row.chunk_size_seconds,
        error: crate::config::clone_opt_string(&row.error),
        created_at: row.created_at.clone(),
        updated_at: row.updated_at.clone(),
    }
}

/// The job that a stored row holds.
pub fn backfill_job_from_row(row: BackfillJobRow) -> (r: Result<BackfillJob, OfsError>)
    ensures
        job_of_row(row, r),
{
    let start = match read_stored_instant(row.start_ts.as_str()) {
        Ok(d) => d,
        Err(e) => return Err(e),
    };
    let end = match read_stored_instant(row.end_ts.as_str()) {
        Ok(d) => d,
        Err(e) => return Err(e),
    };
    let created_at = match read_stored_instant(row.created_at.as_str()) {
        Ok(d) => d,
        Err(e) => return Err(e),
    };
    let updated_at = match read_stored_instant(row.updated_at.as_str()) {
        Ok(d) => d,
        Err(e) => return Err(e),
    };
    let status = BackfillStatus::from_name(row.status.as_str());
    Ok(BackfillJob {
        id: row.id,
        feature_view_name: row.feature_view_name,
        project: row.project,
        start,
        end,
        status,
        progress_bits: row.progress_bits,
        chunk_size_seconds: row.chunk_size_seconds,
        error: row.error,
        created_at,
        updated_at,
    })
}

/// The jobs of a project's rows, in the order the rows came (newest first,
/// as the query sorts them); the first row that does not read fails the
/// whole listing with its error.
pub fn backfill_jobs_from_rows(rows: Vec<BackfillJobRow>) -> (r: Result<Vec<BackfillJob>, OfsError>)
    ensures
        match r {
            Ok(jobs) => jobs@.len() == rows@.len() && forall|i: int|
                0 <= i < rows@.len() ==> job_of_row(rows@[i], Ok(#[trigger] jobs@[i])),
            Err(e) => exists|k: int|
                0 <= k < rows@.len() && job_of_row(#[trigger] rows@[k], Err(e)) && forall|i: int|
                    0 <= i < k ==> row_reads(#[trigger] rows@[i]),
        },
{
    let mut jobs: Vec<BackfillJob> = Vec::new();
    let n = rows.len();
    let mut i: usize = 0;
    while i < n
        invariant
            n == rows@.len(),
            i <= n,
            jobs@.len() == i,
            forall|j: int| 0 <= j < i ==> job_of_row(rows@[j], Ok(#[trigger] jobs@[j])),
        decreases n - i,
    {
        match backfill_job_from_row(copy_row(&rows[i])) {
            Ok(job) => jobs.push(job),
            Err(e) => {
                proof {
                    assert(job_of_row(rows@[i as int], Err(e)));
                    assert forall|j: int| 0 <= j < i implies row_reads(#[trigger] rows@[j]) by {
                        assert(job_of_row(rows@[j], Ok(jobs@[j])));
                    }
                }
                return Err(e);
            },
        }
        i = i + 1;
    }
    Ok(jobs)
}

/// Whether two jobs hold the same text and values.
pub open spec fn same_job(a: BackfillJob, b: BackfillJob) -> bool {
    &&& a.id@ == b.id@
    &&& a.feature_view_name@ == b.feature_view_name@
    &&& a.project@ == b.project@
    &&& a.start == b.start
    &&& a.end == b.end
    &&& a.status == b.status
    &&& a.progress_bits == b.progress_bits
    &&& a.chunk_size_seconds == b.chunk_size_seconds
    &&& crate::source::opt_view(a.error) == crate::source::opt_view(b.error)
    &&& a.created_at == b.created_at
    &&& a.updated_at == b.updated_at
}

/// Reading back the row stored for a job gives the job again, whenever each
/// of its instants lies in the years 0 to 9999 and is no leap second.
pub proof fn lemma_backfill_row_roundtrip(job: BackfillJob, row: BackfillJobRow, r: Result<BackfillJob, OfsError>)
    requires
        is_row_of(row, job),
        job_of_row(row, r),
        rfc3339_round_trips(job.start),
        rfc3339_round_trips(job.end),
        rfc3339_round_trips(job.created_at),
        rfc3339_round_trips(job.updated_at),
    ensures
        r matches Ok(back) && same_job(back, job),
{
    lemma_status_name_roundtrip(job.status);
}

} // verus!
