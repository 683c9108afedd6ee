//! The durable replication queue: a single SQL table of jobs with
//! pending / in-progress / failed states. The retry decision is verified;
//! the storage calls go through trusted wrappers around the embedded
//! database.

use vstd::prelude::*;
use vstd::string::*;

use crate::archive::layout::spec_path_join;
use crate::errors::{ArchiveError, ErrorKind};

verus! {

/// One claimed replication job, as the worker sees it.
#[derive(Clone, Debug)]
pub struct ReplicationJob {
    pub id: i64,
    pub segment_path: String,
    pub manifest_path: String,
    pub destination_key: String,
    pub attempts: u32,
    pub max_retries: u32,
}

/// Relies on chrono's `Utc::now`: the wall clock's current epoch second.
/// Nothing is assumed of the value.
#[verifier::external_body]
pub(crate) fn now_epoch() -> (r: i64) {
    chrono::Utc::now().timestamp()
}

/// Relies on rusqlite's `Connection::open` and `execute_batch`: creates the
/// queue table and its readiness index if missing.
#[verifier::external_body]
fn db_init(path: &String) -> (r: Result<(), String>) {
    let f = |e: rusqlite::Error| e.to_string();
    let conn = rusqlite::Connection::open(path.as_str()).map_err(f)?;
    conn.execute_batch(
        "CREATE TABLE IF NOT EXISTS replication_queue (id INTEGER PRIMARY KEY AUTOINCREMENT, segment_path TEXT NOT NULL, manifest_path TEXT NOT NULL, destination_key TEXT NOT NULL, attempts INTEGER NOT NULL DEFAULT 0, max_retries INTEGER NOT NULL DEFAULT 0, next_retry_ts INTEGER NOT NULL, status TEXT NOT NULL, last_error TEXT, created_ts INTEGER NOT NULL, updated_ts INTEGER NOT NULL); CREATE INDEX IF NOT EXISTS idx_replication_queue_ready ON replication_queue(status, next_retry_ts);",
    ).map_err(f)
}

/// Relies on rusqlite's `execute`: inserts one pending row that is ready at
/// `now`, with zero attempts.
#[verifier::external_body]
fn db_insert(
    path: &String,
    segment_path: &str,
    manifest_path: &str,
    destination_key: &str,
    max_retries: u32,
    now: i64,
) -> (r: Result<(), String>) {
    let f = |e: rusqlite::Error| e.to_string();
    let conn = rusqlite::Connection::open(path.as_str()).map_err(f)?;
    conn.execute(
        "INSERT INTO replication_queue (segment_path, manifest_path, destination_key, attempts, max_retries, next_retry_ts, status, created_ts, updated_ts) VALUES (?1, ?2, ?3, 0, ?4, ?5, 'pending', ?5, ?5)",
        (segment_path, manifest_path, destination_key, max_retries, now),
    ).map(|_| ()).map_err(f)
}

/// Relies on rusqlite's `query_map` over a single `UPDATE ... RETURNING`
/// statement: atomically marks up to `limit` pending rows whose retry time
/// has come (oldest ids first) as in progress, and returns them. The
/// returned rows come back in no particular order.
#[verifier::external_body]
fn db_claim_ready(path: &String, now: i64, limit: u32) -> (r: Result<Vec<ReplicationJob>, String>) {
    let f = |e: rusqlite::Error| e.to_string();
    let conn = rusqlite::Connection::open(path.as_str()).map_err(f)?;
    let mut stmt = conn.prepare("UPDATE replication_queue SET status = 'in_progress', updated_ts = ?1 WHERE id IN (SELECT id FROM replication_queue WHERE status = 'pending' AND next_retry_ts <= ?1 ORDER BY id ASC LIMIT ?2) RETURNING id, segment_path, manifest_path, destination_key, attempts, max_retries").map_err(f)?;
    let rows = stmt.query_map((now, limit), |r| Ok(ReplicationJob { id: r.get(0)?, segment_path: r.get(1)?, manifest_path: r.get(2)?, destination_key: r.get(3)?, attempts: r.get(4)?, max_retries: r.get(5)? })).map_err(f)?;
    rows.collect::<Result<Vec<ReplicationJob>, rusqlite::Error>>().map_err(f)
}

/// Relies on rusqlite's `execute`: deletes one row by id.
#[verifier::external_body]
fn db_delete(path: &String, id: i64) -> (r: Result<(), String>) {
    let f = |e: rusqlite::Error| e.to_string();
    let conn = rusqlite::Connection::open(path.as_str()).map_err(f)?;
    conn.execute("DELETE FROM replication_queue WHERE id = ?1", (id,)).map(|_| ()).map_err(f)
}

/// Relies on rusqlite's `execute`: records one more failed attempt and
/// reschedules the row as pending at `next_retry_ts`.
#[verifier::external_body]
fn db_set_pending_retry(
    path: &String,
    id: i64,
    attempts: u32,
    next_retry_ts: i64,
    error: &str,
    now: i64,
) -> (r: Result<(), String>) {
    let f = |e: rusqlite::Error| e.to_string();
    let conn = rusqlite::Connection::open(path.as_str()).map_err(f)?;
    conn.execute(
        "UPDATE replication_queue SET attempts = ?1, status = 'pending', next_retry_ts = ?2, last_error = ?3, updated_ts = ?4 WHERE id = ?5",
        (attempts, next_retry_ts, error, now, id),
    ).map(|_| ()).map_err(f)
}

/// Relies on rusqlite's `execute`: records one more failed attempt and moves
/// the row to the failed state.
#[verifier::external_body]
fn db_set_failed(path: &String, id: i64, attempts: u32, error: &str, now: i64) -> (r: Result<
    (),
    String,
>) {
    let f = |e: rusqlite::Error| e.to_string();
    let conn = rusqlite::Connection::open(path.as_str()).map_err(f)?;
    conn.execute(
        "UPDATE replication_queue SET attempts = ?1, status = 'failed', last_error = ?2, updated_ts = ?3 WHERE id = ?4",
        (attempts, error, now, id),
    ).map(|_| ()).map_err(f)
}

/// Relies on rusqlite's `execute`: moves every in-progress row back to
/// pending, and returns how many rows changed.
#[verifier::external_body]
fn db_reset_in_progress(path: &String, now: i64) -> (r: Result<usize, String>) {
    let f = |e: rusqlite::Error| e.to_string();
    let conn = rusqlite::Connection::open(path.as_str()).map_err(f)?;
    conn.execute(
        "UPDATE replication_queue SET status = 'pending', updated_ts = ?1 WHERE status = 'in_progress'",
        (now,),
    ).map_err(f)
}

/// Relies on rusqlite's `execute`: moves every failed row back to pending,
/// ready at `now`, and returns how many rows changed.
#[verifier::external_body]
fn db_retry_failed(path: &String, now: i64) -> (r: Result<usize, String>) {
    let f = |e: rusqlite::Error| e.to_string();
    let conn = rusqlite::Connection::open(path.as_str()).map_err(f)?;
    conn.execute(
        "UPDATE replication_queue SET status = 'pending', next_retry_ts = ?1, updated_ts = ?1 WHERE status = 'failed'",
        (now,),
    ).map_err(f)
}

/// Relies on rusqlite's `query_row`: counts the rows in the pending and
/// in-progress states.
#[verifier::external_body]
fn db_pending_count(path: &String) -> (r: Result<usize, String>) {
    let f = |e: rusqlite::Error| e.to_string();
    let conn = rusqlite::Connection::open(path.as_str()).map_err(f)?;
    let count: i64 = conn.query_row(
        "SELECT COUNT(*) FROM replication_queue WHERE status IN ('pending', 'in_progress')",
        (),
        |row| row.get(0),
    ).map_err(f)?;
    Ok(count as usize)
}

/// Relies on rusqlite's `query_row`: counts the rows in the failed state.
#[verifier::external_body]
fn db_failed_count(path: &String) -> (r: Result<usize, String>) {
    let f = |e: rusqlite::Error| e.to_string();
    let conn = rusqlite::Connection::open(path.as_str()).map_err(f)?;
    let count: i64 = conn.query_row(
        "SELECT COUNT(*) FROM replication_queue WHERE status = 'failed'",
        (),
        |row| row.get(0),
    ).map_err(f)?;
    Ok(count as usize)
}

/// Orders claimed jobs by id, oldest first, by repeatedly extracting the
/// smallest remaining id. The result is a permutation of the input.
fn sort_jobs_by_id(jobs: Vec<ReplicationJob>) -> (r: Vec<ReplicationJob>)
    ensures
        r@.len() == jobs@.len(),
        r@.to_multiset() == jobs@.to_multiset(),
        forall|i: int, j: int|
            0 <= i < j < r@.len() ==> #[trigger] r@[i].id <= #[trigger] r@[j].id,
{
    broadcast use vstd::seq_lib::group_to_multiset_ensures;

    let mut rest = jobs;
    let mut out: Vec<ReplicationJob> = Vec::new();
    proof {
        assert(out@.to_multiset().add(rest@.to_multiset()) =~= jobs@.to_multiset());
    }
    while rest.len() > 0
        invariant
            out@.len() + rest@.len() == jobs@.len(),
            out@.to_multiset().add(rest@.to_multiset()) == jobs@.to_multiset(),
            forall|i: int, j: int|
                0 <= i < j < out@.len() ==> #[trigger] out@[i].id <= #[trigger] out@[j].id,
            forall|i: int, j: int|
                0 <= i < out@.len() && 0 <= j < rest@.len() ==> #[trigger] out@[i].id
                    <= #[trigger] rest@[j].id,
        decreases rest@.len(),
    {
        broadcast use vstd::seq_lib::group_to_multiset_ensures;

        let n = rest.len();
        let mut mi: usize = 0;
        let mut i: usize = 1;
        while i < n
            invariant
                mi < i <= n,
                n == rest@.len(),
                forall|j: int| 0 <= j < i ==> rest@[mi as int].id <= #[trigger] rest@[j].id,
            decreases n - i,
        {
            if rest[i].id < rest[mi].id {
                mi = i;
            }
            i = i + 1;
        }
        let ghost rest0 = rest@;
        let item = rest.remove(mi);
        let ghost out0 = out@;
        out.push(item);
        proof {
            assert(rest@.to_multiset() =~= rest0.to_multiset().remove(rest0[mi as int]));
            assert(out@.to_multiset() =~= out0.to_multiset().insert(item));
            assert(out@.to_multiset().add(rest@.to_multiset()) =~= jobs@.to_multiset());
        }
    }
    proof {
        assert(rest@.to_multiset() =~= Seq::<ReplicationJob>::empty().to_multiset());
        assert(out@.to_multiset() =~= jobs@.to_multiset());
    }
    out
}

/// The attempt count after one more failure: one more, saturating.
pub open spec fn spec_next_attempts(attempts: u32) -> u32 {
    if attempts == u32::MAX {
        u32::MAX
    } else {
        (attempts + 1) as u32
    }
}

/// Whether one more failure exhausts a retry budget; a budget of zero never
/// exhausts.
pub open spec fn spec_failure_exhausted(attempts: u32, max_retries: u32) -> bool {
    max_retries > 0 && spec_next_attempts(attempts) >= max_retries
}

/// The retry time after a failure at `now`: `now + backoff`, saturating at
/// the largest representable timestamp.
pub open spec fn spec_next_retry(now: i64, backoff_secs: u64) -> i64 {
    if backoff_secs <= i64::MAX && now + backoff_secs <= i64::MAX {
        (now + backoff_secs) as i64
    } else {
        i64::MAX
    }
}

/// The fate of a job after one more failed attempt.
#[derive(Clone, Copy, Debug, PartialEq, Eq, Structural)]
pub enum FailureDisposition {
    /// Still under budget: back to pending, retry at `next_retry_ts`.
    Retry { next_attempts: u32, next_retry_ts: i64 },
    /// Budget reached: the job moves to the failed state.
    Exhausted { next_attempts: u32 },
}

/// Decides what one more failure at `now` does to a job: it stays pending
/// with its retry scheduled `backoff_secs` later while its attempt count
/// stays under a positive `max_retries`, and moves to failed once the budget
/// is reached. A `max_retries` of zero retries forever.
pub fn failed_transition(attempts: u32, max_retries: u32, now: i64, backoff_secs: u64) -> (r:
    FailureDisposition)
    ensures
        spec_failure_exhausted(attempts, max_retries) ==> r == (FailureDisposition::Exhausted {
            next_attempts: spec_next_attempts(attempts),
        }),
        !spec_failure_exhausted(attempts, max_retries) ==> r == (FailureDisposition::Retry {
            next_attempts: spec_next_attempts(attempts),
            next_retry_ts: spec_next_retry(now, backoff_secs),
        }),
{
    let next_attempts = if attempts == u32::MAX {
        u32::MAX
    } else {
        attempts + 1
    };
    if max_retries > 0 && next_attempts >= max_retries {
        FailureDisposition::Exhausted { next_attempts }
    } else {
        let next_retry_ts = if backoff_secs > 0x7FFFFFFFFFFFFFFFu64 {
            i64::MAX
        } else {
            match now.checked_add(backoff_secs as i64) {
                Some(v) => v,
                None => i64::MAX,
            }
        };
        FailureDisposition::Retry { next_attempts, next_retry_ts }
    }
}

/// Law: a job that has failed fewer times than a positive retry budget — or
/// whose budget is unlimited — stays pending after one more failure, and its
/// next retry is scheduled exactly `backoff` seconds after the failure.
pub proof fn lemma_failure_keeps_pending(attempts: u32, max_retries: u32, now: i64, backoff: u64)
    requires
        attempts + 1 < max_retries || max_retries == 0,
        backoff <= i64::MAX,
        now + backoff <= i64::MAX,
    ensures
        !spec_failure_exhausted(attempts, max_retries),
        spec_next_retry(now, backoff) == now + backoff,
{
}

/// The durable job queue, stored in one database file under the archive
/// root.
#[derive(Clone, Debug)]
pub struct ReplicationQueue {
    pub db_path: String,
}

impl ReplicationQueue {
    /// Points the queue at `{root}/.replication/queue.sqlite`. The caller
    /// creates that directory before `init`.
    pub fn new(root: &str) -> (r: ReplicationQueue)
        ensures
            r.db_path@ == spec_path_join(root@, ".replication/queue.sqlite"@),
    {
        ReplicationQueue { db_path: crate::archive::layout::path_join(root, ".replication/queue.sqlite") }
    }

    /// The database file that backs the queue.
    pub fn db_path(&self) -> (r: &String)
        ensures
            r == &self.db_path,
    {
        &self.db_path
    }

    /// Creates the job table if it does not exist yet.
    pub fn init(&self) -> (r: Result<(), ArchiveError>)
        ensures
            r matches Err(e) ==> e.kind == ErrorKind::Queue,
    {
        match db_init(&self.db_path) {
            Ok(()) => Ok(()),
            Err(detail) => Err(ArchiveError::new(ErrorKind::Queue, detail)),
        }
    }

    /// Inserts one pending job, ready now.
    pub fn enqueue(
        &self,
        segment_path: &str,
        manifest_path: &str,
        destination_key: &str,
        max_retries: u32,
    ) -> (r: Result<(), ArchiveError>)
        ensures
            r matches Err(e) ==> e.kind == ErrorKind::Queue,
    {
        let now = now_epoch();
        match db_insert(&self.db_path, segment_path, manifest_path, destination_key, max_retries, now) {
            Ok(()) => Ok(()),
            Err(detail) => Err(ArchiveError::new(ErrorKind::Queue, detail)),
        }
    }

    /// Claims up to `limit` ready pending jobs, marking them in progress in
    /// the same statement, and returns them ordered by id, oldest first.
    pub fn claim_ready(&self, limit: u32) -> (r: Result<Vec<ReplicationJob>, ArchiveError>)
        ensures
            r matches Err(e) ==> e.kind == ErrorKind::Queue,
            r matches Ok(jobs) ==> forall|i: int, j: int|
                0 <= i < j < jobs@.len() ==> #[trigger] jobs@[i].id <= #[trigger] jobs@[j].id,
    {
        let now = now_epoch();
        match db_claim_ready(&self.db_path, now, limit) {
            Ok(jobs) => Ok(sort_jobs_by_id(jobs)),
            Err(detail) => Err(ArchiveError::new(ErrorKind::Queue, detail)),
        }
    }

    /// Removes a completed job.
    pub fn mark_success(&self, job_id: i64) -> (r: Result<(), ArchiveError>)
        ensures
            r matches Err(e) ==> e.kind == ErrorKind::Queue,
    {
        match db_delete(&self.db_path, job_id) {
            Ok(()) => Ok(()),
            Err(detail) => Err(ArchiveError::new(ErrorKind::Queue, detail)),
        }
    }

    /// Records one failed attempt: the job goes back to pending with its
    /// retry `retry_backoff_secs` from now, or to failed once a positive
    /// `max_retries` budget is reached.
    pub fn mark_failed(&self, job: &ReplicationJob, error: &str, retry_backoff_secs: u64) -> (r:
        Result<(), ArchiveError>)
        ensures
            r matches Err(e) ==> e.kind == ErrorKind::Queue,
    {
        let now = now_epoch();
        let outcome = failed_transition(job.attempts, job.max_retries, now, retry_backoff_secs);
        let dbr = match outcome {
            FailureDisposition::Retry { next_attempts, next_retry_ts } => db_set_pending_retry(
                &self.db_path,
                job.id,
                next_attempts,
                next_retry_ts,
                error,
                now,
            ),
            FailureDisposition::Exhausted { next_attempts } => db_set_failed(
                &self.db_path,
                job.id,
                next_attempts,
                error,
                now,
            ),
        };
        match dbr {
            Ok(()) => Ok(()),
            Err(detail) => Err(ArchiveError::new(ErrorKind::Queue, detail)),
        }
    }

    /// Returns every job claimed by an earlier run to the pending state, so
    /// that a restart cannot strand in-progress jobs. Destination writes are
    /// idempotent, so reprocessing a job a second time is safe.
    pub fn reset_in_progress(&self) -> (r: Result<usize, ArchiveError>)
        ensures
            r matches Err(e) ==> e.kind == ErrorKind::Queue,
    {
        let now = now_epoch();
        match db_reset_in_progress(&self.db_path, now) {
            Ok(n) => Ok(n),
            Err(detail) => Err(ArchiveError::new(ErrorKind::Queue, detail)),
        }
    }

    /// Moves every failed job back to pending, ready now; returns how many.
    pub fn retry_failed(&self) -> (r: Result<usize, ArchiveError>)
        ensures
            r matches Err(e) ==> e.kind == ErrorKind::Queue,
    {
        let now = now_epoch();
        match db_retry_failed(&self.db_path, now) {
            Ok(n) => Ok(n),
            Err(detail) => Err(ArchiveError::new(ErrorKind::Queue, detail)),
        }
    }

    /// The number of jobs still owed work: pending or in progress.
    pub fn pending_count(&self) -> (r: Result<usize, ArchiveError>)
        ensures
            r matches Err(e) ==> e.kind == ErrorKind::Queue,
    {
        match db_pending_count(&self.db_path) {
            Ok(n) => Ok(n),
            Err(detail) => Err(ArchiveError::new(ErrorKind::Queue, detail)),
        }
    }

    /// The number of jobs in the failed state.
    pub fn failed_count(&self) -> (r: Result<usize, ArchiveError>)
        ensures
            r matches Err(e) ==> e.kind == ErrorKind::Queue,
    {
        match db_failed_count(&self.db_path) {
            Ok(n) => Ok(n),
            Err(detail) => Err(ArchiveError::new(ErrorKind::Queue, detail)),
        }
    }
}

} // verus!
