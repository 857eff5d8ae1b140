//! The registry's schema migrations: which of them a database still needs,
//! and the statements that apply and record each, for SQLite and PostgreSQL.
use vstd::prelude::*;

verus! {

/// The SQL dialect of a registry database.
#[derive(Debug, Clone, Copy, PartialEq, Eq, Structural)]
pub enum Dialect {
    Sqlite,
    Postgres,
}

/// One schema migration: its version, the statement that creates its table,
/// and the statement that records it as applied.
#[derive(Debug, Clone, Copy)]
pub struct Migration {
    pub version: i64,
    pub create_sql: &'static str,
    pub record_sql: &'static str,
}

/// The statement that creates the table of applied migrations.
pub open spec fn migrations_table_spec(d: Dialect) -> Seq<char> {
    match d {
        Dialect::Sqlite => "CREATE TABLE IF NOT EXISTS migrations (
            version INTEGER PRIMARY KEY,
            dirty INTEGER NOT NULL DEFAULT 0,
            timestamp TEXT NOT NULL DEFAULT (datetime('now'))
        )"@,
        Dialect::Postgres => "CREATE TABLE IF NOT EXISTS migrations (
            version INTEGER PRIMARY KEY,
            dirty INTEGER NOT NULL DEFAULT 0,
            timestamp TIMESTAMPTZ NOT NULL DEFAULT NOW()
        )"@,
    }
}

/// The statement that creates the table of the first migration: one
/// serialized registry per project.
pub open spec fn project_registries_spec(d: Dialect) -> Seq<char> {
    match d {
        Dialect::Sqlite => "CREATE TABLE IF NOT EXISTS project_registries (
            project_name TEXT PRIMARY KEY NOT NULL,
            serialized_registry BLOB NOT NULL,
            version INTEGER NOT NULL DEFAULT 1,
            last_updated TEXT NOT NULL DEFAULT (datetime('now'))
        )"@,
        Dialect::Postgres => "CREATE TABLE IF NOT EXISTS project_registries (
            project_name VARCHAR(255) PRIMARY KEY NOT NULL,
            serialized_registry BYTEA NOT NULL,
            version INTEGER NOT NULL DEFAULT 1,
            last_updated TIMESTAMPTZ NOT NULL DEFAULT NOW()
        )"@,
    }
}

/// The statement that creates the table of the second migration: the
/// backfill jobs.
pub open spec fn backfill_jobs_spec(d: Dialect) -> Seq<char> {
    match d {
        Dialect::Sqlite => "CREATE TABLE IF NOT EXISTS backfill_jobs (
            id TEXT PRIMARY KEY NOT NULL,
            feature_view_name TEXT NOT NULL,
            project TEXT NOT NULL,
            start_ts TEXT NOT NULL,
            end_ts TEXT NOT NULL,
            status TEXT NOT NULL DEFAULT 'Pending',
            progress REAL NOT NULL DEFAULT 0.0,
            chunk_size_seconds INTEGER NOT NULL DEFAULT 86400,
            error TEXT,
            created_at TEXT NOT NULL DEFAULT (datetime('now')),
            updated_at TEXT NOT NULL DEFAULT (datetime('now'))
        )"@,
        Dialect::Postgres => "CREATE TABLE IF NOT EXISTS backfill_jobs (
            id TEXT PRIMARY KEY NOT NULL,
            feature_view_name TEXT NOT NULL,
            project TEXT NOT NULL,
            start_ts TIMESTAMPTZ NOT NULL,
            end_ts TIMESTAMPTZ NOT NULL,
            status TEXT NOT NULL DEFAULT 'Pending',
            progress DOUBLE PRECISION NOT NULL DEFAULT 0.0,
            chunk_size_seconds BIGINT NOT NULL DEFAULT 86400,
            error TEXT,
            created_at TIMESTAMPTZ NOT NULL DEFAULT NOW(),
            updated_at TIMESTAMPTZ NOT NULL DEFAULT NOW()
        )"@,
    }
}

/// The statement that records migration 1 (`v` = 1) or 2 as applied.
pub open spec fn record_spec(v: int) -> Seq<char> {
    if v == 1 {
        "INSERT INTO migrations (version, dirty) VALUES (1, 0)"@
    } else {
        "INSERT INTO migrations (version, dirty) VALUES (2, 0)"@
    }
}

/// The statement that reads the highest applied version, 0 when none is.
pub open spec fn current_version_spec() -> Seq<char> {
    "SELECT COALESCE(MAX(version), 0) FROM migrations"@
}

/// The statement that creates the table of applied migrations.
pub fn migrations_table_sql(d: Dialect) -> (r: &'static str)
    ensures
        r@ == migrations_table_spec(d),
{
    match d {
        Dialect::Sqlite => "CREATE TABLE IF NOT EXISTS migrations (
            version INTEGER PRIMARY KEY,
            dirty INTEGER NOT NULL DEFAULT 0,
            timestamp TEXT NOT NULL DEFAULT (datetime('now'))
        )",
        Dialect::Postgres => "CREATE TABLE IF NOT EXISTS migrations (
            version INTEGER PRIMARY KEY,
            dirty INTEGER NOT NULL DEFAULT 0,
            timestamp TIMESTAMPTZ NOT NULL DEFAULT NOW()
        )",
    }
}

/// The statement that reads the highest applied version.
pub fn current_version_sql() -> (r: &'static str)
    ensures
        r@ == current_version_spec(),
{
    "SELECT COALESCE(MAX(version), 0) FROM migrations"
}

/// Migration 1: the table of serialized project registries.
pub fn migration_v1(d: Dialect) -> (r: Migration)
    ensures
        r.version == 1,
        r.create_sql@ == project_registries_spec(d),
        r.record_sql@ == record_spec(1),
{
    let create_sql = match d {
        Dialect::Sqlite => "CREATE TABLE IF NOT EXISTS project_registries (
            project_name TEXT PRIMARY KEY NOT NULL,
            serialized_registry BLOB NOT NULL,
            version INTEGER NOT NULL DEFAULT 1,
            last_updated TEXT NOT NULL DEFAULT (datetime('now'))
        )",
        Dialect::Postgres => "CREATE TABLE IF NOT EXISTS project_registries (
            project_name VARCHAR(255) PRIMARY KEY NOT NULL,
            serialized_registry BYTEA NOT NULL,
            version INTEGER NOT NULL DEFAULT 1,
            last_updated TIMESTAMPTZ NOT NULL DEFAULT NOW()
        )",
    };
    Migration { version: 1, create_sql, record_sql: "INSERT INTO migrations (version, dirty) VALUES (1, 0)" }
}

/// Migration 2: the table of backfill jobs.
pub fn migration_v2(d: Dialect) -> (r: Migration)
    ensures
        r.version == 2,
        r.create_sql@ == backfill_jobs_spec(d),
        r.record_sql@ == record_spec(2),
{
    let create_sql = match d {
        Dialect::Sqlite => "CREATE TABLE IF NOT EXISTS backfill_jobs (
            id TEXT PRIMARY KEY NOT NULL,
            feature_view_name TEXT NOT NULL,
            project TEXT NOT NULL,
            start_ts TEXT NOT NULL,
            end_ts TEXT NOT NULL,
            status TEXT NOT NULL DEFAULT 'Pending',
            progress REAL NOT NULL DEFAULT 0.0,
            chunk_size_seconds INTEGER NOT NULL DEFAULT 86400,
            error TEXT,
            created_at TEXT NOT NULL DEFAULT (datetime('now')),
            updated_at TEXT NOT NULL DEFAULT (datetime('now'))
        )",
        Dialect::Postgres => "CREATE TABLE IF NOT EXISTS backfill_jobs (
            id TEXT PRIMARY KEY NOT NULL,
            feature_view_name TEXT NOT NULL,
            project TEXT NOT NULL,
            start_ts TIMESTAMPTZ NOT NULL,
            end_ts TIMESTAMPTZ NOT NULL,
            status TEXT NOT NULL DEFAULT 'Pending',
            progress DOUBLE PRECISION NOT NULL DEFAULT 0.0,
            chunk_size_seconds BIGINT NOT NULL DEFAULT 86400,
            error TEXT,
            created_at TIMESTAMPTZ NOT NULL DEFAULT NOW(),
            updated_at TIMESTAMPTZ NOT NULL DEFAULT NOW()
        )",
    };
    Migration { version: 2, create_sql, record_sql: "INSERT INTO migrations (version, dirty) VALUES (2, 0)" }
}

/// The versions still to apply to a database whose highest applied version
/// is `current` (0 when the query gave nothing): each known version above
/// it, in ascending order.
pub open spec fn pending_versions(current: Option<i64>) -> Seq<int> {
    let c: int = match current {
        Some(v) => v as int,
        None => 0,
    };
    if c < 1 {
        seq![1int, 2int]
    } else if c < 2 {
        seq![2int]
    } else {
        Seq::empty()
    }
}

/// The migrations still to apply, in the order to apply them, for a
/// database whose highest applied version is `current`.
pub fn pending_migrations(current: Option<i64>, d: Dialect) -> (r: Vec<Migration>)
    ensures
        r@.len() == pending_versions(current).len(),
        forall|i: int| 0 <= i < r@.len() ==> (#[trigger] r@[i]).version == pending_versions(current)[i],
        forall|i: int|
            0 <= i < r@.len() ==> (#[trigger] r@[i]).create_sql@ == (if r@[i].version == 1 {
                project_registries_spec(d)
            } else {
                backfill_jobs_spec(d)
            }),
        forall|i: int| 0 <= i < r@.len() ==> (#[trigger] r@[i]).record_sql@ == record_spec(r@[i].version as int),
{
    let c: i64 = match current {
        Some(v) => v,
        None => 0,
    };
    let mut out: Vec<Migration> = Vec::new();
    if c < 1 {
        out.push(migration_v1(d));
    }
    if c < 2 {
        out.push(migration_v2(d));
    }
    out
}

/// The highest applied version once the pending migrations have run: the
/// last pending version, or `current` itself when none was pending.
pub open spec fn version_after(current: Option<i64>) -> int {
    let p = pending_versions(current);
    if p.len() > 0 {
        p.last()
    } else {
        match current {
            Some(v) => v as int,
            None => 0,
        }
    }
}

/// Running the migrations twice applies nothing the second time: each
/// pending version lies above the current one, they come in ascending
/// order, and once they are recorded none is pending.
pub proof fn lemma_migrations_idempotent(current: Option<i64>)
    ensures
        forall|i: int|
            0 <= i < pending_versions(current).len() ==> #[trigger] pending_versions(current)[i] > (match current {
                Some(v) => v as int,
                None => 0,
            }),
        forall|i: int, j: int|
            0 <= i < j < pending_versions(current).len() ==> pending_versions(current)[i] < pending_versions(
                current,
            )[j],
        i64::MIN <= version_after(current) <= i64::MAX,
        pending_versions(Some(version_after(current) as i64)).len() == 0,
{
}

} // verus!
