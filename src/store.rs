//! The persistent store: a relational database of pull-request and
//! worktree records, reached through trusted items over the `rusqlite`
//! crate and guarded by a mutual-exclusion lock. What a query returns
//! depends on the file on disk; the verified functions here turn what came
//! back into records or errors.
use crate::protocol::{error_at, ErrorKind, McpError, PrRecord, WorktreeRecord};
use vstd::prelude::*;
use vstd::string::*;

verus! {

#[verifier::external_type_specification]
#[verifier::external_body]
pub struct ExConnection(rusqlite::Connection);

#[verifier::external_type_specification]
#[verifier::external_body]
pub struct ExSqlError(rusqlite::Error);

#[verifier::external_type_specification]
#[verifier::external_body]
#[verifier::reject_recursive_types(T)]
pub struct ExMutex<T: ?Sized>(std::sync::Mutex<T>);

#[verifier::external_type_specification]
#[verifier::external_body]
#[verifier::reject_recursive_types(T)]
pub struct ExMutexGuard<'a, T: ?Sized + 'a>(std::sync::MutexGuard<'a, T>);

/// The schema of the store; both tables are created only where absent.
pub const SCHEMA: &'static str = "CREATE TABLE IF NOT EXISTS prs (
    id INTEGER PRIMARY KEY,
    title TEXT NOT NULL,
    from_branch TEXT,
    to_branch TEXT,
    state TEXT DEFAULT 'open',
    created_at TEXT DEFAULT CURRENT_TIMESTAMP
);
CREATE TABLE IF NOT EXISTS worktrees (
    id INTEGER PRIMARY KEY,
    name TEXT UNIQUE,
    path TEXT,
    branch TEXT,
    created_at TEXT DEFAULT CURRENT_TIMESTAMP
);";

pub const INSERT_PR: &'static str = "INSERT INTO prs (title, from_branch, to_branch) VALUES (?1, ?2, ?3)";

pub const SELECT_PRS: &'static str = "SELECT id, title, from_branch, to_branch, state, created_at FROM prs ORDER BY id DESC";

pub const UPSERT_WORKTREE: &'static str = "INSERT OR REPLACE INTO worktrees (name, path, branch) VALUES (?1, ?2, ?3)";

pub const SELECT_WORKTREES: &'static str = "SELECT name, path, branch, created_at FROM worktrees ORDER BY id DESC";

/// Relies on rusqlite::Connection::open: opens or creates the database
/// file at `path`.
#[verifier::external_body]
pub(crate) fn open_connection(path: &str) -> (r: Result<rusqlite::Connection, rusqlite::Error>) {
    rusqlite::Connection::open(path)
}

/// Relies on rusqlite::Connection::execute_batch: runs the statements of
/// `sql` in order.
#[verifier::external_body]
pub(crate) fn execute_batch(conn: &rusqlite::Connection, sql: &str) -> (r: Result<
    (),
    rusqlite::Error,
>) {
    conn.execute_batch(sql)
}

/// Relies on std::sync::Mutex::new: a lock around `conn`.
#[verifier::external_body]
pub(crate) fn new_lock(conn: rusqlite::Connection) -> (r: std::sync::Mutex<rusqlite::Connection>) {
    std::sync::Mutex::new(conn)
}

/// Relies on std::sync::Mutex::lock: the guard, or `None` where a holder
/// panicked and left the lock poisoned.
#[verifier::external_body]
pub(crate) fn lock_store<'a>(m: &'a std::sync::Mutex<rusqlite::Connection>) -> (r: Option<
    std::sync::MutexGuard<'a, rusqlite::Connection>,
>) {
    m.lock().ok()
}

/// Relies on rusqlite::Connection::execute: runs `sql` with three text
/// parameters, giving the number of rows changed.
#[verifier::external_body]
pub(crate) fn execute3(
    db: &std::sync::MutexGuard<rusqlite::Connection>,
    sql: &str,
    a: &str,
    b: &str,
    c: &str,
) -> (r: Result<usize, rusqlite::Error>) {
    db.execute(sql, (a, b, c))
}

/// Relies on rusqlite::Connection::last_insert_rowid: the row id of the
/// latest insert on this connection.
#[verifier::external_body]
pub(crate) fn last_insert_rowid(db: &std::sync::MutexGuard<rusqlite::Connection>) -> (r: i64) {
    db.last_insert_rowid()
}

/// Why a query gave no rows: its text did not compile, or running it
/// failed.
pub enum QueryFailure {
    Prepare(rusqlite::Error),
    Run(rusqlite::Error),
}

/// Whether the records read among `rows` come in descending order of id.
pub open spec fn rows_newest_first(rows: Seq<Result<PrRecord, rusqlite::Error>>) -> bool {
    forall|i: int, j: int|
        0 <= i < j < rows.len() && (#[trigger] rows[i]) is Ok && (#[trigger] rows[j]) is Ok
            ==> rows[i]->Ok_0.id >= rows[j]->Ok_0.id
}

/// Relies on rusqlite::Connection::prepare and rusqlite::Statement::query_map:
/// runs the query `sql` of six columns (id, title, source and target branch,
/// state, creation time) and reads each row, in the order the query gives,
/// as a pull-request record or as the error met reading it. `SELECT_PRS`
/// orders by id, descending.
#[verifier::external_body]
pub(crate) fn select_pr_rows(db: &std::sync::MutexGuard<rusqlite::Connection>, sql: &str) -> (r:
    Result<Vec<Result<PrRecord, rusqlite::Error>>, QueryFailure>)
    ensures
        sql@ == SELECT_PRS@ ==> (r matches Ok(rows) ==> rows_newest_first(rows@)),
{
    let mut stmt = db.prepare(sql).map_err(QueryFailure::Prepare)?;
    stmt.query_map([], |row| {
        Ok(PrRecord {
            id: row.get(0)?,
            title: row.get(1)?,
            from: row.get(2)?,
            to: row.get(3)?,
            state: row.get(4)?,
            created_at: row.get(5)?,
        })
    }).map(|rows| rows.collect()).map_err(QueryFailure::Run)
}

/// Relies on rusqlite::Connection::prepare and rusqlite::Statement::query_map:
/// runs the query `sql` of four columns (name, path, branch, creation time)
/// and reads each row as a worktree record, or as the error met reading it.
#[verifier::external_body]
pub(crate) fn select_worktree_rows(db: &std::sync::MutexGuard<rusqlite::Connection>, sql: &str) -> (r:
    Result<Vec<Result<WorktreeRecord, rusqlite::Error>>, QueryFailure>) {
    let mut stmt = db.prepare(sql).map_err(QueryFailure::Prepare)?;
    stmt.query_map([], |row| {
        Ok(WorktreeRecord {
            name: row.get(0)?,
            path: row.get(1)?,
            branch: row.get(2)?,
            created_at: row.get(3)?,
        })
    }).map(|rows| rows.collect()).map_err(QueryFailure::Run)
}

/// Relies on the `Display` form of rusqlite::Error: the error's text.
#[verifier::external_body]
pub(crate) fn sql_error_message(e: &rusqlite::Error) -> (r: String) {
    e.to_string()
}

/// Whether every row of `rows` was read.
pub open spec fn all_read<T>(rows: Seq<Result<T, rusqlite::Error>>) -> bool {
    forall|i: int| 0 <= i < rows.len() ==> (#[trigger] rows[i]) is Ok
}

/// The records of `rows` in order, or the error of site `kind` (with
/// `prefix` and the text of the first failed row) where a row failed.
pub fn collect_rows<T>(rows: Vec<Result<T, rusqlite::Error>>, kind: ErrorKind, prefix: &str) -> (r:
    Result<Vec<T>, McpError>)
    ensures
        r is Ok <==> all_read(rows@),
        r matches Ok(items) ==> items@.len() == rows@.len() && forall|i: int|
            0 <= i < rows@.len() ==> items@[i] == (#[trigger] rows@[i])->Ok_0,
        r matches Err(e) ==> error_at(e, kind, prefix@),
{
    let ghost all = rows@;
    let mut rest = rows;
    let mut items: Vec<T> = Vec::new();
    while rest.len() > 0
        invariant
            all == rows@,
            items@.len() + rest@.len() == all.len(),
            rest@ == all.subrange(items@.len() as int, all.len() as int),
            forall|i: int| 0 <= i < items@.len() ==> items@[i] == (#[trigger] all[i])->Ok_0
                && all[i] is Ok,
        decreases rest.len(),
    {
        let ghost at = items@.len() as int;
        let row = rest.remove(0);
        assert(row == all[at]);
        match row {
            Ok(v) => {
                items.push(v);
            },
            Err(e) => {
                assert(!(all[at] is Ok));
                assert(!all_read(all));
                return Err(McpError::described(kind, prefix, sql_error_message(&e)));
            },
        }
    }
    assert(all_read(all)) by {
        assert forall|i: int| 0 <= i < all.len() implies (#[trigger] all[i]) is Ok by {
            assert(items@[i] == all[i]->Ok_0);
        }
    }
    Ok(items)
}

} // verus!
