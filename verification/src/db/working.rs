//! The working layer: short task summaries, searchable by full text and read
//! newest first.
use vstd::prelude::*;

use rusqlite::Row;

use crate::db::episodic::fails_only_in_db;
use crate::db::sql::{
    admits_rows, db_result, execute, failed_after, get_i64, get_opt_text, get_text,
    last_insert_rowid, lemma_added, lemma_rows_calls_ext, next_row, only_requests, opt_arg,
    opt_str_view, opt_string_seq, prepare, query_call, query_rows_int, query_rows_text,
    query_rows_text_int, read_calls, reads_only, rows_calls, text_args, Db, SqlArg, SqlCall,
    SqlLog, SqlRequest,
};
use crate::error::{AppError, Result};

verus! {

broadcast use crate::db::sql::group_sql_log;

/// A row from the `working` table.
#[derive(Debug, Clone, PartialEq)]
pub struct WorkingEntry {
    pub id: i64,
    pub summary: String,
    pub body: Option<String>,
    pub task_id: Option<String>,
    pub agent: Option<String>,
    pub created_at: String,
}

/// Statement that inserts a working-memory entry.
pub const INSERT_SQL: &'static str = "INSERT INTO working (summary, body, task_id, agent) VALUES (?1, ?2, ?3, ?4)";

/// Query for the latest entries.
pub const RECENT_SQL: &'static str = "SELECT id, summary, body, task_id, agent, created_at
         FROM working ORDER BY created_at DESC, id DESC LIMIT ?1";

/// Full-text query over summary and body, newest first.
pub const SEARCH_SQL: &'static str = "SELECT w.id, w.summary, w.body, w.task_id, w.agent, w.created_at
         FROM working_fts f
         JOIN working w ON w.id = f.rowid
         WHERE working_fts MATCH ?1
         ORDER BY w.created_at DESC, w.id DESC
         LIMIT ?2";

/// Query for the entries of one task, newest first.
pub const BY_TASK_SQL: &'static str = "SELECT id, summary, body, task_id, agent, created_at
         FROM working WHERE task_id = ?1
         ORDER BY created_at DESC, id DESC";

/// The reads that give `e` from one result row: columns 0 to 5 in order.
pub open spec fn row_reads(e: WorkingEntry) -> Seq<SqlCall> {
    seq![
        SqlCall::Read { column: 0, value: SqlArg::Int(e.id as int) },
        SqlCall::Read { column: 1, value: SqlArg::Text(e.summary@) },
        SqlCall::Read { column: 2, value: opt_arg(opt_string_seq(e.body)) },
        SqlCall::Read { column: 3, value: opt_arg(opt_string_seq(e.task_id)) },
        SqlCall::Read { column: 4, value: opt_arg(opt_string_seq(e.agent)) },
        SqlCall::Read { column: 5, value: SqlArg::Text(e.created_at@) },
    ]
}

/// The exchanges of reading the rows `v`, at most `limit` of them.
pub open spec fn entries_calls(v: Seq<WorkingEntry>, limit: int) -> Seq<SqlCall> {
    read_calls(v.len(), |i: int| row_reads(v[i]), limit)
}

/// The exchanges of a prepared read of the rows `v`, at most `limit` of
/// them: the prepare, the start with `args`, and the rows read.
pub open spec fn query_result_calls(sql: Seq<char>, args: Seq<SqlArg>, v: Seq<WorkingEntry>, limit: int) -> Seq<SqlCall> {
    seq![SqlCall::Prepare { sql }, SqlCall::Query { args }] + entries_calls(v, limit)
}

/// What a read of at most `limit` rows gives: on success, entries `v` with
/// the log grown by exactly their query; on failure, the log grown only by
/// compiling and starting that query, stepping and reading (which is also
/// all that a successful read runs).
pub open spec fn read_result(before: Seq<SqlCall>, after: Seq<SqlCall>, sql: Seq<char>, args: Seq<SqlArg>, r: Result<Vec<WorkingEntry>>, limit: int) -> bool {
    &&& fails_only_in_db(r)
    &&& r matches Ok(v) ==> v@.len() <= limit && after == before + query_result_calls(sql, args, v@, limit)
    &&& only_requests(before, after, reads_only(sql, args))
}

/// The parameters of the insert statement.
pub open spec fn insert_args(
    summary: Seq<char>,
    body: Option<Seq<char>>,
    task_id: Option<Seq<char>>,
    agent: Option<Seq<char>>,
) -> Seq<SqlArg> {
    seq![SqlArg::Text(summary), opt_arg(body), opt_arg(task_id), opt_arg(agent)]
}

/// The exchanges of inserting an entry and asking for its rowid `id`;
/// `changed` is the count SQLite reported.
pub open spec fn insert_calls(
    summary: Seq<char>,
    body: Option<Seq<char>>,
    task_id: Option<Seq<char>>,
    agent: Option<Seq<char>>,
    changed: int,
    id: int,
) -> Seq<SqlCall> {
    seq![
        SqlCall::Execute { sql: INSERT_SQL@, args: insert_args(summary, body, task_id, agent), changed },
        SqlCall::LastRowid { id },
    ]
}

/// What inserting an entry with these fields asks of SQLite, in order.
pub open spec fn insert_plan(
    summary: Seq<char>,
    body: Option<Seq<char>>,
    task_id: Option<Seq<char>>,
    agent: Option<Seq<char>>,
) -> Seq<SqlRequest> {
    seq![SqlRequest::Execute { sql: INSERT_SQL@, args: insert_args(summary, body, task_id, agent) }, SqlRequest::LastRowid]
}

/// The log went from `before` to `after` by inserting an entry with these
/// fields (SQLite reporting some count of changed rows) and then reading back
/// the rowid `id`.
pub open spec fn inserted(
    before: Seq<SqlCall>,
    after: Seq<SqlCall>,
    summary: Seq<char>,
    body: Option<Seq<char>>,
    task_id: Option<Seq<char>>,
    agent: Option<Seq<char>>,
    id: int,
) -> bool {
    exists|changed: int| after == before + insert_calls(summary, body, task_id, agent, changed, id)
}

fn map_row(row: &Row<'_>, log: &mut SqlLog, Ghost(start): Ghost<Seq<SqlCall>>, Ghost(allowed): Ghost<spec_fn(SqlRequest) -> bool>) -> (r: std::result::Result<WorkingEntry, rusqlite::Error>)
    requires
        admits_rows(allowed),
        only_requests(start, old(log)@, allowed),
    ensures
        only_requests(start, final(log)@, allowed),
        r matches Ok(e) ==> final(log)@ == old(log)@ + row_reads(e),
{
    let id = get_i64(row, log, 0)?;
    let summary = get_text(row, log, 1)?;
    let body = get_opt_text(row, log, 2)?;
    let task_id = get_opt_text(row, log, 3)?;
    let agent = get_opt_text(row, log, 4)?;
    let created_at = get_text(row, log, 5)?;
    let e = WorkingEntry { id, summary, body, task_id, agent, created_at };
    assert(log@ =~= old(log)@ + row_reads(e));
    Ok(e)
}

/// Insert a new working-memory entry and return its rowid: the statement
/// [`INSERT_SQL`] with the four fields, then the connection's latest rowid.
/// Nothing else is run; when the statement fails, that failed call is all
/// that was run.
pub fn insert(
    db: &mut Db,
    summary: &str,
    body: Option<&str>,
    task_id: Option<&str>,
    agent: Option<&str>,
) -> (r: Result<i64>)
    ensures
        fails_only_in_db(r),
        r matches Ok(id) ==> inserted(
            old(db).log@, final(db).log@,
            summary@, opt_str_view(body), opt_str_view(task_id), opt_str_view(agent), id as int),
        r is Err ==> failed_after(old(db).log@, final(db).log@, insert_plan(
            summary@, opt_str_view(body), opt_str_view(task_id), opt_str_view(agent))),
{
    let ghost start = db.log@;
    let args: Vec<Option<&str>> = vec![Some(summary), body, task_id, agent];
    assert(text_args(args@) =~= insert_args(summary@, opt_str_view(body), opt_str_view(task_id), opt_str_view(agent)));
    let n = match execute(&db.conn, &mut db.log, INSERT_SQL, &args) {
        Ok(n) => n,
        Err(e) => {
            proof {
                lemma_added(start, seq![db.log@.last()]);
                assert(db.log@ =~= start + seq![db.log@.last()]);
            }
            return Err(AppError::Database(e));
        },
    };
    let id = last_insert_rowid(&db.conn, &mut db.log);
    assert(db.log@ =~= start + insert_calls(summary@, opt_str_view(body), opt_str_view(task_id), opt_str_view(agent), n as int, id as int));
    Ok(id)
}

/// Read the rows of a started query, at most `limit` of them, in the order
/// the query yields them.
fn collect_rows(rows: &mut rusqlite::Rows<'_>, log: &mut SqlLog, limit: usize, Ghost(start): Ghost<Seq<SqlCall>>, Ghost(allowed): Ghost<spec_fn(SqlRequest) -> bool>) -> (r: Result<Vec<WorkingEntry>>)
    requires
        admits_rows(allowed),
        only_requests(start, old(log)@, allowed),
    ensures
        fails_only_in_db(r),
        only_requests(start, final(log)@, allowed),
        r matches Ok(v) ==> v@.len() <= limit && final(log)@ == old(log)@ + entries_calls(v@, limit as int),
{
    let mut out: Vec<WorkingEntry> = Vec::new();
    let mut done = false;
    while !done && out.len() < limit
        invariant
            admits_rows(allowed),
            only_requests(start, log@, allowed),
            out@.len() <= limit,
            !done ==> log@ == old(log)@ + rows_calls(out@.len(), |i: int| row_reads(out@[i])),
            done ==> out@.len() < limit && log@ == old(log)@ + entries_calls(out@, limit as int),
        decreases limit - out@.len(), if done { 0int } else { 1int },
    {
        let step = next_row(rows, log);
        match db_result(step)? {
            None => {
                assert(log@ =~= old(log)@ + entries_calls(out@, limit as int));
                done = true;
            },
            Some(row) => {
                let entry = db_result(map_row(row, log, Ghost(start), Ghost(allowed)))?;
                let ghost old_out = out@;
                out.push(entry);
                proof {
                    lemma_rows_calls_ext(old_out.len(), |i: int| row_reads(old_out[i]), |i: int| row_reads(out@[i]));
                    assert(log@ =~= old(log)@ + rows_calls(out@.len(), |i: int| row_reads(out@[i])));
                }
            },
        }
    }
    proof {
        if !done {
            assert(log@ =~= old(log)@ + entries_calls(out@, limit as int));
        }
    }
    Ok(out)
}

/// Run `sql` (one of this layer's queries), started with the text `text`
/// when given and with `limit` when given, and read at most `limit` rows
/// (all of them without one).
fn read_query(db: &mut Db, sql: &str, text: Option<&str>, limit: Option<u32>) -> (r: Result<Vec<WorkingEntry>>)
    requires
        text is Some || limit is Some,
    ensures
        read_result(old(db).log@, final(db).log@, sql@, query_args(text, limit), r, read_limit(limit)),
{
    let ghost start = db.log@;
    let ghost args = query_args(text, limit);
    let ghost allowed = reads_only(sql@, args);
    let stmt = prepare(&db.conn, &mut db.log, sql);
    let mut stmt = db_result(stmt)?;
    let rows = match (text, limit) {
        (Some(t), Some(n)) => query_rows_text_int(&mut stmt, &mut db.log, t, n),
        (Some(t), None) => query_rows_text(&mut stmt, &mut db.log, t),
        (None, Some(n)) => query_rows_int(&mut stmt, &mut db.log, n),
        (None, None) => query_rows_int(&mut stmt, &mut db.log, 0),
    };
    assert(db.log@.last() == query_call(args, rows is Ok));
    let mut rows = db_result(rows)?;
    let bound: usize = match limit {
        Some(n) => n as usize,
        None => usize::MAX,
    };
    let v = collect_rows(&mut rows, &mut db.log, bound, Ghost(start), Ghost(allowed))?;
    assert(db.log@ =~= start + query_result_calls(sql@, args, v@, read_limit(limit)));
    Ok(v)
}

/// The parameters a read starts its query with.
pub open spec fn query_args(text: Option<&str>, limit: Option<u32>) -> Seq<SqlArg> {
    match (text, limit) {
        (Some(t), Some(n)) => seq![SqlArg::Text(t@), SqlArg::Int(n as int)],
        (Some(t), None) => seq![SqlArg::Text(t@)],
        (None, Some(n)) => seq![SqlArg::Int(n as int)],
        (None, None) => seq![SqlArg::Int(0)],
    }
}

/// The most rows a read returns.
pub open spec fn read_limit(limit: Option<u32>) -> int {
    match limit {
        Some(n) => n as int,
        None => usize::MAX as int,
    }
}

/// Return the most recent `limit` working entries, newest first: the query
/// [`RECENT_SQL`] with `limit`, and one entry per row it returns.
pub fn recent(db: &mut Db, limit: u32) -> (r: Result<Vec<WorkingEntry>>)
    ensures
        read_result(old(db).log@, final(db).log@, RECENT_SQL@, seq![SqlArg::Int(limit as int)], r, limit as int),
{
    read_query(db, RECENT_SQL, None, Some(limit))
}

/// Full-text search across summary and body, newest first: the query
/// [`SEARCH_SQL`] with `query` and `limit`, and one entry per row.
pub fn search(db: &mut Db, query: &str, limit: u32) -> (r: Result<Vec<WorkingEntry>>)
    ensures
        read_result(old(db).log@, final(db).log@, SEARCH_SQL@, seq![SqlArg::Text(query@), SqlArg::Int(limit as int)], r, limit as int),
{
    read_query(db, SEARCH_SQL, Some(query), Some(limit))
}

/// Return all entries of `task_id`, newest first: the query [`BY_TASK_SQL`]
/// with `task_id`, and one entry per row it returns.
pub fn by_task(db: &mut Db, task_id: &str) -> (r: Result<Vec<WorkingEntry>>)
    ensures
        read_result(old(db).log@, final(db).log@, BY_TASK_SQL@, seq![SqlArg::Text(task_id@)], r, usize::MAX as int),
{
    read_query(db, BY_TASK_SQL, Some(task_id), None)
}

} // verus!
