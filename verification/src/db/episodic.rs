//! The episodic layer: a permanent log of raw events, newest first on read.
use vstd::prelude::*;

use rusqlite::Row;

use crate::db::sql::{
    admits_rows, db_result, execute, failed_after, get_i64, get_opt_text, get_text,
    last_insert_rowid, lemma_added, lemma_rows_calls_ext, next_row, only_requests, opt_arg,
    opt_str_view, opt_string_seq, prepare, query_call, query_rows_int, query_rows_text_int,
    read_calls, reads_only, rows_calls, text_args, Db, SqlArg, SqlCall, SqlLog, SqlRequest,
};
use crate::error::{AppError, Result};

verus! {

broadcast use crate::db::sql::group_sql_log;

/// A row from the `episodic` table.
#[derive(Debug, Clone, PartialEq)]
pub struct EpisodicRow {
    pub id: i64,
    pub content: String,
    pub context: Option<String>,
    pub agent: Option<String>,
    pub timestamp: String,
    pub source: Option<String>,
}

/// Parameters for inserting a new episodic record.
pub struct InsertEpisodic<'a> {
    pub content: &'a str,
    pub context: Option<&'a str>,
    pub agent: Option<&'a str>,
    pub source: Option<&'a str>,
}

/// Statement that inserts an episodic record.
pub const INSERT_SQL: &'static str = "INSERT INTO episodic (content, context, agent, source) VALUES (?1, ?2, ?3, ?4)";

/// Query for the latest records.
pub const RECENT_SQL: &'static str = "SELECT id, content, context, agent, timestamp, source \
     FROM episodic ORDER BY timestamp DESC, id DESC LIMIT ?1";

/// Query for the latest records of one agent.
pub const BY_AGENT_SQL: &'static str = "SELECT id, content, context, agent, timestamp, source \
     FROM episodic WHERE agent = ?1 ORDER BY timestamp DESC, id DESC LIMIT ?2";

/// Query for the latest records after a timestamp.
pub const SINCE_SQL: &'static str = "SELECT id, content, context, agent, timestamp, source \
     FROM episodic WHERE timestamp > ?1 ORDER BY timestamp DESC, id DESC LIMIT ?2";

/// Whether every error that `r` carries is a database error.
pub open spec fn fails_only_in_db<T>(r: Result<T>) -> bool {
    r matches Err(e) ==> e is Database
}

/// The reads that give `e` from one result row: columns 0 to 5 in order.
pub open spec fn row_reads(e: EpisodicRow) -> Seq<SqlCall> {
    seq![
        SqlCall::Read { column: 0, value: SqlArg::Int(e.id as int) },
        SqlCall::Read { column: 1, value: SqlArg::Text(e.content@) },
        SqlCall::Read { column: 2, value: opt_arg(opt_string_seq(e.context)) },
        SqlCall::Read { column: 3, value: opt_arg(opt_string_seq(e.agent)) },
        SqlCall::Read { column: 4, value: SqlArg::Text(e.timestamp@) },
        SqlCall::Read { column: 5, value: opt_arg(opt_string_seq(e.source)) },
    ]
}

/// The exchanges of reading the rows `v`, at most `limit` of them.
pub open spec fn entries_calls(v: Seq<EpisodicRow>, limit: int) -> Seq<SqlCall> {
    read_calls(v.len(), |i: int| row_reads(v[i]), limit)
}

/// The exchanges of inserting a record with these fields and asking for its
/// rowid `id`; `changed` is the count SQLite reported.
pub open spec fn insert_calls(
    content: Seq<char>,
    context: Option<Seq<char>>,
    agent: Option<Seq<char>>,
    source: Option<Seq<char>>,
    changed: int,
    id: int,
) -> Seq<SqlCall> {
    seq![
        SqlCall::Execute { sql: INSERT_SQL@, args: insert_args(content, context, agent, source), changed },
        SqlCall::LastRowid { id },
    ]
}

/// The parameters of the insert statement.
pub open spec fn insert_args(
    content: Seq<char>,
    context: Option<Seq<char>>,
    agent: Option<Seq<char>>,
    source: Option<Seq<char>>,
) -> Seq<SqlArg> {
    seq![SqlArg::Text(content), opt_arg(context), opt_arg(agent), opt_arg(source)]
}

/// What inserting a record with these fields asks of SQLite, in order.
pub open spec fn insert_plan(
    content: Seq<char>,
    context: Option<Seq<char>>,
    agent: Option<Seq<char>>,
    source: Option<Seq<char>>,
) -> Seq<SqlRequest> {
    seq![SqlRequest::Execute { sql: INSERT_SQL@, args: insert_args(content, context, agent, source) }, SqlRequest::LastRowid]
}

/// The log went from `before` to `after` by inserting a record with these
/// fields (SQLite reporting some count of changed rows) and then reading back
/// the rowid `id`.
pub open spec fn inserted(
    before: Seq<SqlCall>,
    after: Seq<SqlCall>,
    content: Seq<char>,
    context: Option<Seq<char>>,
    agent: Option<Seq<char>>,
    source: Option<Seq<char>>,
    id: int,
) -> bool {
    exists|changed: int| after == before + insert_calls(content, context, agent, source, changed, id)
}

fn map_row(row: &Row<'_>, log: &mut SqlLog, Ghost(start): Ghost<Seq<SqlCall>>, Ghost(allowed): Ghost<spec_fn(SqlRequest) -> bool>) -> (r: std::result::Result<EpisodicRow, rusqlite::Error>)
    requires
        admits_rows(allowed),
        only_requests(start, old(log)@, allowed),
    ensures
        only_requests(start, final(log)@, allowed),
        r matches Ok(e) ==> final(log)@ == old(log)@ + row_reads(e),
{
    let id = get_i64(row, log, 0)?;
    let content = get_text(row, log, 1)?;
    let context = get_opt_text(row, log, 2)?;
    let agent = get_opt_text(row, log, 3)?;
    let timestamp = get_text(row, log, 4)?;
    let source = get_opt_text(row, log, 5)?;
    let e = EpisodicRow { id, content, context, agent, timestamp, source };
    assert(log@ =~= old(log)@ + row_reads(e));
    Ok(e)
}

/// Insert an episodic record and return its rowid: the statement
/// [`INSERT_SQL`] with the record's four fields, then the connection's
/// latest rowid. Nothing else is run; when the statement fails, that failed
/// call is all that was run.
pub fn insert(db: &mut Db, rec: &InsertEpisodic<'_>) -> (r: Result<i64>)
    ensures
        fails_only_in_db(r),
        r matches Ok(id) ==> inserted(
            old(db).log@, final(db).log@,
            rec.content@, opt_str_view(rec.context), opt_str_view(rec.agent), opt_str_view(rec.source), id as int),
        r is Err ==> failed_after(old(db).log@, final(db).log@, insert_plan(
            rec.content@, opt_str_view(rec.context), opt_str_view(rec.agent), opt_str_view(rec.source))),
{
    let ghost start = db.log@;
    let args: Vec<Option<&str>> = vec![Some(rec.content), rec.context, rec.agent, rec.source];
    assert(text_args(args@) =~= insert_args(rec.content@, opt_str_view(rec.context), opt_str_view(rec.agent), opt_str_view(rec.source)));
    let n = match execute(&db.conn, &mut db.log, INSERT_SQL, &args) {
        Ok(n) => n,
        Err(e) => {
            proof {
                lemma_added(start, seq![db.log@.last()]);
                assert(db.log@ =~= start + seq![db.log@.last()]);
            }
            return Err(AppError::Database(e));
        },
    };
    let id = last_insert_rowid(&db.conn, &mut db.log);
    assert(db.log@ =~= start + insert_calls(rec.content@, opt_str_view(rec.context), opt_str_view(rec.agent), opt_str_view(rec.source), n as int, id as int));
    Ok(id)
}

/// Read the rows of a started query, at most `limit` of them, in the order
/// the query yields them.
fn collect_rows(rows: &mut rusqlite::Rows<'_>, log: &mut SqlLog, limit: u32, Ghost(start): Ghost<Seq<SqlCall>>, Ghost(allowed): Ghost<spec_fn(SqlRequest) -> bool>) -> (r: Result<Vec<EpisodicRow>>)
    requires
        admits_rows(allowed),
        only_requests(start, old(log)@, allowed),
    ensures
        fails_only_in_db(r),
        only_requests(start, final(log)@, allowed),
        r matches Ok(v) ==> v@.len() <= limit && final(log)@ == old(log)@ + entries_calls(v@, limit as int),
{
    let mut out: Vec<EpisodicRow> = Vec::new();
    let mut done = false;
    while !done && out.len() < limit as usize
        invariant
            admits_rows(allowed),
            only_requests(start, log@, allowed),
            out@.len() <= limit,
            !done ==> log@ == old(log)@ + rows_calls(out@.len(), |i: int| row_reads(out@[i])),
            done ==> out@.len() < limit && log@ == old(log)@ + entries_calls(out@, limit as int),
        decreases limit - out@.len(), if done { 0int } else { 1int },
    {
        let ghost before = log@;
        let step = next_row(rows, log);
        match db_result(step)? {
            None => {
                assert(log@ =~= old(log)@ + entries_calls(out@, limit as int));
                done = true;
            },
            Some(row) => {
                let ghost mid = log@;
                let entry = db_result(map_row(row, log, Ghost(start), Ghost(allowed)))?;
                let ghost old_out = out@;
                out.push(entry);
                proof {
                    lemma_rows_calls_ext(old_out.len(), |i: int| row_reads(old_out[i]), |i: int| row_reads(out@[i]));
                    assert(log@ =~= old(log)@ + rows_calls(out@.len(), |i: int| row_reads(out@[i])));
                }
            },
        }
    }
    proof {
        if !done {
            assert(log@ =~= old(log)@ + entries_calls(out@, limit as int));
        }
    }
    Ok(out)
}

/// The exchanges of a prepared read of the rows `v`, at most `limit` of
/// them: the prepare, the start with `args`, and the rows read.
pub open spec fn query_result_calls(sql: Seq<char>, args: Seq<SqlArg>, v: Seq<EpisodicRow>, limit: int) -> Seq<SqlCall> {
    seq![SqlCall::Prepare { sql }, SqlCall::Query { args }] + entries_calls(v, limit)
}

/// What a read of at most `limit` rows gives: on success, entries `v` with
/// the log grown by exactly their query; on failure, the log grown only by
/// compiling and starting that query, stepping and reading (which is also
/// all that a successful read runs).
pub open spec fn read_result(before: Seq<SqlCall>, after: Seq<SqlCall>, sql: Seq<char>, args: Seq<SqlArg>, r: Result<Vec<EpisodicRow>>, limit: int) -> bool {
    &&& fails_only_in_db(r)
    &&& r matches Ok(v) ==> v@.len() <= limit && after == before + query_result_calls(sql, args, v@, limit)
    &&& only_requests(before, after, reads_only(sql, args))
}

/// Run `sql` (one of this layer's queries), started with the text `text`
/// when given and the integer `limit`, and read at most `limit` rows.
fn read_query(db: &mut Db, sql: &str, text: Option<&str>, limit: u32) -> (r: Result<Vec<EpisodicRow>>)
    ensures
        read_result(old(db).log@, final(db).log@, sql@, match text {
            Some(t) => seq![SqlArg::Text(t@), SqlArg::Int(limit as int)],
            None => seq![SqlArg::Int(limit as int)],
        }, r, limit as int),
{
    let ghost start = db.log@;
    let ghost args = match text {
        Some(t) => seq![SqlArg::Text(t@), SqlArg::Int(limit as int)],
        None => seq![SqlArg::Int(limit as int)],
    };
    let ghost allowed = reads_only(sql@, args);
    let stmt = prepare(&db.conn, &mut db.log, sql);
    let mut stmt = db_result(stmt)?;
    let rows = match text {
        Some(t) => query_rows_text_int(&mut stmt, &mut db.log, t, limit),
        None => query_rows_int(&mut stmt, &mut db.log, limit),
    };
    assert(db.log@.last() == query_call(args, rows is Ok));
    let mut rows = db_result(rows)?;
    let ghost mid = db.log@;
    let v = collect_rows(&mut rows, &mut db.log, limit, Ghost(start), Ghost(allowed))?;
    assert(db.log@ =~= start + query_result_calls(sql@, args, v@, limit as int));
    Ok(v)
}

/// Return the most recent `limit` episodic entries, newest first: the query
/// [`RECENT_SQL`] with `limit`, and one entry per row it returns.
pub fn recent(db: &mut Db, limit: u32) -> (r: Result<Vec<EpisodicRow>>)
    ensures
        read_result(old(db).log@, final(db).log@, RECENT_SQL@, seq![SqlArg::Int(limit as int)], r, limit as int),
{
    read_query(db, RECENT_SQL, None, limit)
}

/// Return episodic entries of `agent`, newest first: the query
/// [`BY_AGENT_SQL`] with `agent` and `limit`, and one entry per row.
pub fn by_agent(db: &mut Db, agent: &str, limit: u32) -> (r: Result<Vec<EpisodicRow>>)
    ensures
        read_result(old(db).log@, final(db).log@, BY_AGENT_SQL@, seq![SqlArg::Text(agent@), SqlArg::Int(limit as int)], r, limit as int),
{
    read_query(db, BY_AGENT_SQL, Some(agent), limit)
}

/// Return episodic entries newer than `cutoff`, newest first: the query
/// [`SINCE_SQL`] with `cutoff` and `limit`, and one entry per row.
pub fn since(db: &mut Db, cutoff: &str, limit: u32) -> (r: Result<Vec<EpisodicRow>>)
    ensures
        read_result(old(db).log@, final(db).log@, SINCE_SQL@, seq![SqlArg::Text(cutoff@), SqlArg::Int(limit as int)], r, limit as int),
{
    read_query(db, SINCE_SQL, Some(cutoff), limit)
}

} // verus!
