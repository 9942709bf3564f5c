//! The SQLite calls that the memory layers make, through `rusqlite`.
//!
//! What a statement does to the database, and what a query returns, depends on
//! the database's contents; nothing here states it. Instead, a [`Db`] keeps,
//! beside its connection, a ghost log of every exchange made on it: each call
//! below appends what it sent (the statement, its parameters) and what came
//! back, or that it failed. Only these calls touch the log, and a log comes
//! only with its connection, so the contracts of the layers above state
//! exactly which statements they run, and that they run no others.
use vstd::prelude::*;

use rusqlite::{Connection, Row, Rows, Statement};

verus! {

#[verifier::external_type_specification]
#[verifier::external_body]
pub struct ExConnection(rusqlite::Connection);

#[verifier::external_type_specification]
#[verifier::external_body]
pub struct ExStatement<'conn>(rusqlite::Statement<'conn>);

#[verifier::external_type_specification]
#[verifier::external_body]
pub struct ExRows<'stmt>(rusqlite::Rows<'stmt>);

#[verifier::external_type_specification]
#[verifier::external_body]
pub struct ExRow<'stmt>(rusqlite::Row<'stmt>);

/// A value bound to, or read from, an SQL statement.
pub enum SqlArg {
    Text(Seq<char>),
    Int(int),
    Null,
}

/// An optional text value as SQLite sees it: text, or NULL.
pub open spec fn opt_arg(o: Option<Seq<char>>) -> SqlArg {
    match o {
        Some(s) => SqlArg::Text(s),
        None => SqlArg::Null,
    }
}

/// The characters an optional string slice holds.
pub open spec fn opt_str_view(o: Option<&str>) -> Option<Seq<char>> {
    match o {
        Some(s) => Some(s@),
        None => None,
    }
}

/// The characters an optional string holds.
pub open spec fn opt_string_seq(o: Option<String>) -> Option<Seq<char>> {
    match o {
        Some(s) => Some(s@),
        None => None,
    }
}

/// The values of a list of optional text parameters.
pub open spec fn text_args(args: Seq<Option<&str>>) -> Seq<SqlArg> {
    args.map_values(|a: Option<&str>| opt_arg(opt_str_view(a)))
}

/// What was asked of SQLite in one call, whatever came back.
pub enum SqlRequest {
    Execute { sql: Seq<char>, args: Seq<SqlArg> },
    Batch { sql: Seq<char> },
    Prepare { sql: Seq<char> },
    Query { args: Seq<SqlArg> },
    Step,
    Read { column: int },
    LastRowid,
}

/// One exchange with SQLite.
pub enum SqlCall {
    /// A statement ran with these parameters and changed `changed` rows.
    Execute { sql: Seq<char>, args: Seq<SqlArg>, changed: int },
    /// A batch of statements ran.
    Batch { sql: Seq<char> },
    /// A statement was compiled.
    Prepare { sql: Seq<char> },
    /// The compiled statement was started with these parameters.
    Query { args: Seq<SqlArg> },
    /// The query was stepped; `found` tells whether a row came back.
    Step { found: bool },
    /// A column of the current row was read and gave `value`.
    Read { column: int, value: SqlArg },
    /// The rowid of the latest insert was asked for and was `id`.
    LastRowid { id: int },
    /// The call asking `request` failed.
    Failed { request: SqlRequest },
}

/// What `c` asked of SQLite.
pub open spec fn request_of(c: SqlCall) -> SqlRequest {
    match c {
        SqlCall::Execute { sql, args, .. } => SqlRequest::Execute { sql, args },
        SqlCall::Batch { sql } => SqlRequest::Batch { sql },
        SqlCall::Prepare { sql } => SqlRequest::Prepare { sql },
        SqlCall::Query { args } => SqlRequest::Query { args },
        SqlCall::Step { .. } => SqlRequest::Step,
        SqlCall::Read { column, .. } => SqlRequest::Read { column },
        SqlCall::LastRowid { .. } => SqlRequest::LastRowid,
        SqlCall::Failed { request } => request,
    }
}

/// The ghost log of the exchanges made on one connection, oldest first.
pub struct SqlLog {
    calls: Ghost<Seq<SqlCall>>,
}

impl View for SqlLog {
    type V = Seq<SqlCall>;

    closed spec fn view(&self) -> Seq<SqlCall> {
        self.calls@
    }
}

/// A database connection with the log of the exchanges made on it.
pub struct Db {
    pub conn: Connection,
    pub log: SqlLog,
}

impl Db {
    /// Wrap an open connection; nothing has been exchanged yet.
    pub fn new(conn: Connection) -> (db: Db)
        ensures
            db.log@ == Seq::<SqlCall>::empty(),
    {
        Db { conn, log: SqlLog { calls: Ghost(Seq::empty()) } }
    }
}

/// The exchanges that took the log from `before` to `after`.
pub open spec fn added(before: Seq<SqlCall>, after: Seq<SqlCall>) -> Seq<SqlCall> {
    after.subrange(before.len() as int, after.len() as int)
}

/// `after` is `before` followed by more exchanges.
pub open spec fn grew(before: Seq<SqlCall>, after: Seq<SqlCall>) -> bool {
    before.len() <= after.len() && after.subrange(0, before.len() as int) == before
}

/// The exchanges `d` ran, without failing, the first requests of `plan`.
pub open spec fn ok_prefix(d: Seq<SqlCall>, plan: Seq<SqlRequest>) -> bool {
    &&& d.len() <= plan.len()
    &&& forall|i: int| 0 <= i < d.len() ==> request_of(#[trigger] d[i]) == plan[i] && !(d[i] is Failed)
}

/// The exchanges `d` ran the first requests of `plan` until one of them
/// failed, and nothing after it.
pub open spec fn failed_at(d: Seq<SqlCall>, plan: Seq<SqlRequest>) -> bool {
    &&& d.len() > 0
    &&& ok_prefix(d.drop_last(), plan)
    &&& d.len() <= plan.len()
    &&& d.last() == (SqlCall::Failed { request: plan[d.len() - 1] })
}

/// The log went from `before` to `after` by running the requests of `plan`
/// in order until one failed.
pub open spec fn failed_after(before: Seq<SqlCall>, after: Seq<SqlCall>, plan: Seq<SqlRequest>) -> bool {
    grew(before, after) && failed_at(added(before, after), plan)
}

/// The log went from `before` to `after` by exchanges that each asked
/// something `allowed`.
pub open spec fn only_requests(before: Seq<SqlCall>, after: Seq<SqlCall>, allowed: spec_fn(SqlRequest) -> bool) -> bool {
    &&& grew(before, after)
    &&& forall|i: int| 0 <= i < added(before, after).len() ==> #[trigger] allowed(request_of(added(before, after)[i]))
}

/// A log is its own start, with nothing allowed run.
pub broadcast proof fn lemma_only_requests_start(log: Seq<SqlCall>, allowed: spec_fn(SqlRequest) -> bool)
    ensures
        #[trigger] only_requests(log, log, allowed),
{
    assert(log.subrange(0, log.len() as int) =~= log);
    assert(added(log, log) =~= Seq::<SqlCall>::empty());
}

/// One more allowed exchange keeps the log within what is allowed.
pub broadcast proof fn lemma_only_requests_push(before: Seq<SqlCall>, after: Seq<SqlCall>, c: SqlCall, allowed: spec_fn(SqlRequest) -> bool)
    requires
        only_requests(before, after, allowed),
        allowed(request_of(c)),
    ensures
        #[trigger] only_requests(before, after.push(c), allowed),
{
    assert(after.push(c).subrange(0, before.len() as int) =~= after.subrange(0, before.len() as int));
    assert(added(before, after.push(c)) =~= added(before, after).push(c));
    assert forall|i: int| 0 <= i < added(before, after.push(c)).len() implies #[trigger] allowed(request_of(added(before, after.push(c))[i])) by {
        if i < added(before, after).len() {
            assert(added(before, after.push(c))[i] == added(before, after)[i]);
        }
    }
}

/// Exchanges within what is allowed, followed by more exchanges within it,
/// stay within it.
pub proof fn lemma_only_requests_trans(a: Seq<SqlCall>, b: Seq<SqlCall>, c: Seq<SqlCall>, allowed: spec_fn(SqlRequest) -> bool)
    requires
        only_requests(a, b, allowed),
        only_requests(b, c, allowed),
    ensures
        only_requests(a, c, allowed),
{
    assert(c.subrange(0, a.len() as int) =~= c.subrange(0, b.len() as int).subrange(0, a.len() as int));
    assert(added(a, c) =~= added(a, b) + added(b, c));
    assert forall|i: int| 0 <= i < added(a, c).len() implies #[trigger] allowed(request_of(added(a, c)[i])) by {
        if i < added(a, b).len() {
            assert(added(a, c)[i] == added(a, b)[i]);
        } else {
            assert(added(a, c)[i] == added(b, c)[i - added(a, b).len()]);
        }
    }
}

pub broadcast group group_sql_log {
    lemma_only_requests_start,
    lemma_only_requests_push,
}

/// What reading the rows of the query `sql` started with `args` asks:
/// compiling it, starting it, stepping, and reading columns.
pub open spec fn reads_only(sql: Seq<char>, args: Seq<SqlArg>) -> spec_fn(SqlRequest) -> bool {
    |q: SqlRequest| q == (SqlRequest::Prepare { sql }) || q == (SqlRequest::Query { args }) || q is Step || q is Read
}

/// `allowed` admits stepping through rows and reading their columns.
pub open spec fn admits_rows(allowed: spec_fn(SqlRequest) -> bool) -> bool {
    forall|q: SqlRequest| (q is Step || q is Read) ==> #[trigger] allowed(q)
}

/// Exchanges within what one predicate allows stay within what a larger one
/// allows.
pub proof fn lemma_only_requests_weaken(before: Seq<SqlCall>, after: Seq<SqlCall>, small: spec_fn(SqlRequest) -> bool, large: spec_fn(SqlRequest) -> bool)
    requires
        only_requests(before, after, small),
        forall|q: SqlRequest| #[trigger] small(q) ==> large(q),
    ensures
        only_requests(before, after, large),
{
    assert forall|i: int| 0 <= i < added(before, after).len() implies #[trigger] large(request_of(added(before, after)[i])) by {
        assert(small(request_of(added(before, after)[i])));
    }
}

/// A log that grew by exactly `d` gave `d` as what was added.
pub proof fn lemma_added(before: Seq<SqlCall>, d: Seq<SqlCall>)
    ensures
        grew(before, before + d),
        added(before, before + d) == d,
{
    assert((before + d).subrange(0, before.len() as int) =~= before);
    assert(added(before, before + d) =~= d);
}

/// Running, without failing, the first requests of a plan and then running
/// the rest of it until one failed runs the plan until that failure.
pub proof fn lemma_failed_after_prefix(before: Seq<SqlCall>, d: Seq<SqlCall>, after: Seq<SqlCall>, plan: Seq<SqlRequest>)
    requires
        ok_prefix(d, plan),
        failed_after(before + d, after, plan.subrange(d.len() as int, plan.len() as int)),
    ensures
        failed_after(before, after, plan),
{
    let mid = before + d;
    let e = added(mid, after);
    assert(after.subrange(0, before.len() as int) =~= after.subrange(0, mid.len() as int).subrange(0, before.len() as int));
    assert(mid.subrange(0, before.len() as int) =~= before);
    let all = added(before, after);
    assert(all =~= d + e) by {
        assert(after.subrange(0, mid.len() as int) == mid);
        assert forall|i: int| 0 <= i < all.len() implies all[i] == (d + e)[i] by {
            if i < d.len() {
                assert(after[before.len() + i] == after.subrange(0, mid.len() as int)[before.len() + i]);
            }
        }
    }
    assert(all.drop_last() =~= d + e.drop_last());
    assert forall|i: int| 0 <= i < all.drop_last().len() implies
        request_of(#[trigger] all.drop_last()[i]) == plan[i] && !(all.drop_last()[i] is Failed) by {
        if i >= d.len() {
            assert(all.drop_last()[i] == e.drop_last()[i - d.len()]);
        }
    }
}

/// Running, without failing, requests of a plan and one more of them keeps
/// the run a prefix of the plan.
pub proof fn lemma_ok_prefix_push(d: Seq<SqlCall>, c: SqlCall, plan: Seq<SqlRequest>)
    requires
        ok_prefix(d, plan),
        d.len() < plan.len(),
        request_of(c) == plan[d.len() as int],
        !(c is Failed),
    ensures
        ok_prefix(d.push(c), plan),
{
    assert forall|i: int| 0 <= i < d.push(c).len() implies request_of(#[trigger] d.push(c)[i]) == plan[i] && !(d.push(c)[i] is Failed) by {
        if i < d.len() {
            assert(d.push(c)[i] == d[i]);
        }
    }
}

/// The log went from `before` to `after` by running, without failing, the
/// first requests of `plan`.
pub open spec fn on_plan(before: Seq<SqlCall>, after: Seq<SqlCall>, plan: Seq<SqlRequest>) -> bool {
    grew(before, after) && ok_prefix(added(before, after), plan)
}

/// Nothing run yet is on any plan.
pub proof fn lemma_on_plan_start(log: Seq<SqlCall>, plan: Seq<SqlRequest>)
    ensures
        on_plan(log, log, plan),
{
    lemma_added(log, Seq::empty());
    assert(log + Seq::<SqlCall>::empty() =~= log);
}

/// Running the next request of the plan keeps the log on it when that call
/// succeeds, and ends the plan in failure when it fails.
pub proof fn lemma_on_plan_step(before: Seq<SqlCall>, after: Seq<SqlCall>, c: SqlCall, plan: Seq<SqlRequest>)
    requires
        on_plan(before, after, plan),
        added(before, after).len() < plan.len(),
        request_of(c) == plan[added(before, after).len() as int],
    ensures
        !(c is Failed) ==> on_plan(before, after.push(c), plan),
        c is Failed ==> failed_after(before, after.push(c), plan),
{
    let d = added(before, after);
    assert(after =~= before + d);
    lemma_added(before, d.push(c));
    assert(before + d.push(c) =~= after.push(c));
    assert(d.push(c).drop_last() =~= d);
    if !(c is Failed) {
        lemma_ok_prefix_push(d, c, plan);
    }
}

/// A plan run to its end, without failing, is the log's growth.
pub proof fn lemma_on_plan_done(before: Seq<SqlCall>, after: Seq<SqlCall>, plan: Seq<SqlRequest>)
    requires
        on_plan(before, after, plan),
    ensures
        after == before + added(before, after),
{
    assert(after =~= before + added(before, after));
}

/// A plan followed, without failing, up to a point, then a part of it that
/// failed, is the plan run until that failure.
pub proof fn lemma_on_plan_then_failed(before: Seq<SqlCall>, mid: Seq<SqlCall>, after: Seq<SqlCall>, plan: Seq<SqlRequest>)
    requires
        on_plan(before, mid, plan),
        failed_after(mid, after, plan.subrange(added(before, mid).len() as int, plan.len() as int)),
    ensures
        failed_after(before, after, plan),
{
    let d = added(before, mid);
    assert(mid =~= before + d);
    lemma_failed_after_prefix(before, d, after, plan);
}

/// A run that failed on one plan failed on any plan that begins with it.
pub proof fn lemma_failed_after_extend(before: Seq<SqlCall>, after: Seq<SqlCall>, p: Seq<SqlRequest>, q: Seq<SqlRequest>)
    requires
        failed_after(before, after, p),
        p.len() <= q.len(),
        forall|i: int| 0 <= i < p.len() ==> #[trigger] p[i] == q[i],
    ensures
        failed_after(before, after, q),
{
    let d = added(before, after);
    assert(p[d.len() - 1] == q[d.len() - 1]);
    assert forall|i: int| 0 <= i < d.drop_last().len() implies
        request_of(#[trigger] d.drop_last()[i]) == q[i] && !(d.drop_last()[i] is Failed) by {
        assert(p[i] == q[i]);
    }
}

/// A plan followed up to a point, then a part of it followed without
/// failing, stays on the plan.
pub proof fn lemma_on_plan_then_ok(before: Seq<SqlCall>, mid: Seq<SqlCall>, after: Seq<SqlCall>, part: Seq<SqlCall>, plan: Seq<SqlRequest>)
    requires
        on_plan(before, mid, plan),
        after == mid + part,
        added(before, mid).len() + part.len() <= plan.len(),
        forall|i: int| 0 <= i < part.len() ==>
            request_of(#[trigger] part[i]) == plan[added(before, mid).len() + i] && !(part[i] is Failed),
    ensures
        on_plan(before, after, plan),
{
    let d = added(before, mid);
    assert(mid =~= before + d);
    assert(after =~= before + (d + part));
    lemma_added(before, d + part);
    assert forall|i: int| 0 <= i < (d + part).len() implies
        request_of(#[trigger] (d + part)[i]) == plan[i] && !((d + part)[i] is Failed) by {
        if i >= d.len() {
            assert((d + part)[i] == part[i - d.len()]);
        }
    }
}

/// Calls `rusqlite::Connection::execute` with `sql` and the parameters `args`
/// (each bound as text, or NULL for `None`). On success it reports how many
/// rows changed. The log gains the statement, its parameters and that count,
/// or that the call failed.
#[verifier::external_body]
pub(crate) fn execute(conn: &Connection, log: &mut SqlLog, sql: &str, args: &Vec<Option<&str>>) -> (r: std::result::Result<usize, rusqlite::Error>)
    ensures
        final(log)@ == old(log)@.push(match r {
            Ok(n) => SqlCall::Execute { sql: sql@, args: text_args(args@), changed: n as int },
            Err(_) => SqlCall::Failed { request: SqlRequest::Execute { sql: sql@, args: text_args(args@) } },
        }),
{
    conn.execute(sql, rusqlite::params_from_iter(args.iter()))
}

/// Calls `rusqlite::Connection::execute_batch` with `sql`.
#[verifier::external_body]
pub(crate) fn execute_batch(conn: &Connection, log: &mut SqlLog, sql: &str) -> (r: std::result::Result<(), rusqlite::Error>)
    ensures
        final(log)@ == old(log)@.push(if r is Ok {
            SqlCall::Batch { sql: sql@ }
        } else {
            SqlCall::Failed { request: SqlRequest::Batch { sql: sql@ } }
        }),
{
    conn.execute_batch(sql)
}

/// Calls `rusqlite::Connection::last_insert_rowid`.
#[verifier::external_body]
pub(crate) fn last_insert_rowid(conn: &Connection, log: &mut SqlLog) -> (r: i64)
    ensures
        final(log)@ == old(log)@.push(SqlCall::LastRowid { id: r as int }),
{
    conn.last_insert_rowid()
}

/// Calls `rusqlite::Connection::prepare` with `sql`.
#[verifier::external_body]
pub(crate) fn prepare<'conn>(conn: &'conn Connection, log: &mut SqlLog, sql: &str) -> (r: std::result::Result<Statement<'conn>, rusqlite::Error>)
    ensures
        final(log)@ == old(log)@.push(if r is Ok {
            SqlCall::Prepare { sql: sql@ }
        } else {
            SqlCall::Failed { request: SqlRequest::Prepare { sql: sql@ } }
        }),
{
    conn.prepare(sql)
}

/// The exchange of starting a query with `args`, which succeeded when `ok`.
pub open spec fn query_call(args: Seq<SqlArg>, ok: bool) -> SqlCall {
    if ok {
        SqlCall::Query { args }
    } else {
        SqlCall::Failed { request: SqlRequest::Query { args } }
    }
}

/// Calls `rusqlite::Statement::query` with no parameters.
#[verifier::external_body]
pub(crate) fn query_rows<'a, 'conn>(stmt: &'a mut Statement<'conn>, log: &mut SqlLog) -> (r: std::result::Result<Rows<'a>, rusqlite::Error>)
    ensures
        final(log)@ == old(log)@.push(query_call(seq![], r is Ok)),
{
    stmt.query(())
}

/// Calls `rusqlite::Statement::query` with one text parameter.
#[verifier::external_body]
pub(crate) fn query_rows_text<'a, 'conn>(stmt: &'a mut Statement<'conn>, log: &mut SqlLog, t: &str) -> (r: std::result::Result<Rows<'a>, rusqlite::Error>)
    ensures
        final(log)@ == old(log)@.push(query_call(seq![SqlArg::Text(t@)], r is Ok)),
{
    stmt.query((t,))
}

/// Calls `rusqlite::Statement::query` with one integer parameter.
#[verifier::external_body]
pub(crate) fn query_rows_int<'a, 'conn>(stmt: &'a mut Statement<'conn>, log: &mut SqlLog, n: u32) -> (r: std::result::Result<Rows<'a>, rusqlite::Error>)
    ensures
        final(log)@ == old(log)@.push(query_call(seq![SqlArg::Int(n as int)], r is Ok)),
{
    stmt.query((n,))
}

/// Calls `rusqlite::Statement::query` with a text and an integer parameter.
#[verifier::external_body]
pub(crate) fn query_rows_text_int<'a, 'conn>(stmt: &'a mut Statement<'conn>, log: &mut SqlLog, t: &str, n: u32) -> (r: std::result::Result<Rows<'a>, rusqlite::Error>)
    ensures
        final(log)@ == old(log)@.push(query_call(seq![SqlArg::Text(t@), SqlArg::Int(n as int)], r is Ok)),
{
    stmt.query((t, n))
}

/// Calls `rusqlite::Rows::next`: steps to the next result row, if any.
#[verifier::external_body]
pub(crate) fn next_row<'a, 'stmt>(rows: &'a mut Rows<'stmt>, log: &mut SqlLog) -> (r: std::result::Result<Option<&'a Row<'stmt>>, rusqlite::Error>)
    ensures
        final(log)@ == old(log)@.push(match r {
            Ok(o) => SqlCall::Step { found: o is Some },
            Err(_) => SqlCall::Failed { request: SqlRequest::Step },
        }),
{
    rows.next()
}

/// The exchange of reading column `column`, which gave `value` when it
/// succeeded.
pub open spec fn read_call(column: int, value: Option<SqlArg>) -> SqlCall {
    match value {
        Some(v) => SqlCall::Read { column, value: v },
        None => SqlCall::Failed { request: SqlRequest::Read { column } },
    }
}

/// Calls `rusqlite::Row::get` for column `idx` as an `i64`.
#[verifier::external_body]
pub(crate) fn get_i64(row: &Row<'_>, log: &mut SqlLog, idx: usize) -> (r: std::result::Result<i64, rusqlite::Error>)
    ensures
        final(log)@ == old(log)@.push(read_call(idx as int, match r { Ok(v) => Some(SqlArg::Int(v as int)), Err(_) => None })),
{
    row.get(idx)
}

/// Calls `rusqlite::Row::get` for column `idx` as a `u32`.
#[verifier::external_body]
pub(crate) fn get_u32(row: &Row<'_>, log: &mut SqlLog, idx: usize) -> (r: std::result::Result<u32, rusqlite::Error>)
    ensures
        final(log)@ == old(log)@.push(read_call(idx as int, match r { Ok(v) => Some(SqlArg::Int(v as int)), Err(_) => None })),
{
    row.get(idx)
}

/// Calls `rusqlite::Row::get` for column `idx` as a `String`.
#[verifier::external_body]
pub(crate) fn get_text(row: &Row<'_>, log: &mut SqlLog, idx: usize) -> (r: std::result::Result<String, rusqlite::Error>)
    ensures
        final(log)@ == old(log)@.push(read_call(idx as int, match r { Ok(v) => Some(SqlArg::Text(v@)), Err(_) => None })),
{
    row.get(idx)
}

/// Calls `rusqlite::Row::get` for column `idx` as an `Option<String>`.
#[verifier::external_body]
pub(crate) fn get_opt_text(row: &Row<'_>, log: &mut SqlLog, idx: usize) -> (r: std::result::Result<Option<String>, rusqlite::Error>)
    ensures
        final(log)@ == old(log)@.push(read_call(idx as int, match r { Ok(v) => Some(opt_arg(opt_string_seq(v))), Err(_) => None })),
{
    row.get(idx)
}

/// The exchanges of stepping through `n` rows, each followed by the reads
/// `reads(i)` of row `i`.
pub open spec fn rows_calls(n: nat, reads: spec_fn(int) -> Seq<SqlCall>) -> Seq<SqlCall>
    decreases n,
{
    if n == 0 {
        Seq::empty()
    } else {
        rows_calls((n - 1) as nat, reads) + seq![SqlCall::Step { found: true }] + reads(n - 1)
    }
}

/// Reading the rows of a query, at most `limit` of them: `n` rows with their
/// reads, then, when fewer than `limit` were read, the step that found no more.
pub open spec fn read_calls(n: nat, reads: spec_fn(int) -> Seq<SqlCall>, limit: int) -> Seq<SqlCall> {
    rows_calls(n, reads) + if n < limit { seq![SqlCall::Step { found: false }] } else { Seq::empty() }
}

/// Stepping through rows gives the same exchanges when the reads of each row
/// agree.
pub proof fn lemma_rows_calls_ext(n: nat, f: spec_fn(int) -> Seq<SqlCall>, g: spec_fn(int) -> Seq<SqlCall>)
    requires
        forall|i: int| #![trigger f(i)] 0 <= i < n ==> f(i) == g(i),
    ensures
        rows_calls(n, f) == rows_calls(n, g),
    decreases n,
{
    if n > 0 {
        lemma_rows_calls_ext((n - 1) as nat, f, g);
        assert(f(n - 1) == g(n - 1));
    }
}

/// The exchanges of statements that each ran `sql` with one text parameter,
/// the `i`th with `ids[i]`, and changed `changes[i]` rows.
pub open spec fn updates_calls(sql: Seq<char>, ids: Seq<Seq<char>>, changes: Seq<int>) -> Seq<SqlCall> {
    Seq::new(ids.len(), |i: int| SqlCall::Execute { sql, args: seq![SqlArg::Text(ids[i])], changed: changes[i] })
}

/// Report a failed SQLite call as the library's database error.
pub fn db_result<T>(r: std::result::Result<T, rusqlite::Error>) -> (out: crate::error::Result<T>)
    ensures
        r is Ok ==> out == std::result::Result::<T, crate::error::AppError>::Ok(r->Ok_0),
        r is Err ==> out == std::result::Result::<T, crate::error::AppError>::Err(crate::error::AppError::Database(r->Err_0)),
{
    match r {
        Ok(v) => Ok(v),
        Err(e) => Err(crate::error::AppError::Database(e)),
    }
}

} // verus!
