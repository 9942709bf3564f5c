//! The procedural layer: learned rules whose success and failure counts feed
//! the confidence model.
//!
//! Reading whole rules (their stored confidence is floating point) and writing
//! recalculated confidence happen outside this library; the inputs to that
//! recalculation are read and computed here.
use vstd::prelude::*;

use rusqlite::Row;

use crate::confidence::{
    confidence_base, elapsed_seconds, is_anti_pattern, last_validated_instant, spec_base,
    spec_elapsed, spec_is_anti_pattern, spec_last_validated,
};
use crate::db::episodic::fails_only_in_db;
use crate::db::sql::{
    admits_rows, db_result, execute, failed_after, get_i64, get_opt_text, get_text, get_u32,
    lemma_added, lemma_rows_calls_ext, next_row, only_requests, opt_arg, opt_str_view,
    opt_string_seq, prepare, query_call, query_rows, query_rows_text, read_calls, reads_only,
    rows_calls, text_args, Db, SqlArg, SqlCall, SqlLog, SqlRequest,
};
use crate::error::{AppError, Result};

verus! {

broadcast use crate::db::sql::group_sql_log;

/// Statement that inserts a rule.
pub const INSERT_SQL: &'static str = "INSERT INTO procedural (id, rule, source) VALUES (?1, ?2, ?3)";

/// Statement that replaces a rule's text.
pub const UPDATE_RULE_SQL: &'static str = "UPDATE procedural SET rule = ?2 WHERE id = ?1";

/// Statement that records a success: one more success, validated now.
pub const RECORD_SUCCESS_SQL: &'static str = "UPDATE procedural SET success_count = success_count + 1, \
         last_validated = datetime('now') WHERE id = ?1";

/// Statement that records a failure: one more failure, validated now.
pub const RECORD_FAILURE_SQL: &'static str = "UPDATE procedural SET failure_count = failure_count + 1, \
         last_validated = datetime('now') WHERE id = ?1";

/// Statement that deletes a rule.
pub const DELETE_SQL: &'static str = "DELETE FROM procedural WHERE id = ?1";

/// Query for every rule's counts and last validation.
pub const DECAY_SQL: &'static str = "SELECT id, success_count, failure_count, last_validated FROM procedural";

/// Running `sql` with `args` alone, as a plan.
pub open spec fn one_statement(sql: Seq<char>, args: Seq<SqlArg>) -> Seq<SqlRequest> {
    seq![SqlRequest::Execute { sql, args }]
}

/// The log went from `before` to `after` by running `sql` with `args` once,
/// which changed some rows, and nothing else; `found` tells whether it
/// changed any.
pub open spec fn ran_once(before: Seq<SqlCall>, after: Seq<SqlCall>, sql: Seq<char>, args: Seq<SqlArg>, found: bool) -> bool {
    exists|changed: int| after == before.push(SqlCall::Execute { sql, args, changed }) && found == (changed > 0)
}

/// The parameters of the insert statement.
pub open spec fn insert_args(id: Seq<char>, rule: Seq<char>, source: Option<Seq<char>>) -> Seq<SqlArg> {
    seq![SqlArg::Text(id), SqlArg::Text(rule), opt_arg(source)]
}

/// Report whether a statement changed any row, given the number of rows it
/// changed, or pass its error on.
pub fn changed_any(changed: Result<usize>) -> (r: Result<bool>)
    ensures
        changed is Ok ==> r == Result::<bool>::Ok(changed->Ok_0 > 0),
        changed is Err ==> r is Err && r->Err_0 == changed->Err_0,
{
    match changed {
        Ok(n) => Ok(n > 0),
        Err(e) => Err(e),
    }
}

/// Run `sql` with `args` once and report whether it changed any row.
fn run_statement(db: &mut Db, sql: &str, args: &Vec<Option<&str>>) -> (r: Result<bool>)
    ensures
        fails_only_in_db(r),
        r matches Ok(found) ==> ran_once(old(db).log@, final(db).log@, sql@, text_args(args@), found),
        r is Err ==> failed_after(old(db).log@, final(db).log@, one_statement(sql@, text_args(args@))),
{
    let ghost start = db.log@;
    match execute(&db.conn, &mut db.log, sql, args) {
        Ok(n) => {
            let found = changed_any(Ok(n))?;
            assert(db.log@ == start.push(SqlCall::Execute { sql: sql@, args: text_args(args@), changed: n as int }));
            Ok(found)
        },
        Err(e) => {
            proof {
                lemma_added(start, seq![db.log@.last()]);
                assert(db.log@ =~= start + seq![db.log@.last()]);
            }
            Err(AppError::Database(e))
        },
    }
}

/// Insert a new procedural rule: the statement [`INSERT_SQL`] with the id,
/// the text and the source, and nothing else. Returns the id.
pub fn insert(db: &mut Db, id: &str, rule: &str, source: Option<&str>) -> (r: Result<String>)
    ensures
        fails_only_in_db(r),
        r matches Ok(s) ==> s@ == id@ && exists|found: bool|
            ran_once(old(db).log@, final(db).log@, INSERT_SQL@, insert_args(id@, rule@, opt_str_view(source)), found),
        r is Err ==> failed_after(old(db).log@, final(db).log@, one_statement(INSERT_SQL@, insert_args(id@, rule@, opt_str_view(source)))),
{
    let args: Vec<Option<&str>> = vec![Some(id), Some(rule), source];
    assert(text_args(args@) =~= insert_args(id@, rule@, opt_str_view(source)));
    let found = run_statement(db, INSERT_SQL, &args)?;
    Ok(String::from_str(id))
}

/// Update the rule text for an existing procedural entry: the statement
/// [`UPDATE_RULE_SQL`] with the id and the text, and nothing else. Returns
/// whether a rule with that id existed (whether the statement changed a row).
pub fn update_rule(db: &mut Db, id: &str, rule: &str) -> (r: Result<bool>)
    ensures
        fails_only_in_db(r),
        r matches Ok(found) ==> ran_once(old(db).log@, final(db).log@, UPDATE_RULE_SQL@, seq![SqlArg::Text(id@), SqlArg::Text(rule@)], found),
        r is Err ==> failed_after(old(db).log@, final(db).log@, one_statement(UPDATE_RULE_SQL@, seq![SqlArg::Text(id@), SqlArg::Text(rule@)])),
{
    let args: Vec<Option<&str>> = vec![Some(id), Some(rule)];
    assert(text_args(args@) =~= seq![SqlArg::Text(id@), SqlArg::Text(rule@)]);
    run_statement(db, UPDATE_RULE_SQL, &args)
}

/// Increment the success count for a rule and stamp its validation time:
/// the statement [`RECORD_SUCCESS_SQL`] with the id, and nothing else.
/// Returns whether a rule with that id existed.
pub fn record_success(db: &mut Db, id: &str) -> (r: Result<bool>)
    ensures
        fails_only_in_db(r),
        r matches Ok(found) ==> ran_once(old(db).log@, final(db).log@, RECORD_SUCCESS_SQL@, seq![SqlArg::Text(id@)], found),
        r is Err ==> failed_after(old(db).log@, final(db).log@, one_statement(RECORD_SUCCESS_SQL@, seq![SqlArg::Text(id@)])),
{
    let args: Vec<Option<&str>> = vec![Some(id)];
    assert(text_args(args@) =~= seq![SqlArg::Text(id@)]);
    run_statement(db, RECORD_SUCCESS_SQL, &args)
}

/// Increment the failure count for a rule and stamp its validation time:
/// the statement [`RECORD_FAILURE_SQL`] with the id, and nothing else.
/// Returns whether a rule with that id existed.
pub fn record_failure(db: &mut Db, id: &str) -> (r: Result<bool>)
    ensures
        fails_only_in_db(r),
        r matches Ok(found) ==> ran_once(old(db).log@, final(db).log@, RECORD_FAILURE_SQL@, seq![SqlArg::Text(id@)], found),
        r is Err ==> failed_after(old(db).log@, final(db).log@, one_statement(RECORD_FAILURE_SQL@, seq![SqlArg::Text(id@)])),
{
    let args: Vec<Option<&str>> = vec![Some(id)];
    assert(text_args(args@) =~= seq![SqlArg::Text(id@)]);
    run_statement(db, RECORD_FAILURE_SQL, &args)
}

/// Delete a single rule by id: the statement [`DELETE_SQL`] with the id, and
/// nothing else. Returns true if a row was deleted.
pub fn delete(db: &mut Db, id: &str) -> (r: Result<bool>)
    ensures
        fails_only_in_db(r),
        r matches Ok(found) ==> ran_once(old(db).log@, final(db).log@, DELETE_SQL@, seq![SqlArg::Text(id@)], found),
        r is Err ==> failed_after(old(db).log@, final(db).log@, one_statement(DELETE_SQL@, seq![SqlArg::Text(id@)])),
{
    let args: Vec<Option<&str>> = vec![Some(id)];
    assert(text_args(args@) =~= seq![SqlArg::Text(id@)]);
    run_statement(db, DELETE_SQL, &args)
}

/// What the confidence recalculation of one rule starts from.
#[derive(Debug, Clone, PartialEq)]
pub struct DecayInput {
    pub id: String,
    pub success_count: u32,
    pub failure_count: u32,
    /// The undecayed score `S - 4H`.
    pub base: i64,
    /// Seconds since the last validation, never negative.
    pub elapsed_secs: u64,
    /// Whether the rule is an anti-pattern.
    pub is_anti_pattern: bool,
}

/// The decay input of a rule with the given stored counts and last
/// validation, at `now` (a UNIX timestamp in seconds and nanoseconds).
pub open spec fn spec_decay_input(
    id: Seq<char>,
    success_count: u32,
    failure_count: u32,
    last_validated: Option<Seq<char>>,
    now: (i64, u32),
    d: DecayInput,
) -> bool {
    &&& d.id@ == id
    &&& d.success_count == success_count
    &&& d.failure_count == failure_count
    &&& d.base == spec_base(success_count as int, failure_count as int)
    &&& d.elapsed_secs == spec_elapsed(
        spec_last_validated(last_validated, now).0 as int,
        spec_last_validated(last_validated, now).1 as int,
        now.0 as int,
        now.1 as int,
    )
    &&& d.is_anti_pattern == spec_is_anti_pattern(failure_count as int)
}

/// Compute the decay input of one rule.
pub fn decay_input(
    id: String,
    success_count: u32,
    failure_count: u32,
    last_validated: Option<String>,
    now_secs: i64,
    now_nanos: u32,
) -> (d: DecayInput)
    ensures
        spec_decay_input(
            id@,
            success_count,
            failure_count,
            match last_validated { Some(t) => Some(t@), None => None },
            (now_secs, now_nanos),
            d,
        ),
{
    let last = match &last_validated {
        Some(t) => last_validated_instant(Some(t.as_str()), now_secs, now_nanos),
        None => last_validated_instant(None, now_secs, now_nanos),
    };
    DecayInput {
        id,
        success_count,
        failure_count,
        base: confidence_base(success_count, failure_count),
        elapsed_secs: elapsed_seconds(last.0, last.1, now_secs, now_nanos),
        is_anti_pattern: is_anti_pattern(failure_count),
    }
}

/// A decay input whose score and anti-pattern flag agree with its counts.
pub open spec fn decay_input_consistent(d: DecayInput) -> bool {
    &&& d.base == spec_base(d.success_count as int, d.failure_count as int)
    &&& d.is_anti_pattern == spec_is_anti_pattern(d.failure_count as int)
}

/// The reads that give one rule's counts and last validation: its id,
/// success count, failure count and stored last validation `last`, columns 0
/// to 3 in order.
pub open spec fn decay_reads(d: DecayInput, last: Option<Seq<char>>) -> Seq<SqlCall> {
    seq![
        SqlCall::Read { column: 0, value: SqlArg::Text(d.id@) },
        SqlCall::Read { column: 1, value: SqlArg::Int(d.success_count as int) },
        SqlCall::Read { column: 2, value: SqlArg::Int(d.failure_count as int) },
        SqlCall::Read { column: 3, value: opt_arg(last) },
    ]
}

/// `v` holds one decay input at `now` per row read, in order: each computed
/// from that row's columns (the `i`th row's stored last validation being
/// `lasts[i]`), and the log went from `before` to `after` by exactly the
/// query [`DECAY_SQL`] that read them.
pub open spec fn decay_result(v: Seq<DecayInput>, lasts: Seq<Option<Seq<char>>>, now: (i64, u32), before: Seq<SqlCall>, after: Seq<SqlCall>) -> bool {
    &&& lasts.len() == v.len()
    &&& after == before + seq![SqlCall::Prepare { sql: DECAY_SQL@ }, SqlCall::Query { args: seq![] }]
        + read_calls(v.len(), |i: int| decay_reads(v[i], lasts[i]), usize::MAX as int)
    &&& forall|i: int| 0 <= i < v.len() ==>
        spec_decay_input(v[i].id@, v[i].success_count, v[i].failure_count, lasts[i], now, #[trigger] v[i])
}

/// `v` is what reading the decay inputs at `now` gives, for some stored last
/// validations, one per row, with the log going from `before` to `after`.
pub open spec fn decay_read(v: Seq<DecayInput>, now: (i64, u32), before: Seq<SqlCall>, after: Seq<SqlCall>) -> bool {
    exists|lasts: Seq<Option<Seq<char>>>| decay_result(v, lasts, now, before, after)
}

fn read_decay_row(row: &Row<'_>, log: &mut SqlLog, now_secs: i64, now_nanos: u32, Ghost(start): Ghost<Seq<SqlCall>>, Ghost(allowed): Ghost<spec_fn(SqlRequest) -> bool>) -> (r: std::result::Result<(DecayInput, Ghost<Option<Seq<char>>>), rusqlite::Error>)
    requires
        admits_rows(allowed),
        only_requests(start, old(log)@, allowed),
    ensures
        only_requests(start, final(log)@, allowed),
        r matches Ok((d, last)) ==> decay_input_consistent(d)
            && final(log)@ == old(log)@ + decay_reads(d, last@)
            && spec_decay_input(d.id@, d.success_count, d.failure_count, last@, (now_secs, now_nanos), d),
{
    let id = get_text(row, log, 0)?;
    let success_count = get_u32(row, log, 1)?;
    let failure_count = get_u32(row, log, 2)?;
    let last_validated = get_opt_text(row, log, 3)?;
    let ghost last = opt_string_seq(last_validated);
    let d = decay_input(id, success_count, failure_count, last_validated, now_secs, now_nanos);
    assert(log@ =~= old(log)@ + decay_reads(d, last));
    Ok((d, Ghost(last)))
}

/// Read every rule's counts and last validation with the query
/// [`DECAY_SQL`] and compute, per row, its decay input at `now` (a UNIX
/// timestamp in seconds and nanoseconds). Nothing else is run.
pub fn decay_inputs(db: &mut Db, now_secs: i64, now_nanos: u32) -> (r: Result<Vec<DecayInput>>)
    ensures
        fails_only_in_db(r),
        r matches Ok(v) ==> decay_read(v@, (now_secs, now_nanos), old(db).log@, final(db).log@),
        r matches Ok(v) ==> forall|i: int| 0 <= i < v@.len() ==> decay_input_consistent(#[trigger] v@[i]),
        only_requests(old(db).log@, final(db).log@, reads_only(DECAY_SQL@, seq![])),
{
    let ghost start = db.log@;
    let ghost allowed = reads_only(DECAY_SQL@, seq![]);
    let stmt = prepare(&db.conn, &mut db.log, DECAY_SQL);
    let mut stmt = db_result(stmt)?;
    let rows = query_rows(&mut stmt, &mut db.log);
    assert(db.log@.last() == query_call(seq![], rows is Ok));
    let mut rows = db_result(rows)?;
    let ghost begin = db.log@;
    let mut out: Vec<DecayInput> = Vec::new();
    let ghost mut lasts: Seq<Option<Seq<char>>> = Seq::empty();
    let mut done = false;
    // No result holds usize::MAX rows; the bound gives the loop a measure.
    while !done && out.len() < usize::MAX
        invariant
            allowed == reads_only(DECAY_SQL@, seq![]),
            admits_rows(allowed),
            start == old(db).log@,
            only_requests(start, db.log@, allowed),
            begin == start + seq![SqlCall::Prepare { sql: DECAY_SQL@ }, SqlCall::Query { args: seq![] }],
            lasts.len() == out@.len(),
            forall|i: int| 0 <= i < out@.len() ==> decay_input_consistent(#[trigger] out@[i]),
            forall|i: int| 0 <= i < out@.len() ==>
                spec_decay_input(out@[i].id@, out@[i].success_count, out@[i].failure_count, lasts[i], (now_secs, now_nanos), #[trigger] out@[i]),
            !done ==> db.log@ == begin + rows_calls(out@.len(), |i: int| decay_reads(out@[i], lasts[i])),
            done ==> out@.len() < usize::MAX && db.log@ == begin + read_calls(out@.len(), |i: int| decay_reads(out@[i], lasts[i]), usize::MAX as int),
        decreases usize::MAX - out@.len(), if done { 0int } else { 1int },
    {
        let step = next_row(&mut rows, &mut db.log);
        match db_result(step)? {
            None => {
                assert(db.log@ =~= begin + read_calls(out@.len(), |i: int| decay_reads(out@[i], lasts[i]), usize::MAX as int));
                done = true;
            },
            Some(row) => {
                let (d, Ghost(last)) = db_result(read_decay_row(row, &mut db.log, now_secs, now_nanos, Ghost(start), Ghost(allowed)))?;
                let ghost old_out = out@;
                let ghost old_lasts = lasts;
                out.push(d);
                proof {
                    lasts = lasts.push(last);
                    lemma_rows_calls_ext(
                        old_out.len(),
                        |i: int| decay_reads(old_out[i], old_lasts[i]),
                        |i: int| decay_reads(out@[i], lasts[i]),
                    );
                    assert(db.log@ =~= begin + rows_calls(out@.len(), |i: int| decay_reads(out@[i], lasts[i])));
                }
            },
        }
    }
    proof {
        if !done {
            assert(db.log@ =~= begin + read_calls(out@.len(), |i: int| decay_reads(out@[i], lasts[i]), usize::MAX as int));
        }
    }
    assert(db.log@ =~= start + seq![SqlCall::Prepare { sql: DECAY_SQL@ }, SqlCall::Query { args: seq![] }]
        + read_calls(out@.len(), |i: int| decay_reads(out@[i], lasts[i]), usize::MAX as int));
    assert(decay_result(out@, lasts, (now_secs, now_nanos), start, db.log@));
    Ok(out)
}

/// Full-text query for the rules whose text matches, best match first, with
/// their proven and anti-pattern flags.
pub const MATCHING_SQL: &'static str = "SELECT p.rule, p.is_proven, p.is_anti_pattern \
         FROM procedural_fts f JOIN procedural p ON p.rowid = f.rowid \
         WHERE procedural_fts MATCH ?1 ORDER BY rank";

/// A rule that matched a full-text query, with its stored flags.
#[derive(Debug, Clone, PartialEq)]
pub struct RuleMatch {
    pub rule: String,
    pub is_proven: bool,
    pub is_anti_pattern: bool,
}

/// The reads that give `m` from one result row: the text (column 0), then the
/// stored flags `proven` and `anti` (columns 1 and 2), each set when nonzero.
pub open spec fn match_reads(m: RuleMatch, proven: int, anti: int) -> Seq<SqlCall> {
    seq![
        SqlCall::Read { column: 0, value: SqlArg::Text(m.rule@) },
        SqlCall::Read { column: 1, value: SqlArg::Int(proven) },
        SqlCall::Read { column: 2, value: SqlArg::Int(anti) },
    ]
}

/// `m` is what a row with the stored flags `proven` and `anti` gives.
pub open spec fn match_flags(m: RuleMatch, proven: int, anti: int) -> bool {
    m.is_proven == (proven != 0) && m.is_anti_pattern == (anti != 0)
}

/// The exchanges of the query [`MATCHING_SQL`] with `query` that read the
/// matches `v`, the `i`th from a row whose stored flags were `flags[i]`.
pub open spec fn matching_calls(v: Seq<RuleMatch>, flags: Seq<(int, int)>, query: Seq<char>) -> Seq<SqlCall> {
    seq![
        SqlCall::Prepare { sql: MATCHING_SQL@ },
        SqlCall::Query { args: seq![SqlArg::Text(query)] },
    ] + read_calls(v.len(), |i: int| match_reads(v[i], flags[i].0, flags[i].1), usize::MAX as int)
}

/// `v` holds one match per row read, in order, the `i`th from a row whose
/// stored flags were `flags[i]`.
pub open spec fn matches_result(v: Seq<RuleMatch>, flags: Seq<(int, int)>) -> bool {
    &&& flags.len() == v.len()
    &&& forall|i: int| 0 <= i < v.len() ==> match_flags(#[trigger] v[i], flags[i].0, flags[i].1)
}

/// `v` is what reading the rules that match `query` gives, with the log
/// going from `before` to `after` by exactly that query.
pub open spec fn matches_read(v: Seq<RuleMatch>, query: Seq<char>, before: Seq<SqlCall>, after: Seq<SqlCall>) -> bool {
    exists|flags: Seq<(int, int)>| matches_result(v, flags) && after == before + matching_calls(v, flags, query)
}

fn read_match_row(row: &Row<'_>, log: &mut SqlLog, Ghost(start): Ghost<Seq<SqlCall>>, Ghost(allowed): Ghost<spec_fn(SqlRequest) -> bool>) -> (r: std::result::Result<(RuleMatch, Ghost<(int, int)>), rusqlite::Error>)
    requires
        admits_rows(allowed),
        only_requests(start, old(log)@, allowed),
    ensures
        only_requests(start, final(log)@, allowed),
        r matches Ok((m, flags)) ==> final(log)@ == old(log)@ + match_reads(m, flags@.0, flags@.1) && match_flags(m, flags@.0, flags@.1),
{
    let rule = get_text(row, log, 0)?;
    let proven = get_i64(row, log, 1)?;
    let anti = get_i64(row, log, 2)?;
    let m = RuleMatch { rule, is_proven: proven != 0, is_anti_pattern: anti != 0 };
    assert(log@ =~= old(log)@ + match_reads(m, proven as int, anti as int));
    Ok((m, Ghost((proven as int, anti as int))))
}

/// The rules whose text matches the full-text `query`, best match first:
/// the query [`MATCHING_SQL`] with `query`, and one match per row it
/// returns. Nothing else is run.
pub fn matching_rules(db: &mut Db, query: &str) -> (r: Result<Vec<RuleMatch>>)
    ensures
        fails_only_in_db(r),
        r matches Ok(v) ==> matches_read(v@, query@, old(db).log@, final(db).log@),
        only_requests(old(db).log@, final(db).log@, reads_only(MATCHING_SQL@, seq![SqlArg::Text(query@)])),
{
    let ghost start = db.log@;
    let ghost allowed = reads_only(MATCHING_SQL@, seq![SqlArg::Text(query@)]);
    let stmt = prepare(&db.conn, &mut db.log, MATCHING_SQL);
    let mut stmt = db_result(stmt)?;
    let rows = query_rows_text(&mut stmt, &mut db.log, query);
    assert(db.log@.last() == query_call(seq![SqlArg::Text(query@)], rows is Ok));
    let mut rows = db_result(rows)?;
    let ghost begin = db.log@;
    let mut out: Vec<RuleMatch> = Vec::new();
    let ghost mut flags: Seq<(int, int)> = Seq::empty();
    let mut done = false;
    // No result holds usize::MAX rows; the bound gives the loop a measure.
    while !done && out.len() < usize::MAX
        invariant
            allowed == reads_only(MATCHING_SQL@, seq![SqlArg::Text(query@)]),
            admits_rows(allowed),
            start == old(db).log@,
            only_requests(start, db.log@, allowed),
            begin == start + seq![SqlCall::Prepare { sql: MATCHING_SQL@ }, SqlCall::Query { args: seq![SqlArg::Text(query@)] }],
            flags.len() == out@.len(),
            forall|i: int| 0 <= i < out@.len() ==> match_flags(#[trigger] out@[i], flags[i].0, flags[i].1),
            !done ==> db.log@ == begin + rows_calls(out@.len(), |i: int| match_reads(out@[i], flags[i].0, flags[i].1)),
            done ==> out@.len() < usize::MAX && db.log@ == begin + read_calls(out@.len(), |i: int| match_reads(out@[i], flags[i].0, flags[i].1), usize::MAX as int),
        decreases usize::MAX - out@.len(), if done { 0int } else { 1int },
    {
        let step = next_row(&mut rows, &mut db.log);
        match db_result(step)? {
            None => {
                assert(db.log@ =~= begin + read_calls(out@.len(), |i: int| match_reads(out@[i], flags[i].0, flags[i].1), usize::MAX as int));
                done = true;
            },
            Some(row) => {
                let (m, Ghost(f)) = db_result(read_match_row(row, &mut db.log, Ghost(start), Ghost(allowed)))?;
                let ghost old_out = out@;
                let ghost old_flags = flags;
                out.push(m);
                proof {
                    flags = flags.push(f);
                    lemma_rows_calls_ext(
                        old_out.len(),
                        |i: int| match_reads(old_out[i], old_flags[i].0, old_flags[i].1),
                        |i: int| match_reads(out@[i], flags[i].0, flags[i].1),
                    );
                    assert(db.log@ =~= begin + rows_calls(out@.len(), |i: int| match_reads(out@[i], flags[i].0, flags[i].1)));
                }
            },
        }
    }
    proof {
        if !done {
            assert(db.log@ =~= begin + read_calls(out@.len(), |i: int| match_reads(out@[i], flags[i].0, flags[i].1), usize::MAX as int));
        }
    }
    assert(db.log@ =~= start + matching_calls(out@, flags, query@));
    assert(matches_result(out@, flags));
    Ok(out)
}

} // verus!
