//! The `ingest` command: record what happened and reinforce or penalise the
//! rules it names.
use vstd::prelude::*;

use crate::cli::IngestArgs;
use crate::db::episodic::{self, fails_only_in_db, InsertEpisodic};
use crate::db::sql::{
    added, failed_after, lemma_added, lemma_failed_after_extend, lemma_on_plan_start,
    lemma_on_plan_step, lemma_on_plan_then_failed, lemma_on_plan_then_ok, on_plan, request_of,
    updates_calls, Db, SqlArg, SqlCall, SqlRequest,
};
use crate::db::{procedural, working};
use crate::error::Result;
use crate::output::IngestOutput;
use crate::text::{push_signed_decimal, signed_decimal, views};

verus! {

/// The ids whose flag is set, in the order they are given.
pub open spec fn spec_select(ids: Seq<Seq<char>>, hits: Seq<bool>) -> Seq<Seq<char>>
    decreases ids.len(),
{
    if ids.len() == 0 {
        Seq::empty()
    } else {
        let rest = spec_select(ids.drop_last(), hits.drop_last());
        if hits.last() {
            rest.push(ids.last())
        } else {
            rest
        }
    }
}

/// The validated rules are drawn from the given ids: never more of them than
/// were given, and each one of them.
pub proof fn lemma_select_within(ids: Seq<Seq<char>>, hits: Seq<bool>)
    requires
        ids.len() == hits.len(),
    ensures
        spec_select(ids, hits).len() <= ids.len(),
        forall|k: int| 0 <= k < spec_select(ids, hits).len() ==> ids.contains(#[trigger] spec_select(ids, hits)[k]),
    decreases ids.len(),
{
    if ids.len() > 0 {
        let rest_ids = ids.drop_last();
        lemma_select_within(rest_ids, hits.drop_last());
        let sel = spec_select(ids, hits);
        assert forall|k: int| 0 <= k < sel.len() implies ids.contains(#[trigger] sel[k]) by {
            if k < spec_select(rest_ids, hits.drop_last()).len() {
                let x = spec_select(rest_ids, hits.drop_last())[k];
                assert(rest_ids.contains(x));
                let j = choose|j: int| 0 <= j < rest_ids.len() && rest_ids[j] == x;
                assert(ids[j] == x);
            } else {
                assert(sel[k] == ids.last());
                assert(ids[ids.len() - 1] == ids.last());
            }
        }
    }
}

/// With every rule found, all given ids are validated, in order; with none
/// found, none are.
pub proof fn lemma_select_all_or_none(ids: Seq<Seq<char>>, hits: Seq<bool>)
    requires
        ids.len() == hits.len(),
    ensures
        (forall|i: int| 0 <= i < hits.len() ==> #[trigger] hits[i]) ==> spec_select(ids, hits) == ids,
        (forall|i: int| 0 <= i < hits.len() ==> !#[trigger] hits[i]) ==> spec_select(ids, hits).len() == 0,
    decreases ids.len(),
{
    if ids.len() > 0 {
        lemma_select_all_or_none(ids.drop_last(), hits.drop_last());
        if forall|i: int| 0 <= i < hits.len() ==> #[trigger] hits[i] {
            assert(hits[hits.len() - 1]);
            assert forall|i: int| 0 <= i < hits.drop_last().len() implies #[trigger] hits.drop_last()[i] by {
                assert(hits[i]);
            }
            assert(ids.drop_last().push(ids.last()) =~= ids);
        }
        if forall|i: int| 0 <= i < hits.len() ==> !#[trigger] hits[i] {
            assert(!hits[hits.len() - 1]);
            assert forall|i: int| 0 <= i < hits.drop_last().len() implies !#[trigger] hits.drop_last()[i] by {
                assert(!hits[i]);
            }
        }
    }
}

/// Each selected id is a given id whose flag is set, and each given id whose
/// flag is set is selected.
pub proof fn lemma_select_members(ids: Seq<Seq<char>>, hits: Seq<bool>)
    requires
        ids.len() == hits.len(),
    ensures
        forall|k: int| 0 <= k < spec_select(ids, hits).len() ==> picked(ids, hits, #[trigger] spec_select(ids, hits)[k]),
        forall|i: int| 0 <= i < ids.len() && hits[i] ==> spec_select(ids, hits).contains(#[trigger] ids[i]),
    decreases ids.len(),
{
    if ids.len() > 0 {
        let ri = ids.drop_last();
        let rh = hits.drop_last();
        lemma_select_members(ri, rh);
        let rest = spec_select(ri, rh);
        let sel = spec_select(ids, hits);
        assert(sel == if hits.last() { rest.push(ids.last()) } else { rest });
        assert forall|k: int| 0 <= k < sel.len() implies picked(ids, hits, #[trigger] sel[k]) by {
            if k < rest.len() {
                assert(sel[k] == rest[k]);
                assert(picked(ri, rh, rest[k]));
                let i = choose|i: int| 0 <= i < ri.len() && rh[i] && ri[i] == rest[k];
                assert(ids[i] == ri[i] && hits[i] == rh[i]);
            } else {
                assert(hits.last());
                assert(sel[k] == ids.last());
                assert(ids[ids.len() - 1] == ids.last());
                assert(hits[ids.len() - 1]);
            }
        }
        assert forall|i: int| 0 <= i < ids.len() && hits[i] implies sel.contains(#[trigger] ids[i]) by {
            if i < ids.len() - 1 {
                assert(ri[i] == ids[i] && rh[i] == hits[i]);
                assert(rest.contains(ri[i]));
                let k = choose|k: int| 0 <= k < rest.len() && rest[k] == ri[i];
                if hits.last() {
                    assert(sel[k] == rest[k]);
                } else {
                    assert(sel == rest);
                }
            } else {
                assert(hits.last());
                assert(sel[sel.len() - 1] == ids[i]);
            }
        }
    } else {
        assert(spec_select(ids, hits).len() == 0);
    }
}

/// `x` is one of `ids` whose flag is set.
pub open spec fn picked(ids: Seq<Seq<char>>, hits: Seq<bool>, x: Seq<char>) -> bool {
    exists|i: int| 0 <= i < ids.len() && hits[i] && ids[i] == x
}

/// The rule ids that were validated: those of `ids` whose update found the
/// rule (`hits[i]`), in the order they were given.
pub fn select_validated(ids: &Vec<String>, hits: &Vec<bool>) -> (out: Vec<String>)
    requires
        ids@.len() == hits@.len(),
    ensures
        views(out@) == spec_select(views(ids@), hits@),
{
    let mut out: Vec<String> = Vec::new();
    let mut i: usize = 0;
    while i < ids.len()
        invariant
            0 <= i <= ids@.len(),
            ids@.len() == hits@.len(),
            views(out@) == spec_select(views(ids@.subrange(0, i as int)), hits@.subrange(0, i as int)),
        decreases ids@.len() - i,
    {
        proof {
            assert(views(ids@.subrange(0, i + 1)).drop_last() =~= views(ids@.subrange(0, i as int)));
            assert(hits@.subrange(0, i + 1).drop_last() =~= hits@.subrange(0, i as int));
        }
        if hits[i] {
            out.push(ids[i].clone());
            assert(views(out@) =~= spec_select(views(ids@.subrange(0, i as int)), hits@.subrange(0, i as int)).push(ids@[i as int]@));
        }
        i = i + 1;
    }
    assert(ids@.subrange(0, ids@.len() as int) =~= ids@);
    assert(hits@.subrange(0, hits@.len() as int) =~= hits@);
    out
}

/// The statement that records one outcome: a success when `success` is set,
/// a failure otherwise.
pub open spec fn outcome_sql(success: bool) -> Seq<char> {
    if success {
        procedural::RECORD_SUCCESS_SQL@
    } else {
        procedural::RECORD_FAILURE_SQL@
    }
}

/// The statement that recorded one outcome for the rule `id`, which changed
/// `changed` rows.
pub open spec fn outcome_call(success: bool, id: Seq<char>, changed: int) -> SqlCall {
    SqlCall::Execute { sql: outcome_sql(success), args: seq![SqlArg::Text(id)], changed }
}

/// Whether each statement found its rule, given the rows each one changed.
pub open spec fn hits_of(changes: Seq<int>) -> Seq<bool> {
    changes.map_values(|c: int| c > 0)
}

/// What recording one outcome for each of `ids` asks of SQLite, in order.
pub open spec fn outcome_plan(success: bool, ids: Seq<Seq<char>>) -> Seq<SqlRequest> {
    Seq::new(ids.len(), |i: int| SqlRequest::Execute { sql: outcome_sql(success), args: seq![SqlArg::Text(ids[i])] })
}

/// Record one outcome (a success when `success` is set, a failure otherwise)
/// for each id in order, and append to `hits`, per id, whether the rule
/// existed. The ghost result gives the rows each statement changed. The
/// statements are the next ones of `plan`, which the log follows from
/// `start`.
fn record_all(
    db: &mut Db,
    ids: &Vec<String>,
    success: bool,
    hits: &mut Vec<bool>,
    Ghost(start): Ghost<Seq<SqlCall>>,
    Ghost(plan): Ghost<Seq<SqlRequest>>,
) -> (r: Result<Ghost<Seq<int>>>)
    requires
        on_plan(start, old(db).log@, plan),
        added(start, old(db).log@).len() + ids@.len() <= plan.len(),
        forall|i: int| 0 <= i < ids@.len() ==>
            plan[added(start, old(db).log@).len() + i] == #[trigger] outcome_plan(success, views(ids@))[i],
    ensures
        fails_only_in_db(r),
        r matches Ok(changes) ==> {
            &&& changes@.len() == ids@.len()
            &&& final(db).log@ == old(db).log@ + updates_calls(outcome_sql(success), views(ids@), changes@)
            &&& on_plan(start, final(db).log@, plan)
            &&& final(hits)@ == old(hits)@ + hits_of(changes@)
        },
        r is Err ==> failed_after(start, final(db).log@, plan),
{
    let ghost sql = outcome_sql(success);
    let ghost k = added(start, db.log@).len();
    let ghost begin = db.log@;
    let ghost mut changes: Seq<int> = Seq::empty();
    assert(updates_calls(sql, views(ids@).take(0), changes) =~= Seq::<SqlCall>::empty());
    assert(begin + Seq::<SqlCall>::empty() =~= begin);
    assert(old(hits)@ + hits_of(changes) =~= old(hits)@);
    let mut i: usize = 0;
    while i < ids.len()
        invariant
            0 <= i <= ids@.len(),
            sql == outcome_sql(success),
            begin == old(db).log@,
            k == added(start, begin).len(),
            k + ids@.len() <= plan.len(),
            forall|j: int| 0 <= j < ids@.len() ==> plan[k + j] == #[trigger] outcome_plan(success, views(ids@))[j],
            on_plan(start, db.log@, plan),
            added(start, db.log@).len() == k + i,
            changes.len() == i,
            db.log@ == begin + updates_calls(sql, views(ids@).take(i as int), changes),
            hits@ == old(hits)@ + hits_of(changes),
        decreases ids@.len() - i,
    {
        let ghost before = db.log@;
        let ghost args = seq![SqlArg::Text(ids@[i as int]@)];
        assert(plan[k + i] == outcome_plan(success, views(ids@))[i as int]);
        assert(plan[k + i] == (SqlRequest::Execute { sql, args }));
        let step = if success {
            procedural::record_success(db, ids[i].as_str())
        } else {
            procedural::record_failure(db, ids[i].as_str())
        };
        let found = match step {
            Ok(found) => found,
            Err(e) => {
                proof {
                    let rest = plan.subrange(k + i, plan.len() as int);
                    lemma_failed_after_extend(before, db.log@, procedural::one_statement(sql, args), rest);
                    lemma_on_plan_then_failed(start, before, db.log@, plan);
                }
                return Err(e);
            },
        };
        proof {
            let c = choose|c: int| db.log@ == before.push(SqlCall::Execute { sql, args, changed: c }) && found == (c > 0);
            lemma_on_plan_step(start, before, SqlCall::Execute { sql, args, changed: c }, plan);
            assert(added(start, db.log@) =~= added(start, before).push(SqlCall::Execute { sql, args, changed: c }));
            let old_changes = changes;
            changes = changes.push(c);
            assert(views(ids@).take(i + 1) =~= views(ids@).take(i as int).push(ids@[i as int]@));
            assert(db.log@ =~= begin + updates_calls(sql, views(ids@).take(i + 1), changes));
            assert(hits_of(changes) =~= hits_of(old_changes).push(found));
        }
        hits.push(found);
        proof {
            assert(hits@ =~= old(hits)@ + hits_of(changes));
        }
        i = i + 1;
    }
    assert(views(ids@).take(ids@.len() as int) =~= views(ids@));
    Ok(Ghost(changes))
}

/// The source recorded on episodic records made by `ingest`.
pub const INGEST_SOURCE: &'static str = "ingest";

/// The exchanges of an ingest: the episodic record of the body (with the
/// task as context, the agent, and the source [`INGEST_SOURCE`]) and its
/// rowid `ep`, the working entry (the body as summary, no body text, the task
/// and the agent) and its rowid `w`, then one success statement per
/// `success` id and one failure statement per `harm` id, in order. The `c`
/// values are the rows each statement changed.
pub open spec fn ingest_calls(
    args: IngestArgs,
    c_ep: int,
    ep: int,
    c_w: int,
    w: int,
    c_success: Seq<int>,
    c_harm: Seq<int>,
) -> Seq<SqlCall> {
    episodic::insert_calls(args.body@, Some(args.task@), Some(args.agent@), Some(INGEST_SOURCE@), c_ep, ep)
        + working::insert_calls(args.body@, None, Some(args.task@), Some(args.agent@), c_w, w)
        + updates_calls(procedural::RECORD_SUCCESS_SQL@, views(args.success@), c_success)
        + updates_calls(procedural::RECORD_FAILURE_SQL@, views(args.harm@), c_harm)
}

/// What an ingest of `args` asks of SQLite, in order: the two inserts, then
/// the success statements, then the failure statements.
pub open spec fn ingest_plan(args: IngestArgs) -> Seq<SqlRequest> {
    episodic::insert_plan(args.body@, Some(args.task@), Some(args.agent@), Some(INGEST_SOURCE@))
        + working::insert_plan(args.body@, None, Some(args.task@), Some(args.agent@))
        + outcome_plan(true, views(args.success@))
        + outcome_plan(false, views(args.harm@))
}

/// `out` is what an ingest of `args` gives, the log going from `before` to
/// `after` by exactly its exchanges, when SQLite reports the episodic rowid
/// `ep` and the changed-row counts given: the output names the record `ep`,
/// proposes nothing, and validates, in the order given (successes first),
/// each rule whose statement changed a row.
pub open spec fn ingest_result(
    args: IngestArgs,
    out: IngestOutput,
    before: Seq<SqlCall>,
    after: Seq<SqlCall>,
    c_ep: int,
    ep: i64,
    c_w: int,
    w: int,
    c_success: Seq<int>,
    c_harm: Seq<int>,
) -> bool {
    &&& c_success.len() == args.success@.len()
    &&& c_harm.len() == args.harm@.len()
    &&& after == before + ingest_calls(args, c_ep, ep as int, c_w, w, c_success, c_harm)
    &&& out.episodic_id matches Some(id) && id@ == signed_decimal(ep as int)
    &&& out.proposed_rules@.len() == 0
    &&& views(out.validated_rules@) == spec_select(
        views(args.success@) + views(args.harm@),
        hits_of(c_success) + hits_of(c_harm),
    )
}

/// An ingest reinforces every rule named by `--success` once and penalises
/// every rule named by `--harm` once: after the two inserts, the `i`th
/// statement is the success update [`procedural::RECORD_SUCCESS_SQL`] of the
/// `i`th success id, the harm ids follow, each with the failure update
/// [`procedural::RECORD_FAILURE_SQL`], and nothing else is run.
pub proof fn lemma_ingest_reinforces_and_penalises(
    args: IngestArgs,
    out: IngestOutput,
    before: Seq<SqlCall>,
    after: Seq<SqlCall>,
    c_ep: int,
    ep: i64,
    c_w: int,
    w: int,
    c_success: Seq<int>,
    c_harm: Seq<int>,
)
    requires
        ingest_result(args, out, before, after, c_ep, ep, c_w, w, c_success, c_harm),
    ensures
        added(before, after).len() == 4 + args.success@.len() + args.harm@.len(),
        forall|i: int| 0 <= i < args.success@.len() ==>
            added(before, after)[4 + i] == outcome_call(true, #[trigger] args.success@[i]@, c_success[i]),
        forall|j: int| 0 <= j < args.harm@.len() ==>
            added(before, after)[4 + args.success@.len() + j] == outcome_call(false, #[trigger] args.harm@[j]@, c_harm[j]),
{
    let calls = ingest_calls(args, c_ep, ep as int, c_w, w, c_success, c_harm);
    lemma_added(before, calls);
    let n = args.success@.len() as int;
    assert forall|i: int| 0 <= i < n implies calls[4 + i] == outcome_call(true, #[trigger] args.success@[i]@, c_success[i]) by {
        assert(calls[4 + i] == updates_calls(procedural::RECORD_SUCCESS_SQL@, views(args.success@), c_success)[i]);
    }
    assert forall|j: int| 0 <= j < args.harm@.len() implies calls[4 + n + j] == outcome_call(false, #[trigger] args.harm@[j]@, c_harm[j]) by {
        assert(calls[4 + n + j] == updates_calls(procedural::RECORD_FAILURE_SQL@, views(args.harm@), c_harm)[j]);
    }
}

/// Insert the body into the episodic and working layers, then record a
/// success for each `--success` rule and a failure for each `--harm` rule,
/// and nothing else; when a statement fails, nothing after it.
///
/// The output names the new episodic record and lists, in the order given
/// (successes first), the rules that existed and were updated.
pub fn run_ingest(db: &mut Db, args: &IngestArgs) -> (r: Result<IngestOutput>)
    ensures
        fails_only_in_db(r),
        r matches Ok(out) ==> exists|c_ep: int, ep: i64, c_w: int, w: int, c_success: Seq<int>, c_harm: Seq<int>|
            #[trigger] ingest_result(*args, out, old(db).log@, final(db).log@, c_ep, ep, c_w, w, c_success, c_harm),
        r is Err ==> failed_after(old(db).log@, final(db).log@, ingest_plan(*args)),
{
    let ghost start = db.log@;
    let ghost plan = ingest_plan(*args);
    let ghost ep_plan = episodic::insert_plan(args.body@, Some(args.task@), Some(args.agent@), Some(INGEST_SOURCE@));
    let ghost w_plan = working::insert_plan(args.body@, None, Some(args.task@), Some(args.agent@));
    let ghost s_plan = outcome_plan(true, views(args.success@));
    let ghost h_plan = outcome_plan(false, views(args.harm@));
    assert(plan =~= ep_plan + w_plan + s_plan + h_plan);
    proof { lemma_on_plan_start(start, plan); }

    let inserted = episodic::insert(
        db,
        &InsertEpisodic {
            content: args.body.as_str(),
            context: Some(args.task.as_str()),
            agent: Some(args.agent.as_str()),
            source: Some(INGEST_SOURCE),
        },
    );
    let ep_id = match inserted {
        Ok(id) => id,
        Err(e) => {
            proof {
                assert(added(start, start).len() == 0) by { lemma_added(start, Seq::empty()); assert(start + Seq::<SqlCall>::empty() =~= start); }
                lemma_failed_after_extend(start, db.log@, ep_plan, plan.subrange(0, plan.len() as int));
                lemma_on_plan_then_failed(start, start, db.log@, plan);
            }
            return Err(e);
        },
    };
    let ghost after_ep = db.log@;
    let ghost c_ep = choose|c: int| after_ep == start + episodic::insert_calls(
        args.body@, Some(args.task@), Some(args.agent@), Some(INGEST_SOURCE@), c, ep_id as int);
    let ghost ep_calls = episodic::insert_calls(args.body@, Some(args.task@), Some(args.agent@), Some(INGEST_SOURCE@), c_ep, ep_id as int);
    proof {
        assert(added(start, start).len() == 0) by { lemma_added(start, Seq::empty()); assert(start + Seq::<SqlCall>::empty() =~= start); }
        assert(request_of(ep_calls[0]) == plan[0]);
        assert(request_of(ep_calls[1]) == plan[1]);
        lemma_on_plan_then_ok(start, start, after_ep, ep_calls, plan);
        lemma_added(start, ep_calls);
    }

    let w_inserted = working::insert(db, args.body.as_str(), None, Some(args.task.as_str()), Some(args.agent.as_str()));
    let w_id = match w_inserted {
        Ok(id) => id,
        Err(e) => {
            proof {
                lemma_failed_after_extend(after_ep, db.log@, w_plan, plan.subrange(2, plan.len() as int));
                lemma_on_plan_then_failed(start, after_ep, db.log@, plan);
            }
            return Err(e);
        },
    };
    let ghost after_w = db.log@;
    let ghost c_w = choose|c: int| after_w == after_ep + working::insert_calls(
        args.body@, None, Some(args.task@), Some(args.agent@), c, w_id as int);
    let ghost w_calls = working::insert_calls(args.body@, None, Some(args.task@), Some(args.agent@), c_w, w_id as int);
    proof {
        assert(request_of(w_calls[0]) == plan[2]);
        assert(request_of(w_calls[1]) == plan[3]);
        lemma_on_plan_then_ok(start, after_ep, after_w, w_calls, plan);
        lemma_added(start, ep_calls + w_calls);
        assert(after_w =~= start + (ep_calls + w_calls));
    }

    let mut hits: Vec<bool> = Vec::new();
    assert forall|i: int| 0 <= i < args.success@.len() implies
        plan[added(start, after_w).len() + i] == #[trigger] outcome_plan(true, views(args.success@))[i] by {
        assert(plan[4 + i] == s_plan[i]);
    }
    let Ghost(c_success) = record_all(db, &args.success, true, &mut hits, Ghost(start), Ghost(plan))?;
    let ghost after_s = db.log@;
    proof {
        let s_calls = updates_calls(procedural::RECORD_SUCCESS_SQL@, views(args.success@), c_success);
        lemma_added(start, ep_calls + w_calls + s_calls);
        assert(after_s =~= start + (ep_calls + w_calls + s_calls));
    }
    assert forall|j: int| 0 <= j < args.harm@.len() implies
        plan[added(start, after_s).len() + j] == #[trigger] outcome_plan(false, views(args.harm@))[j] by {
        assert(plan[4 + args.success@.len() + j] == h_plan[j]);
    }
    let Ghost(c_harm) = record_all(db, &args.harm, false, &mut hits, Ghost(start), Ghost(plan))?;

    let mut ids: Vec<String> = args.success.clone();
    let mut harm_ids: Vec<String> = args.harm.clone();
    ids.append(&mut harm_ids);
    assert(views(ids@) =~= views(args.success@) + views(args.harm@));
    assert(hits@ =~= hits_of(c_success) + hits_of(c_harm));
    let validated_rules = select_validated(&ids, &hits);

    let mut id_text = String::new();
    push_signed_decimal(&mut id_text, ep_id);
    let out = IngestOutput { episodic_id: Some(id_text), proposed_rules: Vec::new(), validated_rules };
    assert(db.log@ =~= start + ingest_calls(*args, c_ep, ep_id as int, c_w, w_id as int, c_success, c_harm));
    assert(ingest_result(*args, out, start, db.log@, c_ep, ep_id, c_w, w_id as int, c_success, c_harm));
    Ok(out)
}

} // verus!
