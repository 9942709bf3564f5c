//! The `context` command: the proven rules, the anti-patterns and the recent
//! working-memory entries that match a task description.
use vstd::prelude::*;

use crate::db::episodic::fails_only_in_db;
use crate::db::procedural::{self, RuleMatch};
use crate::db::sql::{
    lemma_only_requests_trans, lemma_only_requests_weaken, only_requests, reads_only, Db, SqlArg,
    SqlCall, SqlRequest,
};
use crate::db::working::{self, WorkingEntry};
use crate::error::Result;
use crate::ingest::{lemma_select_members, picked, select_validated, spec_select};
use crate::output::ContextOutput;
use crate::text::views;

verus! {

broadcast use crate::db::sql::group_sql_log;

/// How many working-memory entries are returned.
pub const HISTORY_LIMIT: u32 = 10;

/// The texts of the matched rules, in order.
pub open spec fn rule_texts(ms: Seq<RuleMatch>) -> Seq<Seq<char>> {
    ms.map_values(|m: RuleMatch| m.rule@)
}

/// Which matched rules are proven.
pub open spec fn proven_flags(ms: Seq<RuleMatch>) -> Seq<bool> {
    ms.map_values(|m: RuleMatch| m.is_proven)
}

/// Which matched rules are anti-patterns.
pub open spec fn anti_flags(ms: Seq<RuleMatch>) -> Seq<bool> {
    ms.map_values(|m: RuleMatch| m.is_anti_pattern)
}

/// The summaries of working-memory entries, in order.
pub open spec fn summaries(es: Seq<WorkingEntry>) -> Seq<Seq<char>> {
    es.map_values(|e: WorkingEntry| e.summary@)
}

/// `out` reports the matched rules `ms` and the entries `es`: the texts of the
/// proven rules, then of the anti-patterns, each in match order, and the
/// entries' summaries in order.
pub open spec fn spec_context_output(ms: Seq<RuleMatch>, es: Seq<WorkingEntry>, out: ContextOutput) -> bool {
    &&& views(out.relevant_rules@) == spec_select(rule_texts(ms), proven_flags(ms))
    &&& views(out.anti_patterns@) == spec_select(rule_texts(ms), anti_flags(ms))
    &&& views(out.history_snippets@) == summaries(es)
}

/// `x` is the text of one of the matched rules `ms` that is proven.
pub open spec fn proven_text(ms: Seq<RuleMatch>, x: Seq<char>) -> bool {
    exists|i: int| 0 <= i < ms.len() && ms[i].is_proven && ms[i].rule@ == x
}

/// `x` is the text of one of the matched rules `ms` that is an anti-pattern.
pub open spec fn anti_text(ms: Seq<RuleMatch>, x: Seq<char>) -> bool {
    exists|i: int| 0 <= i < ms.len() && ms[i].is_anti_pattern && ms[i].rule@ == x
}

/// The context report holds, as history snippets, the summary of every
/// working entry read, in the order read; as relevant rules, exactly the
/// texts of the matched rules that are proven; and as anti-patterns, exactly
/// the texts of the matched rules that are anti-patterns.
pub proof fn lemma_context_report(ms: Seq<RuleMatch>, es: Seq<WorkingEntry>, out: ContextOutput)
    requires
        spec_context_output(ms, es, out),
    ensures
        out.history_snippets@.len() == es.len(),
        forall|i: int| 0 <= i < es.len() ==> #[trigger] out.history_snippets@[i]@ == es[i].summary@,
        forall|k: int| #![trigger out.relevant_rules@[k]] 0 <= k < out.relevant_rules@.len() ==> proven_text(ms, out.relevant_rules@[k]@),
        forall|i: int| 0 <= i < ms.len() && #[trigger] ms[i].is_proven ==>
            exists|k: int| 0 <= k < out.relevant_rules@.len() && out.relevant_rules@[k]@ == ms[i].rule@,
        forall|k: int| #![trigger out.anti_patterns@[k]] 0 <= k < out.anti_patterns@.len() ==> anti_text(ms, out.anti_patterns@[k]@),
        forall|i: int| 0 <= i < ms.len() && #[trigger] ms[i].is_anti_pattern ==>
            exists|k: int| 0 <= k < out.anti_patterns@.len() && out.anti_patterns@[k]@ == ms[i].rule@,
{
    assert(views(out.history_snippets@).len() == out.history_snippets@.len());
    assert(summaries(es).len() == es.len());
    assert forall|i: int| 0 <= i < es.len() implies #[trigger] out.history_snippets@[i]@ == es[i].summary@ by {
        assert(views(out.history_snippets@)[i] == summaries(es)[i]);
        assert(views(out.history_snippets@)[i] == out.history_snippets@[i]@);
    }
    lemma_select_members(rule_texts(ms), proven_flags(ms));
    lemma_select_members(rule_texts(ms), anti_flags(ms));
    let rel = views(out.relevant_rules@);
    let anti = views(out.anti_patterns@);
    assert(rel.len() == out.relevant_rules@.len());
    assert(anti.len() == out.anti_patterns@.len());
    assert(rule_texts(ms).len() == ms.len());
    assert forall|k: int| #![trigger out.relevant_rules@[k]] 0 <= k < out.relevant_rules@.len() implies proven_text(ms, out.relevant_rules@[k]@) by {
        assert(rel[k] == out.relevant_rules@[k]@);
        assert(picked(rule_texts(ms), proven_flags(ms), rel[k]));
        let i = choose|i: int| 0 <= i < rule_texts(ms).len() && proven_flags(ms)[i] && rule_texts(ms)[i] == rel[k];
        assert(rule_texts(ms)[i] == ms[i].rule@);
        assert(proven_flags(ms)[i] == ms[i].is_proven);
    }
    assert forall|i: int| 0 <= i < ms.len() && #[trigger] ms[i].is_proven implies
        exists|k: int| 0 <= k < out.relevant_rules@.len() && out.relevant_rules@[k]@ == ms[i].rule@ by {
        assert(proven_flags(ms)[i] && rule_texts(ms)[i] == ms[i].rule@);
        assert(rel.contains(rule_texts(ms)[i]));
        let k = choose|k: int| 0 <= k < rel.len() && rel[k] == rule_texts(ms)[i];
        assert(rel[k] == out.relevant_rules@[k]@);
    }
    assert forall|k: int| #![trigger out.anti_patterns@[k]] 0 <= k < out.anti_patterns@.len() implies anti_text(ms, out.anti_patterns@[k]@) by {
        assert(anti[k] == out.anti_patterns@[k]@);
        assert(picked(rule_texts(ms), anti_flags(ms), anti[k]));
        let i = choose|i: int| 0 <= i < rule_texts(ms).len() && anti_flags(ms)[i] && rule_texts(ms)[i] == anti[k];
        assert(rule_texts(ms)[i] == ms[i].rule@);
        assert(anti_flags(ms)[i] == ms[i].is_anti_pattern);
    }
    assert forall|i: int| 0 <= i < ms.len() && #[trigger] ms[i].is_anti_pattern implies
        exists|k: int| 0 <= k < out.anti_patterns@.len() && out.anti_patterns@[k]@ == ms[i].rule@ by {
        assert(anti_flags(ms)[i] && rule_texts(ms)[i] == ms[i].rule@);
        assert(anti.contains(rule_texts(ms)[i]));
        let k = choose|k: int| 0 <= k < anti.len() && anti[k] == rule_texts(ms)[i];
        assert(anti[k] == out.anti_patterns@[k]@);
    }
}

/// The report for no matched rules has no relevant rules and no
/// anti-patterns; one more matched rule adds its text at the end of the
/// relevant rules exactly when it is proven, and at the end of the
/// anti-patterns exactly when it is an anti-pattern, leaving the rest as it
/// was.
pub proof fn lemma_context_rules_in_order(
    ms: Seq<RuleMatch>,
    m: RuleMatch,
    es: Seq<WorkingEntry>,
    out: ContextOutput,
    out2: ContextOutput,
)
    requires
        spec_context_output(ms, es, out),
        spec_context_output(ms.push(m), es, out2),
    ensures
        ms.len() == 0 ==> out.relevant_rules@.len() == 0 && out.anti_patterns@.len() == 0,
        views(out2.relevant_rules@) == views(out.relevant_rules@) + if m.is_proven { seq![m.rule@] } else { Seq::empty() },
        views(out2.anti_patterns@) == views(out.anti_patterns@) + if m.is_anti_pattern { seq![m.rule@] } else { Seq::empty() },
{
    let ms2 = ms.push(m);
    assert(rule_texts(ms2).drop_last() =~= rule_texts(ms));
    assert(proven_flags(ms2).drop_last() =~= proven_flags(ms));
    assert(anti_flags(ms2).drop_last() =~= anti_flags(ms));
    assert(rule_texts(ms2).last() == m.rule@);
    assert(proven_flags(ms2).last() == m.is_proven);
    assert(anti_flags(ms2).last() == m.is_anti_pattern);
    if ms.len() == 0 {
        assert(views(out.relevant_rules@).len() == 0);
        assert(views(out.anti_patterns@).len() == 0);
    }
    if m.is_proven {
        assert(views(out.relevant_rules@) + seq![m.rule@] =~= views(out.relevant_rules@).push(m.rule@));
    } else {
        assert(views(out.relevant_rules@) + Seq::<Seq<char>>::empty() =~= views(out.relevant_rules@));
    }
    if m.is_anti_pattern {
        assert(views(out.anti_patterns@) + seq![m.rule@] =~= views(out.anti_patterns@).push(m.rule@));
    } else {
        assert(views(out.anti_patterns@) + Seq::<Seq<char>>::empty() =~= views(out.anti_patterns@));
    }
}

/// Build the context report from the matched rules and entries.
pub fn context_output(matches: &Vec<RuleMatch>, history: &Vec<WorkingEntry>) -> (out: ContextOutput)
    ensures
        spec_context_output(matches@, history@, out),
{
    let mut texts: Vec<String> = Vec::new();
    let mut proven: Vec<bool> = Vec::new();
    let mut anti: Vec<bool> = Vec::new();
    let mut i: usize = 0;
    while i < matches.len()
        invariant
            0 <= i <= matches@.len(),
            texts@.len() == i && proven@.len() == i && anti@.len() == i,
            views(texts@) == rule_texts(matches@.take(i as int)),
            proven@ == proven_flags(matches@.take(i as int)),
            anti@ == anti_flags(matches@.take(i as int)),
        decreases matches@.len() - i,
    {
        let m = &matches[i];
        let text = m.rule.clone();
        assert(text@ == matches@[i as int].rule@);
        let ghost old_texts = texts@;
        texts.push(text);
        assert(views(texts@) =~= views(old_texts).push(matches@[i as int].rule@));
        proven.push(m.is_proven);
        anti.push(m.is_anti_pattern);
        assert(matches@.take(i + 1) =~= matches@.take(i as int).push(matches@[i as int]));
        assert(rule_texts(matches@.take(i + 1)) =~= rule_texts(matches@.take(i as int)).push(matches@[i as int].rule@));
        assert(views(texts@) =~= rule_texts(matches@.take(i + 1)));
        assert(proven@ =~= proven_flags(matches@.take(i + 1)));
        assert(anti@ =~= anti_flags(matches@.take(i + 1)));
        i = i + 1;
    }
    assert(matches@.take(matches@.len() as int) =~= matches@);
    let relevant_rules = select_validated(&texts, &proven);
    let anti_patterns = select_validated(&texts, &anti);

    let mut history_snippets: Vec<String> = Vec::new();
    let mut j: usize = 0;
    while j < history.len()
        invariant
            0 <= j <= history@.len(),
            views(history_snippets@) == summaries(history@.take(j as int)),
        decreases history@.len() - j,
    {
        let summary = history[j].summary.clone();
        assert(summary@ == history@[j as int].summary@);
        let ghost old_snippets = history_snippets@;
        history_snippets.push(summary);
        assert(views(history_snippets@) =~= views(old_snippets).push(history@[j as int].summary@));
        assert(history@.take(j + 1) =~= history@.take(j as int).push(history@[j as int]));
        assert(summaries(history@.take(j + 1)) =~= summaries(history@.take(j as int)).push(history@[j as int].summary@));
        assert(views(history_snippets@) =~= summaries(history@.take(j + 1)));
        j = j + 1;
    }
    assert(history@.take(history@.len() as int) =~= history@);
    ContextOutput { relevant_rules, anti_patterns, history_snippets }
}

/// `out` is what the context of `description` gives, the log going from
/// `before` to `after` by exactly its two queries: the rules that match it
/// (read as [`procedural::matching_rules`] reads them, the `i`th with stored
/// flags `flags[i]`), then the working entries that match it (at most
/// [`HISTORY_LIMIT`], newest first, read as [`working::search`] reads them),
/// reported by [`spec_context_output`].
pub open spec fn context_result(description: Seq<char>, out: ContextOutput, before: Seq<SqlCall>, after: Seq<SqlCall>) -> bool {
    exists|ms: Seq<RuleMatch>, es: Seq<WorkingEntry>, flags: Seq<(int, int)>|
        #![trigger spec_context_output(ms, es, out), procedural::matching_calls(ms, flags, description)]
    {
        &&& procedural::matches_result(ms, flags)
        &&& es.len() <= HISTORY_LIMIT
        &&& after == before + procedural::matching_calls(ms, flags, description) + working::query_result_calls(
            working::SEARCH_SQL@,
            search_args(description),
            es,
            HISTORY_LIMIT as int,
        )
        &&& spec_context_output(ms, es, out)
    }
}

/// The parameters of the working-memory search for `description`.
pub open spec fn search_args(description: Seq<char>) -> Seq<SqlArg> {
    seq![SqlArg::Text(description), SqlArg::Int(HISTORY_LIMIT as int)]
}

/// What gathering the context of `description` may ask of SQLite: running
/// and reading its two queries.
pub open spec fn context_requests(description: Seq<char>) -> spec_fn(SqlRequest) -> bool {
    |q: SqlRequest|
        reads_only(procedural::MATCHING_SQL@, seq![SqlArg::Text(description)])(q)
        || reads_only(working::SEARCH_SQL@, search_args(description))(q)
}

/// Gather the context of a task description from the rules and the
/// working memory; nothing else is run.
pub fn context(db: &mut Db, description: &str) -> (r: Result<ContextOutput>)
    ensures
        fails_only_in_db(r),
        r matches Ok(out) ==> context_result(description@, out, old(db).log@, final(db).log@),
        r is Err ==> only_requests(old(db).log@, final(db).log@, context_requests(description@)),
{
    let ghost start = db.log@;
    let ghost allowed = context_requests(description@);
    let matched = procedural::matching_rules(db, description);
    let ghost mid = db.log@;
    proof {
        lemma_only_requests_weaken(start, mid, reads_only(procedural::MATCHING_SQL@, seq![SqlArg::Text(description@)]), allowed);
    }
    let matches = matched?;
    let searched = working::search(db, description, HISTORY_LIMIT);
    let history = match searched {
        Ok(v) => v,
        Err(e) => {
            proof {
                lemma_only_requests_weaken(mid, db.log@, reads_only(working::SEARCH_SQL@, search_args(description@)), allowed);
                lemma_only_requests_trans(start, mid, db.log@, allowed);
            }
            return Err(e);
        },
    };
    let out = context_output(&matches, &history);
    let ghost flags = choose|flags: Seq<(int, int)>| procedural::matches_result(matches@, flags)
        && mid == start + procedural::matching_calls(matches@, flags, description@);
    assert(spec_context_output(matches@, history@, out));
    assert(db.log@ =~= start + procedural::matching_calls(matches@, flags, description@) + working::query_result_calls(
        working::SEARCH_SQL@, search_args(description@), history@, HISTORY_LIMIT as int));
    assert(context_result(description@, out, start, db.log@));
    Ok(out)
}

} // verus!
