//! The counts that the `distill` command reports: how many rules changed
//! their proven or anti-pattern flag when their confidence was recalculated.
use vstd::prelude::*;

use crate::output::DistillOutput;

verus! {

/// A rule's proven and anti-pattern flags.
#[derive(Debug, Clone, PartialEq)]
pub struct RuleFlags {
    pub id: String,
    pub is_proven: bool,
    pub is_anti_pattern: bool,
}

/// The flags of the first rule in `rules` with the id `id`, if any.
pub open spec fn flags_of(rules: Seq<RuleFlags>, id: Seq<char>) -> Option<(bool, bool)>
    decreases rules.len(),
{
    if rules.len() == 0 {
        None
    } else if rules[0].id@ == id {
        Some((rules[0].is_proven, rules[0].is_anti_pattern))
    } else {
        flags_of(rules.subrange(1, rules.len() as int), id)
    }
}

/// Whether `r` had other flags in `before`; a rule absent from `before` did
/// not change.
pub open spec fn transitioned(before: Seq<RuleFlags>, r: RuleFlags) -> bool {
    match flags_of(before, r.id@) {
        Some((p, a)) => p != r.is_proven || a != r.is_anti_pattern,
        None => false,
    }
}

/// How many of the rules `after` changed their flags since `before`.
pub open spec fn spec_transitions(before: Seq<RuleFlags>, after: Seq<RuleFlags>) -> nat
    decreases after.len(),
{
    if after.len() == 0 {
        0
    } else {
        spec_transitions(before, after.drop_last()) + if transitioned(before, after.last()) { 1nat } else { 0nat }
    }
}

/// `flags_of` finds the first rule with the id, or none when no rule has it.
proof fn lemma_flags_of_first(rules: Seq<RuleFlags>, id: Seq<char>)
    ensures
        (forall|k: int| 0 <= k < rules.len() ==> rules[k].id@ != id) ==> flags_of(rules, id) is None,
        forall|j: int| 0 <= j < rules.len() && rules[j].id@ == id
            && (forall|k: int| 0 <= k < j ==> rules[k].id@ != id) ==>
            flags_of(rules, id) == Some((rules[j].is_proven, rules[j].is_anti_pattern)),
    decreases rules.len(),
{
    if rules.len() > 0 {
        let rest = rules.subrange(1, rules.len() as int);
        lemma_flags_of_first(rest, id);
        assert forall|k: int| 0 <= k < rest.len() implies rest[k] == rules[k + 1] by {}
        assert forall|j: int| 0 <= j < rules.len() && rules[j].id@ == id
            && (forall|k: int| 0 <= k < j ==> rules[k].id@ != id) implies
            flags_of(rules, id) == Some((rules[j].is_proven, rules[j].is_anti_pattern)) by {
            if j > 0 {
                assert(rules[0].id@ != id);
                assert(rest[j - 1] == rules[j]);
                assert forall|k: int| 0 <= k < j - 1 implies rest[k].id@ != id by {
                    assert(rules[k + 1].id@ != id);
                }
            }
        }
        if forall|k: int| 0 <= k < rules.len() ==> rules[k].id@ != id {
            assert(rules[0].id@ != id);
            assert forall|k: int| 0 <= k < rest.len() implies rest[k].id@ != id by {
                assert(rules[k + 1].id@ != id);
            }
        }
    }
}

/// No rule listed after a distillation has transitioned yet when none is
/// listed.
pub proof fn lemma_transitions_empty(before: Seq<RuleFlags>)
    ensures
        spec_transitions(before, Seq::empty()) == 0,
{
}

/// Listing one more rule `r` after a distillation counts it as transitioned
/// exactly when the first rule with its id before the distillation had a
/// different proven flag or a different anti-pattern flag, in either
/// direction; a rule that was not there before never counts.
pub proof fn lemma_transitions_step(before: Seq<RuleFlags>, after: Seq<RuleFlags>, r: RuleFlags)
    ensures
        (forall|k: int| 0 <= k < before.len() ==> before[k].id@ != r.id@) ==>
            spec_transitions(before, after.push(r)) == spec_transitions(before, after),
        forall|j: int| 0 <= j < before.len() && before[j].id@ == r.id@
            && (forall|k: int| 0 <= k < j ==> before[k].id@ != r.id@) ==>
            spec_transitions(before, after.push(r)) == spec_transitions(before, after) + if before[j].is_proven
                != r.is_proven || before[j].is_anti_pattern != r.is_anti_pattern {
                1int
            } else {
                0int
            },
{
    assert(after.push(r).drop_last() =~= after);
    lemma_flags_of_first(before, r.id@);
}

/// The flags that the rule with id `id` had in `rules`, if any.
pub fn find_flags(rules: &Vec<RuleFlags>, id: &String) -> (r: Option<(bool, bool)>)
    ensures
        r == flags_of(rules@, id@),
{
    let mut j: usize = 0;
    assert(rules@.subrange(0, rules@.len() as int) =~= rules@);
    while j < rules.len()
        invariant
            0 <= j <= rules@.len(),
            flags_of(rules@, id@) == flags_of(rules@.subrange(j as int, rules@.len() as int), id@),
        decreases rules@.len() - j,
    {
        let ghost rest = rules@.subrange(j as int, rules@.len() as int);
        assert(rest[0] == rules@[j as int]);
        assert(rest.subrange(1, rest.len() as int) =~= rules@.subrange(j + 1, rules@.len() as int));
        if rules[j].id == *id {
            return Some((rules[j].is_proven, rules[j].is_anti_pattern));
        }
        j = j + 1;
    }
    None
}

/// Count the rules of `after` whose flags differ from those they had in
/// `before`.
pub fn transitions(before: &Vec<RuleFlags>, after: &Vec<RuleFlags>) -> (n: u64)
    ensures
        n == spec_transitions(before@, after@),
{
    let mut n: u64 = 0;
    let mut i: usize = 0;
    while i < after.len()
        invariant
            0 <= i <= after@.len(),
            n == spec_transitions(before@, after@.take(i as int)),
            n <= i,
        decreases after@.len() - i,
    {
        assert(after@.take(i + 1).drop_last() =~= after@.take(i as int));
        let changed = match find_flags(before, &after[i].id) {
            Some((p, a)) => p != after[i].is_proven || a != after[i].is_anti_pattern,
            None => false,
        };
        if changed {
            n = n + 1;
        }
        i = i + 1;
    }
    assert(after@.take(after@.len() as int) =~= after@);
    n
}

/// The report of a distillation that recalculated `decayed` rules and pruned
/// `pruned`, the flags being `before` and `after` the recalculation.
pub fn distill_output(decayed: u64, pruned: u64, before: &Vec<RuleFlags>, after: &Vec<RuleFlags>) -> (out: DistillOutput)
    ensures
        out.decayed == decayed,
        out.pruned == pruned,
        out.transitioned == spec_transitions(before@, after@),
{
    DistillOutput { decayed, pruned, transitioned: transitions(before, after) }
}

} // verus!
