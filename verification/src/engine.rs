//! The analytical measurement backend: rule evaluation over a batch.
//!
//! For each candidate the legality oracle accepted, the engine finds the
//! first cycle rule matching the candidate's operand classes and prices the
//! candidate by the documented bus-cycle model. The resulting cost array has
//! exactly one entry per accepted candidate, in submission order — the same
//! shape the external cycle-accurate core returns — so the same reconciler
//! scatters either backend's results onto the grid. A candidate with no
//! matching rule is an authoring defect in the rule table and surfaces as an
//! error naming the candidate, which validating the table for a wildcard
//! catch-all rule prevents up front.

use vstd::prelude::*;
use crate::Size;
use crate::candidates::CandidateStatement;
use crate::candidates::candidate_operands_wf;
use crate::legality::OracleResult;
use crate::legality::lemma_accepted_count_bound;
use crate::legality::lemma_accepted_count_monotonic;
use crate::legality::spec_accepted_count;
use crate::reconcile::lemma_reconcile_pointwise;
use crate::reconcile::reconcile;
use crate::operands::AddressingClass;
use crate::rules::CycleRule;
use crate::rules::find_first_match;
use crate::rules::lemma_first_match_characterization;
use crate::rules::rule_cost;
use crate::rules::spec_class_of;
use crate::rules::spec_first_match;
use crate::rules::spec_rule_cost;
use crate::rules::spec_rule_matches;

verus! {

/// No rule of the table matched an accepted candidate: an authoring defect
/// of the rule table, reported with the candidate's position in the batch.
#[derive(Debug)]
pub struct NoMatchingRule {
    pub candidate_index: usize,
}

/// Every rule's base counts leave room for the largest operand surcharge
/// (two effective-address costs of at most 12 and two long-word penalties of
/// 4), so candidate costs never overflow.
pub open spec fn rules_fit(rules: Seq<CycleRule>) -> bool {
    forall|i: int|
        0 <= i < rules.len() ==> (#[trigger] rules[i]).word_cycles <= u32::MAX - 32
            && rules[i].long_cycles <= u32::MAX - 32
}

/// The analytical cost of one candidate: the first matching rule's base
/// count for the size plus the operand surcharges, or nothing when no rule
/// matches.
pub open spec fn spec_candidate_cost(
    rules: Seq<CycleRule>,
    c: CandidateStatement,
    size: Size,
) -> Option<int> {
    match spec_first_match(rules, spec_class_of(c.src), spec_class_of(c.dst)) {
        Some(i) => Some(spec_rule_cost(rules[i], c.src, c.dst, size)),
        None => None,
    }
}

/// Price every accepted candidate of a batch: one cost per accepted
/// candidate, in submission order, like the measured backend's array.
pub fn analytical_costs(
    candidates: &Vec<CandidateStatement>,
    results: &Vec<OracleResult>,
    rules: &Vec<CycleRule>,
    size: Size,
) -> (r: Result<Vec<u32>, NoMatchingRule>)
    requires
        results@.len() == candidates@.len(),
        rules_fit(rules@),
        forall|k: int|
            0 <= k < candidates@.len() ==> candidate_operands_wf(#[trigger] candidates@[k]),
    ensures
        match r {
            Ok(costs) => {
                &&& costs@.len() == spec_accepted_count(results@, results@.len() as int)
                &&& forall|k: int|
                    0 <= k < candidates@.len() && (#[trigger] results@[k]).is_accepted()
                        ==> (spec_candidate_cost(rules@, candidates@[k], size) matches Some(c)
                            && costs@[spec_accepted_count(results@, k)] == c)
            },
            Err(e) => {
                &&& 0 <= e.candidate_index < candidates@.len()
                &&& results@[e.candidate_index as int].is_accepted()
                &&& spec_candidate_cost(rules@, candidates@[e.candidate_index as int], size)
                    is None
                &&& forall|k: int|
                    0 <= k < e.candidate_index && (#[trigger] results@[k]).is_accepted()
                        ==> spec_candidate_cost(rules@, candidates@[k], size) is Some
            },
        },
{
    let mut costs: Vec<u32> = Vec::new();
    let mut k: usize = 0;
    while k < candidates.len()
        invariant
            0 <= k <= candidates@.len(),
            results@.len() == candidates@.len(),
            rules_fit(rules@),
            forall|k0: int|
                0 <= k0 < candidates@.len()
                    ==> candidate_operands_wf(#[trigger] candidates@[k0]),
            costs@.len() == spec_accepted_count(results@, k as int),
            forall|k0: int|
                0 <= k0 < k && (#[trigger] results@[k0]).is_accepted()
                    ==> (spec_candidate_cost(rules@, candidates@[k0], size) matches Some(c)
                        && costs@[spec_accepted_count(results@, k0)] == c),
        decreases candidates@.len() - k,
    {
        proof {
            lemma_accepted_count_bound(results@, k as int);
        }
        if results[k].accepted() {
            let c = &candidates[k];
            let src_class = match &c.src {
                Some(o) => Some(o.addressing_class),
                None => None,
            };
            let dst_class = match &c.dst {
                Some(o) => Some(o.addressing_class),
                None => None,
            };
            match find_first_match(rules, src_class, dst_class) {
                Some(i) => {
                    proof {
                        lemma_first_match_characterization(rules@, spec_class_of(c.src),
                            spec_class_of(c.dst));
                    }
                    let cost = rule_cost(&rules[i], c.src.as_ref(), c.dst.as_ref(), size);
                    let ghost prev_costs = costs@;
                    costs.push(cost);
                    proof {
                        assert forall|k0: int|
                            0 <= k0 < k + 1 && (#[trigger] results@[k0]).is_accepted() implies
                            (spec_candidate_cost(rules@, candidates@[k0], size) matches Some(cc)
                                && costs@[spec_accepted_count(results@, k0)] == cc) by {
                            if k0 < k {
                                lemma_accepted_count_monotonic(results@, 0, k0);
                                lemma_accepted_count_monotonic(results@, k0 + 1, k as int);
                                assert(0 <= spec_accepted_count(results@, k0)
                                    < prev_costs.len() as int);
                                assert(costs@[spec_accepted_count(results@, k0)]
                                    == prev_costs[spec_accepted_count(results@, k0)]);
                            } else {
                                assert(costs@[spec_accepted_count(results@, k0)] == cost);
                            }
                        }
                    }
                },
                None => {
                    return Err(NoMatchingRule { candidate_index: k });
                },
            }
        }
        k = k + 1;
    }
    Ok(costs)
}

/// A rule that matches every candidate: both patterns are the wildcard.
pub open spec fn is_catch_all(rule: CycleRule) -> bool {
    rule.source_class == AddressingClass::Any && rule.dest_class == AddressingClass::Any
}

/// Check at load time that the rule table ends the search for every
/// candidate: some rule is a wildcard catch-all.
pub fn validate_rules(rules: &Vec<CycleRule>) -> (r: bool)
    ensures
        r == exists|i: int| 0 <= i < rules@.len() && is_catch_all(#[trigger] rules@[i]),
{
    let mut k: usize = 0;
    while k < rules.len()
        invariant
            0 <= k <= rules@.len(),
            forall|i: int| 0 <= i < k ==> !is_catch_all(#[trigger] rules@[i]),
        decreases rules@.len() - k,
    {
        if matches!(rules[k].source_class, AddressingClass::Any)
            && matches!(rules[k].dest_class, AddressingClass::Any) {
            return true;
        }
        k = k + 1;
    }
    false
}

/// A table holding a catch-all rule matches every candidate, so the engine
/// can never fail on it: validating the table up front rules the no-match
/// defect out.
pub proof fn lemma_catch_all_always_matches(
    rules: Seq<CycleRule>,
    src: Option<AddressingClass>,
    dst: Option<AddressingClass>,
)
    requires
        exists|i: int| 0 <= i < rules.len() && is_catch_all(#[trigger] rules[i]),
    ensures
        spec_first_match(rules, src, dst) is Some,
    decreases rules.len(),
{
    let i = choose|i: int| 0 <= i < rules.len() && is_catch_all(#[trigger] rules[i]);
    assert(spec_rule_matches(rules[i], src, dst));
    lemma_first_match_characterization(rules, src, dst);
    if spec_first_match(rules, src, dst) is None {
        assert(!spec_rule_matches(rules[i], src, dst));
    }
}


/// Price an accepted batch analytically and scatter the costs back onto
/// the dense grid: position `k` holds the candidate's analytical cost when
/// the oracle accepted it, and a hole when it rejected it.
pub fn analytical_matrix(
    candidates: &Vec<CandidateStatement>,
    results: &Vec<OracleResult>,
    rules: &Vec<CycleRule>,
    size: Size,
) -> (r: Result<Vec<Option<u32>>, NoMatchingRule>)
    requires
        results@.len() == candidates@.len(),
        rules_fit(rules@),
        forall|k: int|
            0 <= k < candidates@.len() ==> candidate_operands_wf(#[trigger] candidates@[k]),
        forall|k: int|
            0 <= k < candidates@.len() ==> (#[trigger] candidates@[k]).linear_index == k,
    ensures
        match r {
            Ok(m) => {
                &&& m@.len() == candidates@.len()
                &&& forall|k: int|
                    0 <= k < candidates@.len() ==> #[trigger] m@[k] == (
                    if results@[k].is_accepted() {
                        match spec_candidate_cost(rules@, candidates@[k], size) {
                            Some(c) => Some(c as u32),
                            None => None,
                        }
                    } else {
                        None
                    })
                &&& forall|k: int|
                    0 <= k < candidates@.len() && (#[trigger] results@[k]).is_accepted()
                        ==> spec_candidate_cost(rules@, candidates@[k], size) is Some
            },
            Err(e) => {
                &&& 0 <= e.candidate_index < candidates@.len()
                &&& results@[e.candidate_index as int].is_accepted()
                &&& spec_candidate_cost(rules@, candidates@[e.candidate_index as int], size)
                    is None
            },
        },
{
    let costs = match analytical_costs(candidates, results, rules, size) {
        Ok(c) => c,
        Err(e) => {
            return Err(e);
        },
    };
    let m = reconcile(candidates, results, &costs);
    proof {
        lemma_reconcile_pointwise(candidates@, results@, costs@);
        assert forall|k: int| 0 <= k < candidates@.len() implies #[trigger] m@[k] == (
            if results@[k].is_accepted() {
                match spec_candidate_cost(rules@, candidates@[k], size) {
                    Some(c) => Some(c as u32),
                    None => None,
                }
            } else {
                None
            }) by {
            if results@[k].is_accepted() {
                assert(m@[k] == Some(costs@[spec_accepted_count(results@, k)]));
            }
        }
    }
    Ok(m)
}

} // verus!
