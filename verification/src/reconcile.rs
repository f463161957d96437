//! Scatter-back reconciliation of sparse oracle results onto the dense grid.
//!
//! Legality filtering removes candidates before measurement, so the
//! measurement array is shorter than the candidate list: it is indexed only
//! over accepted candidates, in their original relative order. The
//! reconciler scatters those measurements back using the saved linear index
//! of each accepted candidate — never assuming any length relation between
//! candidates and measurements — and leaves a hole (`None`) at every
//! rejected position.

use vstd::prelude::*;
use crate::candidates::CandidateStatement;
use crate::legality::OracleResult;
use crate::legality::lemma_accepted_count_bound;
use crate::legality::lemma_accepted_count_monotonic;
use crate::legality::spec_accepted_count;

verus! {

/// The matrix after scattering the first `n` candidates' outcomes onto an
/// all-hole grid of `total` cells: candidate `k` (for `k < n`), if accepted,
/// writes the measurement of rank `spec_accepted_count(results, k)` into the
/// cell named by its linear index.
pub open spec fn spec_scatter_prefix(
    total: nat,
    candidates: Seq<CandidateStatement>,
    results: Seq<OracleResult>,
    measurements: Seq<u32>,
    n: int,
) -> Seq<Option<u32>>
    decreases n,
{
    if n <= 0 {
        Seq::new(total, |p: int| None::<u32>)
    } else {
        let prev = spec_scatter_prefix(total, candidates, results, measurements, n - 1);
        if results[n - 1].is_accepted() {
            prev.update(
                candidates[n - 1].linear_index as int,
                Some(measurements[spec_accepted_count(results, n - 1)]),
            )
        } else {
            prev
        }
    }
}

/// The reconciled matrix for one batch: every candidate's outcome scattered
/// onto a grid with one cell per candidate.
pub open spec fn spec_reconcile(
    candidates: Seq<CandidateStatement>,
    results: Seq<OracleResult>,
    measurements: Seq<u32>,
) -> Seq<Option<u32>> {
    spec_scatter_prefix(candidates.len(), candidates, results, measurements,
        candidates.len() as int)
}

/// Scattering never changes the grid size.
pub proof fn lemma_scatter_prefix_len(
    total: nat,
    candidates: Seq<CandidateStatement>,
    results: Seq<OracleResult>,
    measurements: Seq<u32>,
    n: int,
)
    requires
        forall|k: int|
            0 <= k < n ==> (#[trigger] candidates[k]).linear_index < total,
    ensures
        spec_scatter_prefix(total, candidates, results, measurements, n).len() == total,
    decreases n,
{
    if n > 0 {
        lemma_scatter_prefix_len(total, candidates, results, measurements, n - 1);
    }
}

/// Scatter the oracle outcomes and measurements of one batch back onto the
/// dense grid, by saved linear index.
pub fn reconcile(
    candidates: &Vec<CandidateStatement>,
    results: &Vec<OracleResult>,
    measurements: &Vec<u32>,
) -> (m: Vec<Option<u32>>)
    requires
        results@.len() == candidates@.len(),
        forall|k: int|
            0 <= k < candidates@.len()
                ==> (#[trigger] candidates@[k]).linear_index < candidates@.len(),
        measurements@.len() >= spec_accepted_count(results@, results@.len() as int),
    ensures
        m@.len() == candidates@.len(),
        m@ == spec_reconcile(candidates@, results@, measurements@),
{
    let total = candidates.len();
    let mut m: Vec<Option<u32>> = Vec::new();
    let mut p: usize = 0;
    while p < total
        invariant
            0 <= p <= total,
            m@.len() == p,
            forall|q: int| 0 <= q < p ==> #[trigger] m@[q] is None,
        decreases total - p,
    {
        m.push(None);
        p = p + 1;
    }
    proof {
        assert(m@ =~= spec_scatter_prefix(total as nat, candidates@, results@, measurements@,
            0));
    }
    let mut rank: usize = 0;
    let mut k: usize = 0;
    while k < total
        invariant
            0 <= k <= total,
            total == candidates@.len(),
            results@.len() == candidates@.len(),
            measurements@.len() >= spec_accepted_count(results@, results@.len() as int),
            forall|k0: int|
                0 <= k0 < candidates@.len()
                    ==> (#[trigger] candidates@[k0]).linear_index < candidates@.len(),
            rank == spec_accepted_count(results@, k as int),
            m@ == spec_scatter_prefix(total as nat, candidates@, results@, measurements@,
                k as int),
            m@.len() == total,
        decreases total - k,
    {
        proof {
            lemma_accepted_count_bound(results@, k as int);
            lemma_accepted_count_monotonic(results@, k as int + 1, results@.len() as int);
        }
        if results[k].accepted() {
            m.set(candidates[k].linear_index, Some(measurements[rank]));
            rank = rank + 1;
        }
        k = k + 1;
    }
    m
}

/// The reconciled matrix is a function of the ordered (candidates, results,
/// measurements) triple alone: reconciling the same triple twice yields
/// identical matrices.
pub proof fn lemma_reconcile_deterministic(
    m1: Seq<Option<u32>>,
    m2: Seq<Option<u32>>,
    candidates: Seq<CandidateStatement>,
    results: Seq<OracleResult>,
    measurements: Seq<u32>,
)
    requires
        m1 == spec_reconcile(candidates, results, measurements),
        m2 == spec_reconcile(candidates, results, measurements),
    ensures
        m1 == m2,
{
}

/// What the reconciled matrix holds cell by cell, for a generated candidate
/// list (where candidate `k` sits at linear index `k`): position `k` holds
/// the measurement of the `k`th candidate's acceptance rank if the oracle
/// accepted it, and a hole if the oracle rejected it — independent of how
/// many other candidates were rejected.
pub proof fn lemma_reconcile_pointwise(
    candidates: Seq<CandidateStatement>,
    results: Seq<OracleResult>,
    measurements: Seq<u32>,
)
    requires
        results.len() == candidates.len(),
        forall|k: int|
            0 <= k < candidates.len() ==> (#[trigger] candidates[k]).linear_index == k,
    ensures
        spec_reconcile(candidates, results, measurements).len() == candidates.len(),
        forall|k: int|
            0 <= k < candidates.len()
                ==> #[trigger] spec_reconcile(candidates, results, measurements)[k] == (
                if results[k].is_accepted() {
                    Some(measurements[spec_accepted_count(results, k)])
                } else {
                    None
                }),
{
    lemma_scatter_prefix_len(candidates.len(), candidates, results, measurements,
        candidates.len() as int);
    assert forall|k: int| 0 <= k < candidates.len() implies
        #[trigger] spec_reconcile(candidates, results, measurements)[k] == (
        if results[k].is_accepted() {
            Some(measurements[spec_accepted_count(results, k)])
        } else {
            None
        }) by {
        lemma_scatter_prefix_cell(candidates.len(), candidates, results, measurements,
            candidates.len() as int, k);
    }
}

/// Cell `k` of the scattered prefix: written by candidate `k` once the
/// prefix has passed it, a hole before that. Candidates write only their own
/// cell because each one's linear index equals its position.
proof fn lemma_scatter_prefix_cell(
    total: nat,
    candidates: Seq<CandidateStatement>,
    results: Seq<OracleResult>,
    measurements: Seq<u32>,
    n: int,
    k: int,
)
    requires
        candidates.len() == total,
        results.len() == candidates.len(),
        forall|k0: int|
            0 <= k0 < candidates.len() ==> (#[trigger] candidates[k0]).linear_index == k0,
        0 <= k < total,
        0 <= n <= candidates.len(),
    ensures
        spec_scatter_prefix(total, candidates, results, measurements, n)[k] == (
        if k < n && results[k].is_accepted() {
            Some(measurements[spec_accepted_count(results, k)])
        } else {
            None
        }),
    decreases n,
{
    lemma_scatter_prefix_len(total, candidates, results, measurements, n);
    if n > 0 {
        lemma_scatter_prefix_cell(total, candidates, results, measurements, n - 1, k);
        lemma_scatter_prefix_len(total, candidates, results, measurements, n - 1);
    }
}


/// The reconciled matrices of the two size variants, each from its own
/// oracle results and measurements over the same candidate list.
pub open spec fn spec_size_matrices(
    candidates: Seq<CandidateStatement>,
    word_results: Seq<OracleResult>,
    word_measurements: Seq<u32>,
    long_results: Seq<OracleResult>,
    long_measurements: Seq<u32>,
) -> (Seq<Option<u32>>, Seq<Option<u32>>) {
    (
        spec_reconcile(candidates, word_results, word_measurements),
        spec_reconcile(candidates, long_results, long_measurements),
    )
}

/// The legality oracle is consulted independently per size variant: each
/// size's matrix is a function of that size's own results and measurements
/// alone, so no outcome is ever carried over from one size to the other —
/// the long matrix is untouched by any change to the word results, and the
/// word matrix by any change to the long results.
pub proof fn lemma_no_carry_over_between_sizes(
    candidates: Seq<CandidateStatement>,
    word_results_a: Seq<OracleResult>,
    word_measurements_a: Seq<u32>,
    word_results_b: Seq<OracleResult>,
    word_measurements_b: Seq<u32>,
    long_results_a: Seq<OracleResult>,
    long_measurements_a: Seq<u32>,
    long_results_b: Seq<OracleResult>,
    long_measurements_b: Seq<u32>,
)
    ensures
        spec_size_matrices(candidates, word_results_a, word_measurements_a, long_results_a,
            long_measurements_a).1 == spec_size_matrices(candidates, word_results_b,
            word_measurements_b, long_results_a, long_measurements_a).1,
        spec_size_matrices(candidates, word_results_a, word_measurements_a, long_results_a,
            long_measurements_a).0 == spec_size_matrices(candidates, word_results_a,
            word_measurements_a, long_results_b, long_measurements_b).0,
{
}


/// A dense grid position always resolves to its own candidate's outcome:
/// for a generated batch of `I * J` candidates, the matrix cell at
/// `i * J + j` is the scattered result of exactly the candidate generated
/// for `(catalog1[i], catalog2[j])`, no matter how many other candidates
/// were rejected before or after it.
pub proof fn lemma_grid_cell_resolution(
    candidates: Seq<CandidateStatement>,
    results: Seq<OracleResult>,
    measurements: Seq<u32>,
    j_count: int,
    i: int,
    j: int,
)
    requires
        results.len() == candidates.len(),
        forall|k: int|
            0 <= k < candidates.len() ==> (#[trigger] candidates[k]).linear_index == k,
        0 <= i,
        0 <= j < j_count,
        i * j_count + j < candidates.len(),
    ensures
        spec_reconcile(candidates, results, measurements)[i * j_count + j] == (
        if results[i * j_count + j].is_accepted() {
            Some(measurements[spec_accepted_count(results, i * j_count + j)])
        } else {
            None
        }),
{
    assert(0 <= i * j_count + j) by (nonlinear_arith)
        requires 0 <= i, 0 <= j, 0 < j_count;
    lemma_reconcile_pointwise(candidates, results, measurements);
}

} // verus!
