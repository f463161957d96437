//! Classification of the legality oracle's verdict.
//!
//! The external assembler is the sole authority on whether an operand
//! combination is a legal encoding: the surrounding program runs it on one
//! candidate's text and hands back the exit status together with whatever
//! output file contents exist. This module turns that outcome into the
//! oracle result: an exit status of success with non-empty encoded bytes is
//! an acceptance, every other outcome a rejection. No local heuristic may
//! override the oracle.

use vstd::prelude::*;

verus! {

/// The legality oracle's verdict on one candidate: accepted with the encoded
/// instruction bytes, or rejected.
pub enum OracleResult {
    Accepted(Vec<u8>),
    Rejected,
}

impl OracleResult {
    pub open spec fn is_accepted(&self) -> bool {
        self is Accepted
    }

    /// The encoded bytes of an accepted candidate.
    pub open spec fn spec_bytes(&self) -> Seq<u8> {
        match self {
            OracleResult::Accepted(b) => b@,
            OracleResult::Rejected => Seq::empty(),
        }
    }

    pub fn accepted(&self) -> (r: bool)
        ensures
            r == self.is_accepted(),
    {
        matches!(self, OracleResult::Accepted(_))
    }
}

/// Whether an assembler outcome counts as an acceptance: exit status success
/// and a non-empty output file.
pub open spec fn spec_outcome_accepts(exit_success: bool, output: Option<Seq<u8>>) -> bool {
    exit_success && match output {
        Some(bytes) => bytes.len() > 0,
        None => false,
    }
}

/// The view of an optional byte vector.
pub open spec fn opt_bytes_view(output: Option<Vec<u8>>) -> Option<Seq<u8>> {
    match output {
        Some(b) => Some(b@),
        None => None,
    }
}

/// Classify one invocation of the external assembler: success with a
/// non-empty output file yields the encoded bytes, any other outcome is a
/// rejection.
pub fn classify_assembler_outcome(exit_success: bool, output: Option<Vec<u8>>) -> (r: OracleResult)
    ensures
        r.is_accepted() == spec_outcome_accepts(exit_success, opt_bytes_view(output)),
        r.is_accepted() ==> r.spec_bytes() == opt_bytes_view(output).unwrap(),
{
    if exit_success {
        match output {
            Some(bytes) => {
                if bytes.len() > 0 {
                    OracleResult::Accepted(bytes)
                } else {
                    OracleResult::Rejected
                }
            },
            None => OracleResult::Rejected,
        }
    } else {
        OracleResult::Rejected
    }
}

/// The concatenation of the encoded bytes of every accepted result, in
/// submission order, over the first `k` results.
pub open spec fn spec_concat_accepted(results: Seq<OracleResult>, k: int) -> Seq<u8>
    decreases k,
{
    if k <= 0 {
        Seq::empty()
    } else {
        spec_concat_accepted(results, k - 1) + if results[k - 1].is_accepted() {
            results[k - 1].spec_bytes()
        } else {
            Seq::<u8>::empty()
        }
    }
}

/// The number of accepted results among the first `k`.
pub open spec fn spec_accepted_count(results: Seq<OracleResult>, k: int) -> int
    decreases k,
{
    if k <= 0 {
        0
    } else {
        spec_accepted_count(results, k - 1) + if results[k - 1].is_accepted() {
            1int
        } else {
            0int
        }
    }
}

/// The accepted count never decreases as more results are considered.
pub proof fn lemma_accepted_count_monotonic(results: Seq<OracleResult>, a: int, b: int)
    requires
        a <= b,
    ensures
        spec_accepted_count(results, a) <= spec_accepted_count(results, b),
    decreases b - a,
{
    if a < b {
        lemma_accepted_count_monotonic(results, a, b - 1);
    }
}

/// The accepted count over `k` results never exceeds `k`.
pub proof fn lemma_accepted_count_bound(results: Seq<OracleResult>, k: int)
    requires
        0 <= k,
    ensures
        spec_accepted_count(results, k) <= k,
    decreases k,
{
    if k > 0 {
        lemma_accepted_count_bound(results, k - 1);
    }
}

/// Build the single measurement submission for a batch: the encoded bytes of
/// every accepted candidate concatenated in submission order, and the count
/// of discrete instructions in the buffer. The external cycle-accurate core
/// decodes instruction boundaries inside the buffer itself.
pub fn concat_accepted_bytes(results: &Vec<OracleResult>) -> (r: (Vec<u8>, usize))
    ensures
        r.0@ == spec_concat_accepted(results@, results@.len() as int),
        r.1 == spec_accepted_count(results@, results@.len() as int),
{
    let mut buffer: Vec<u8> = Vec::new();
    let mut count: usize = 0;
    let mut k: usize = 0;
    while k < results.len()
        invariant
            0 <= k <= results@.len(),
            buffer@ == spec_concat_accepted(results@, k as int),
            count == spec_accepted_count(results@, k as int),
        decreases results@.len() - k,
    {
        proof {
            lemma_accepted_count_bound(results@, k as int);
        }
        match &results[k] {
            OracleResult::Accepted(bytes) => {
                let mut b: usize = 0;
                while b < bytes.len()
                    invariant
                        0 <= b <= bytes@.len(),
                        results@[k as int] matches OracleResult::Accepted(bv) && bv@ == bytes@,
                        0 <= k < results@.len(),
                        buffer@ == spec_concat_accepted(results@, k as int)
                            + bytes@.subrange(0, b as int),
                    decreases bytes@.len() - b,
                {
                    buffer.push(bytes[b]);
                    proof {
                        assert(bytes@.subrange(0, b + 1) =~= bytes@.subrange(0, b as int)
                            + seq![bytes@[b as int]]);
                        assert(buffer@ =~= spec_concat_accepted(results@, k as int)
                            + bytes@.subrange(0, b + 1));
                    }
                    b = b + 1;
                }
                proof {
                    assert(bytes@.subrange(0, bytes@.len() as int) =~= bytes@);
                    assert(buffer@ =~= spec_concat_accepted(results@, k as int + 1));
                }
                count = count + 1;
            },
            OracleResult::Rejected => {
                proof {
                    assert(buffer@ =~= spec_concat_accepted(results@, k as int + 1));
                }
            },
        }
        k = k + 1;
    }
    (buffer, count)
}

} // verus!
