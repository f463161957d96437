//! Candidate statement generation: the ordered Cartesian product of the
//! operand catalogs.
//!
//! For a two-operand instruction with catalogs of sizes `I` (source) and `J`
//! (destination) the generator emits `I * J` candidates, outer loop over the
//! source catalog, inner loop over the destination catalog, so that the
//! candidate pairing `(catalog1[i], catalog2[j])` sits at linear index
//! `i * J + j`. One-operand instructions loop over their single catalog, and
//! a no-operand instruction yields exactly one synthetic candidate. No
//! legality checking happens here: illegal combinations are generated too and
//! rejected downstream by the oracle.

use vstd::prelude::*;
use crate::Size;
use crate::operands::OperandSpec;
use crate::operands::catalog_wf;

verus! {

/// One concrete (instruction, operand assignment) combination awaiting
/// legality and cost evaluation, remembering its place in the dense grid.
pub struct CandidateStatement {
    pub src: Option<OperandSpec>,
    pub dst: Option<OperandSpec>,
    pub linear_index: usize,
    pub text: String,
}

/// The view of an optional string slice.
pub open spec fn opt_str_view(s: Option<&str>) -> Option<Seq<char>> {
    match s {
        Some(t) => Some(t@),
        None => None,
    }
}

/// The assembly text of one candidate: the (size-suffixed) mnemonic followed
/// by the operand source texts, comma-separated for two operands.
pub open spec fn spec_statement_text(
    name: Seq<char>,
    src: Option<Seq<char>>,
    dst: Option<Seq<char>>,
) -> Seq<char> {
    match (src, dst) {
        (Some(s), Some(d)) => name + seq![' '] + s + seq![','] + d,
        (None, Some(d)) => name + seq![' '] + d,
        _ => name,
    }
}

/// Build the assembly text of one candidate statement.
pub fn statement_text(name: &str, src: Option<&str>, dst: Option<&str>) -> (r: String)
    ensures
        r@ == spec_statement_text(name@, opt_str_view(src), opt_str_view(dst)),
{
    proof {
        reveal_strlit(" ");
        reveal_strlit(",");
        assert(" "@ =~= seq![' ']);
        assert(","@ =~= seq![',']);
    }
    let mut t = String::from_str(name);
    match (src, dst) {
        (Some(s), Some(d)) => {
            t.append(" ");
            t.append(s);
            t.append(",");
            t.append(d);
        },
        (None, Some(d)) => {
            t.append(" ");
            t.append(d);
        },
        _ => {},
    }
    t
}

/// The mnemonic as submitted for one size variant: the long form carries the
/// `.l` suffix, the word form is the bare mnemonic.
pub open spec fn spec_size_variant_name(name: Seq<char>, size: Size) -> Seq<char> {
    match size {
        Size::Word => name,
        Size::Long => name + seq!['.', 'l'],
    }
}

/// Attach the size suffix to a mnemonic.
pub fn size_variant_name(name: &str, size: Size) -> (r: String)
    ensures
        r@ == spec_size_variant_name(name@, size),
{
    let mut t = String::from_str(name);
    if matches!(size, Size::Long) {
        proof {
            reveal_strlit(".l");
            assert(".l"@ =~= seq!['.', 'l']);
        }
        t.append(".l");
    }
    t
}

/// A candidate's operands are well formed where present.
pub open spec fn candidate_operands_wf(c: CandidateStatement) -> bool {
    &&& (c.src matches Some(o) ==> o.wf())
    &&& (c.dst matches Some(o) ==> o.wf())
}

/// Candidates generated from well-formed catalogs carry well-formed
/// operands: each one's source and destination come straight from a catalog
/// entry.
pub proof fn lemma_generated_candidates_wf(
    r: Seq<CandidateStatement>,
    name: Seq<char>,
    srcs: Seq<OperandSpec>,
    dsts: Seq<OperandSpec>,
)
    requires
        r.len() == srcs.len() * dsts.len(),
        forall|i: int, j: int|
            0 <= i < srcs.len() && 0 <= j < dsts.len()
                ==> #[trigger] candidate_at(r[i * dsts.len() + j], name, srcs, dsts, i, j),
        catalog_wf(srcs),
        catalog_wf(dsts),
    ensures
        forall|k: int| 0 <= k < r.len() ==> candidate_operands_wf(#[trigger] r[k]),
{
    let i_count = srcs.len() as int;
    let j_count = dsts.len() as int;
    assert forall|k: int| 0 <= k < r.len() implies candidate_operands_wf(#[trigger] r[k]) by {
        assert(j_count > 0) by (nonlinear_arith)
            requires 0 <= k < i_count * j_count, 0 <= i_count, 0 <= j_count;
        let i = k / j_count;
        let j = k % j_count;
        assert(0 <= j < j_count) by (nonlinear_arith)
            requires j == k % j_count, 0 <= k, j_count > 0;
        assert(i * j_count + j == k) by (nonlinear_arith)
            requires i == k / j_count, j == k % j_count, 0 <= k, j_count > 0;
        assert(0 <= i < i_count) by (nonlinear_arith)
            requires
                i * j_count + j == k,
                0 <= k < i_count * j_count,
                0 <= j < j_count,
                j_count > 0;
        assert(candidate_at(r[i * j_count + j], name, srcs, dsts, i, j));
        assert(srcs[i].wf());
        assert(dsts[j].wf());
    }
}

/// A grid position `(i, j)` always falls inside the dense matrix of
/// `i_count * j_count` cells.
pub proof fn lemma_grid_index_in_range(i_count: int, j_count: int, i: int, j: int)
    requires
        0 <= i < i_count,
        0 <= j < j_count,
    ensures
        0 <= i * j_count + j < i_count * j_count,
{
    assert(0 <= i * j_count + j < i_count * j_count) by (nonlinear_arith)
        requires
            0 <= i < i_count,
            0 <= j < j_count;
}

/// What the generator promises of the candidate at grid position
/// `i * j_count + j`: it remembers that linear index, carries the `i`th
/// source and `j`th destination operand, and its text is the statement for
/// that pairing.
pub open spec fn candidate_at(
    c: CandidateStatement,
    name: Seq<char>,
    src_catalog: Seq<OperandSpec>,
    dst_catalog: Seq<OperandSpec>,
    i: int,
    j: int,
) -> bool {
    &&& c.linear_index == i * dst_catalog.len() + j
    &&& c.src == Some(src_catalog[i])
    &&& c.dst == Some(dst_catalog[j])
    &&& c.text@ == spec_statement_text(
        name,
        Some(src_catalog[i].source_text@),
        Some(dst_catalog[j].source_text@),
    )
}

/// Generate the full ordered candidate list for a two-operand instruction:
/// every source/destination pairing, at linear index `i * J + j`.
pub fn generate_candidates_two(
    name: &str,
    src_catalog: &Vec<OperandSpec>,
    dst_catalog: &Vec<OperandSpec>,
) -> (r: Vec<CandidateStatement>)
    requires
        src_catalog@.len() * dst_catalog@.len() <= usize::MAX,
    ensures
        r@.len() == src_catalog@.len() * dst_catalog@.len(),
        forall|i: int, j: int|
            0 <= i < src_catalog@.len() && 0 <= j < dst_catalog@.len()
                ==> #[trigger] candidate_at(r@[i * dst_catalog@.len() + j], name@, src_catalog@,
                    dst_catalog@, i, j),
        forall|k: int| 0 <= k < r@.len() ==> (#[trigger] r@[k]).linear_index == k,
{
    let i_count = src_catalog.len();
    let j_count = dst_catalog.len();
    let mut out: Vec<CandidateStatement> = Vec::new();
    let mut i: usize = 0;
    while i < i_count
        invariant
            0 <= i <= i_count,
            i_count == src_catalog@.len(),
            j_count == dst_catalog@.len(),
            i_count * j_count <= usize::MAX,
            out@.len() == i * j_count,
            forall|i0: int, j0: int|
                0 <= i0 < i_count && 0 <= j0 < j_count && i0 * j_count + j0 < out@.len()
                    ==> #[trigger] candidate_at(out@[i0 * j_count + j0], name@, src_catalog@,
                        dst_catalog@, i0, j0),
            forall|k: int| 0 <= k < out@.len() ==> (#[trigger] out@[k]).linear_index == k,
        decreases i_count - i,
    {
        proof {
            assert((i + 1) * j_count <= i_count * j_count) by (nonlinear_arith)
                requires 0 <= i, i + 1 <= i_count, 0 <= j_count;
        }
        let mut j: usize = 0;
        while j < j_count
            invariant
                0 <= i < i_count,
                0 <= j <= j_count,
                i_count == src_catalog@.len(),
                j_count == dst_catalog@.len(),
                i_count * j_count <= usize::MAX,
                (i + 1) * j_count <= i_count * j_count,
                out@.len() == i * j_count + j,
                forall|i0: int, j0: int|
                    0 <= i0 < i_count && 0 <= j0 < j_count && i0 * j_count + j0 < out@.len()
                        ==> #[trigger] candidate_at(out@[i0 * j_count + j0], name@, src_catalog@,
                            dst_catalog@, i0, j0),
                forall|k: int| 0 <= k < out@.len() ==> (#[trigger] out@[k]).linear_index == k,
            decreases j_count - j,
        {
            proof {
                assert(i * j_count + j + 1 <= (i + 1) * j_count) by (nonlinear_arith)
                    requires 0 <= i, 0 <= j, j + 1 <= j_count;
            }
            let linear_index = out.len();
            let text = statement_text(
                name,
                Some(src_catalog[i].source_text.as_str()),
                Some(dst_catalog[j].source_text.as_str()),
            );
            let c = CandidateStatement {
                src: Some(src_catalog[i].clone()),
                dst: Some(dst_catalog[j].clone()),
                linear_index,
                text,
            };
            let ghost prev = out@;
            out.push(c);
            proof {
                assert forall|i0: int, j0: int|
                    0 <= i0 < i_count && 0 <= j0 < j_count
                        && i0 * j_count + j0 < out@.len() implies
                    #[trigger] candidate_at(out@[i0 * j_count + j0], name@, src_catalog@,
                        dst_catalog@, i0, j0) by {
                    assert(0 <= i0 * (j_count as int) + j0) by (nonlinear_arith)
                        requires 0 <= i0, 0 <= j0, 0 <= j_count;
                    if i0 * j_count + j0 < prev.len() {
                        assert(out@[i0 * j_count + j0] == prev[i0 * j_count + j0]);
                        assert(candidate_at(prev[i0 * j_count + j0], name@, src_catalog@,
                            dst_catalog@, i0, j0));
                    } else {
                        assert(i0 * (j_count as int) + j0 == i * (j_count as int) + j);
                        assert(i0 == i && j0 == j) by (nonlinear_arith)
                            requires
                                i0 * (j_count as int) + j0 == i * (j_count as int) + j,
                                0 <= j0 < j_count,
                                0 <= j < j_count,
                                0 <= i0,
                                0 <= i;
                        assert(out@[i0 * j_count + j0] == c);
                    }
                }
            }
            j = j + 1;
        }
        proof {
            assert(i * j_count + j_count == (i + 1) * j_count) by (nonlinear_arith);
        }
        i = i + 1;
    }
    proof {
        assert forall|i0: int, j0: int|
            0 <= i0 < src_catalog@.len() && 0 <= j0 < dst_catalog@.len() implies
            #[trigger] candidate_at(out@[i0 * dst_catalog@.len() + j0], name@,
                src_catalog@, dst_catalog@, i0, j0) by {
            lemma_grid_index_in_range(i_count as int, j_count as int, i0, j0);
            assert(i0 * (j_count as int) == i0 * dst_catalog@.len());
            assert(candidate_at(out@[i0 * j_count + j0], name@, src_catalog@, dst_catalog@,
                i0, j0));
        }
    }
    out
}

/// Generate the ordered candidate list for a one-operand instruction: one
/// candidate per catalog entry, at linear index `j`.
pub fn generate_candidates_one(name: &str, catalog: &Vec<OperandSpec>) -> (r: Vec<
    CandidateStatement,
>)
    ensures
        r@.len() == catalog@.len(),
        forall|j: int|
            0 <= j < catalog@.len() ==> {
                let c = #[trigger] r@[j];
                c.linear_index == j && c.src is None && c.dst == Some(catalog@[j])
                    && c.text@ == spec_statement_text(
                    name@,
                    None,
                    Some(catalog@[j].source_text@),
                )
            },
{
    let mut out: Vec<CandidateStatement> = Vec::new();
    let mut j: usize = 0;
    while j < catalog.len()
        invariant
            0 <= j <= catalog@.len(),
            out@.len() == j,
            forall|j0: int|
                0 <= j0 < j ==> {
                    let c = #[trigger] out@[j0];
                    c.linear_index == j0 && c.src is None && c.dst == Some(catalog@[j0])
                        && c.text@ == spec_statement_text(
                        name@,
                        None,
                        Some(catalog@[j0].source_text@),
                    )
                },
        decreases catalog@.len() - j,
    {
        let text = statement_text(name, None, Some(catalog[j].source_text.as_str()));
        out.push(CandidateStatement { src: None, dst: Some(catalog[j].clone()), linear_index: j, text });
        j = j + 1;
    }
    out
}

/// Generate the single synthetic candidate of a no-operand instruction: the
/// bare mnemonic at linear index 0.
pub fn generate_candidates_none(name: &str) -> (r: Vec<CandidateStatement>)
    ensures
        r@.len() == 1,
        r@[0].linear_index == 0,
        r@[0].src is None,
        r@[0].dst is None,
        r@[0].text@ == name@,
{
    let text = statement_text(name, None, None);
    let mut out: Vec<CandidateStatement> = Vec::new();
    out.push(CandidateStatement { src: None, dst: None, linear_index: 0, text });
    out
}

} // verus!
