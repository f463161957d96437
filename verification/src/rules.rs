//! The analytical cost model: ordered cycle rules with first-match semantics.
//!
//! A rule pairs a source-class pattern and a destination-class pattern with a
//! base cycle count per operand size. Matching a candidate walks the rule
//! list in declaration order and the first matching rule wins; wildcard
//! (`Any`) patterns are expected to be declared last. The cost of an accepted
//! candidate is the matched rule's base count for the size, plus each
//! operand's effective-address cycles, plus a 4-cycle long-word penalty per
//! operand whose addressing class routes through memory.

use vstd::prelude::*;
use crate::Size;
use crate::operands::AddressingClass;
use crate::operands::OperandSpec;

verus! {

/// One entry of the analytical model: class patterns (with `Any` as a
/// wildcard) and the base cycle counts for the word and long size variants.
#[derive(Clone, Copy)]
pub struct CycleRule {
    pub source_class: AddressingClass,
    pub dest_class: AddressingClass,
    pub word_cycles: u32,
    pub long_cycles: u32,
}

impl CycleRule {
    pub open spec fn spec_cycles_for(&self, size: Size) -> u32 {
        match size {
            Size::Word => self.word_cycles,
            Size::Long => self.long_cycles,
        }
    }

    /// The rule's base cycle count for one size variant.
    pub fn cycles_for(&self, size: Size) -> (r: u32)
        ensures
            r == self.spec_cycles_for(size),
    {
        match size {
            Size::Word => self.word_cycles,
            Size::Long => self.long_cycles,
        }
    }
}

/// Whether a rule pattern accepts the class of one operand position.
/// An absent operand (arity below two) is accepted only by the wildcard.
pub open spec fn spec_pattern_matches(pattern: AddressingClass, class: Option<AddressingClass>)
    -> bool {
    match class {
        Some(c) => pattern == AddressingClass::Any || pattern == c,
        None => pattern == AddressingClass::Any,
    }
}

fn pattern_matches(pattern: AddressingClass, class: Option<AddressingClass>) -> (r: bool)
    ensures
        r == spec_pattern_matches(pattern, class),
{
    match class {
        Some(c) => matches!(pattern, AddressingClass::Any) || pattern == c,
        None => matches!(pattern, AddressingClass::Any),
    }
}

/// Whether a rule accepts a candidate's pair of operand classes.
pub open spec fn spec_rule_matches(
    rule: CycleRule,
    src: Option<AddressingClass>,
    dst: Option<AddressingClass>,
) -> bool {
    spec_pattern_matches(rule.source_class, src) && spec_pattern_matches(rule.dest_class, dst)
}

/// The position of the first rule that accepts the operand classes, if any.
pub open spec fn spec_first_match(
    rules: Seq<CycleRule>,
    src: Option<AddressingClass>,
    dst: Option<AddressingClass>,
) -> Option<int>
    decreases rules.len(),
{
    if rules.len() == 0 {
        None
    } else if spec_rule_matches(rules[0], src, dst) {
        Some(0int)
    } else {
        match spec_first_match(rules.skip(1), src, dst) {
            Some(i) => Some(i + 1),
            None => None,
        }
    }
}

/// The first match is a match, no earlier rule matches, and a match is
/// found whenever any rule matches.
pub proof fn lemma_first_match_characterization(
    rules: Seq<CycleRule>,
    src: Option<AddressingClass>,
    dst: Option<AddressingClass>,
)
    ensures
        match spec_first_match(rules, src, dst) {
            Some(i) => 0 <= i < rules.len() && spec_rule_matches(rules[i], src, dst)
                && (forall|m: int| 0 <= m < i ==> !spec_rule_matches(rules[m], src, dst)),
            None => forall|m: int|
                0 <= m < rules.len() ==> !spec_rule_matches(rules[m], src, dst),
        },
    decreases rules.len(),
{
    if rules.len() > 0 && !spec_rule_matches(rules[0], src, dst) {
        let rest = rules.skip(1);
        lemma_first_match_characterization(rest, src, dst);
        match spec_first_match(rest, src, dst) {
            Some(i) => {
                assert(rest[i] == rules[i + 1]);
                assert forall|m: int| 0 <= m < i + 1 implies
                    !spec_rule_matches(rules[m], src, dst) by {
                    if m > 0 {
                        assert(rules[m] == rest[m - 1]);
                    }
                }
            },
            None => {
                assert forall|m: int| 0 <= m < rules.len() implies
                    !spec_rule_matches(rules[m], src, dst) by {
                    if m > 0 {
                        assert(rules[m] == rest[m - 1]);
                    }
                }
            },
        }
    }
}

/// Walk the rules in declaration order; the first matching rule wins.
pub fn find_first_match(
    rules: &Vec<CycleRule>,
    src: Option<AddressingClass>,
    dst: Option<AddressingClass>,
) -> (r: Option<usize>)
    ensures
        match r {
            Some(i) => Some(i as int) == spec_first_match(rules@, src, dst),
            None => spec_first_match(rules@, src, dst) is None,
        },
{
    let mut k: usize = 0;
    while k < rules.len()
        invariant
            0 <= k <= rules@.len(),
            forall|m: int| 0 <= m < k ==> !spec_rule_matches(rules@[m], src, dst),
        decreases rules@.len() - k,
    {
        if pattern_matches(rules[k].source_class, src)
            && pattern_matches(rules[k].dest_class, dst) {
            proof {
                lemma_first_match_characterization(rules@, src, dst);
                lemma_first_match_unique(rules@, src, dst, k as int);
            }
            return Some(k);
        }
        k = k + 1;
    }
    proof {
        lemma_first_match_characterization(rules@, src, dst);
    }
    None
}

/// Any position that matches while no earlier one does is the first match.
proof fn lemma_first_match_unique(
    rules: Seq<CycleRule>,
    src: Option<AddressingClass>,
    dst: Option<AddressingClass>,
    i: int,
)
    requires
        0 <= i < rules.len(),
        spec_rule_matches(rules[i], src, dst),
        forall|m: int| 0 <= m < i ==> !spec_rule_matches(rules[m], src, dst),
    ensures
        spec_first_match(rules, src, dst) == Some(i),
{
    lemma_first_match_characterization(rules, src, dst);
}

/// The addressing class of an optional operand.
pub open spec fn spec_class_of(op: Option<OperandSpec>) -> Option<AddressingClass> {
    match op {
        Some(o) => Some(o.addressing_class),
        None => None,
    }
}

/// The effective-address cycles an optional operand contributes.
pub open spec fn spec_extra_of(op: Option<OperandSpec>) -> int {
    match op {
        Some(o) => o.base_extra_cycles as int,
        None => 0,
    }
}

/// The long-word bus penalty of one operand position: 4 extra cycles for the
/// second 32-bit access, paid only by operands whose class routes through
/// memory — never by registers or immediates.
pub open spec fn spec_long_penalty(op: Option<OperandSpec>, size: Size) -> int {
    match op {
        Some(o) => if size == Size::Long && o.addressing_class == AddressingClass::Memory {
            4int
        } else {
            0int
        },
        None => 0,
    }
}

/// The analytical cost of a candidate under a matched rule.
pub open spec fn spec_rule_cost(
    rule: CycleRule,
    src: Option<OperandSpec>,
    dst: Option<OperandSpec>,
    size: Size,
) -> int {
    rule.spec_cycles_for(size) + spec_extra_of(src) + spec_extra_of(dst)
        + spec_long_penalty(src, size) + spec_long_penalty(dst, size)
}

/// Compute the analytical cost of a candidate from its matched rule.
pub fn rule_cost(
    rule: &CycleRule,
    src: Option<&OperandSpec>,
    dst: Option<&OperandSpec>,
    size: Size,
) -> (r: u32)
    requires
        spec_rule_cost(*rule, opt_deref(src), opt_deref(dst), size) <= u32::MAX,
    ensures
        r == spec_rule_cost(*rule, opt_deref(src), opt_deref(dst), size),
{
    let base = rule.cycles_for(size);
    let src_extra = operand_cost(src, size);
    let dst_extra = operand_cost(dst, size);
    base + src_extra + dst_extra
}

/// For operand pairs whose effective-address cost is positive exactly when
/// the addressing class routes through memory — which holds of every catalog
/// entry except immediate operands — the analytical cost takes the
/// documented reference form: the matched rule's count for the size, plus
/// each operand's extra cycles, plus 4 per operand with positive extra
/// cycles when operating on the long size. Immediate operands fall outside
/// this form: their extra cycles are positive yet they never pay the
/// long-word penalty.
pub proof fn lemma_cost_reference_form(
    rule: CycleRule,
    src: OperandSpec,
    dst: OperandSpec,
    size: Size,
)
    requires
        (src.base_extra_cycles > 0) <==> (src.addressing_class == AddressingClass::Memory),
        (dst.base_extra_cycles > 0) <==> (dst.addressing_class == AddressingClass::Memory),
    ensures
        spec_rule_cost(rule, Some(src), Some(dst), size) == rule.spec_cycles_for(size)
            + src.base_extra_cycles + dst.base_extra_cycles + (
        if size == Size::Long && src.base_extra_cycles > 0 {
            4int
        } else {
            0int
        }) + (
        if size == Size::Long && dst.base_extra_cycles > 0 {
            4int
        } else {
            0int
        }),
{
}

/// The operand specs behind optional references.
pub open spec fn opt_deref(op: Option<&OperandSpec>) -> Option<OperandSpec> {
    match op {
        Some(o) => Some(*o),
        None => None,
    }
}

/// One operand's full contribution: effective-address cycles plus the
/// long-word memory penalty.
fn operand_cost(op: Option<&OperandSpec>, size: Size) -> (r: u32)
    requires
        spec_extra_of(opt_deref(op)) + spec_long_penalty(opt_deref(op), size) <= u32::MAX,
    ensures
        r == spec_extra_of(opt_deref(op)) + spec_long_penalty(opt_deref(op), size),
{
    match op {
        Some(o) => {
            let penalty: u32 = if matches!(size, Size::Long)
                && matches!(o.addressing_class, AddressingClass::Memory) {
                4
            } else {
                0
            };
            o.base_extra_cycles + penalty
        },
        None => 0,
    }
}

} // verus!
