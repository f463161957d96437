//! Instruction definitions: the immutable registry entries.
//!
//! An instruction names its mnemonic, optionally carries its descriptive
//! record, its operand catalogs (none for override-only entries, one catalog
//! per operand otherwise), an optional condition-code reference table, and
//! optional documented override tables per operand size. An instruction with
//! any override table renders those tables verbatim instead of consulting
//! the oracles.

use vstd::prelude::*;
use crate::descriptions::Description;
use crate::operands::OperandSpec;

verus! {

/// One entry of the instruction registry, never mutated after construction.
pub struct Instruction {
    pub name: String,
    pub desc: Option<Description>,
    pub matrix: Option<Vec<Vec<OperandSpec>>>,
    pub cc_codes: Option<Vec<Vec<String>>>,
    pub override_output_b: Option<Vec<Vec<String>>>,
    pub override_output_w: Option<Vec<Vec<String>>>,
    pub override_output_l: Option<Vec<Vec<String>>>,
}

impl Instruction {
    /// Whether any documented override table replaces oracle-driven timing.
    pub open spec fn spec_has_override(&self) -> bool {
        self.override_output_b is Some || self.override_output_w is Some
            || self.override_output_l is Some
    }

    /// Whether this instruction's timing comes from documented override
    /// tables rather than from the oracles.
    pub fn has_override(&self) -> (r: bool)
        ensures
            r == self.spec_has_override(),
    {
        self.override_output_b.is_some() || self.override_output_w.is_some()
            || self.override_output_l.is_some()
    }
}

impl Default for Instruction {
    /// An empty registry entry: nameless, with no description, catalogs,
    /// reference table or overrides.
    fn default() -> (r: Self)
        ensures
            r.name@ == Seq::<char>::empty(),
            r.desc is None,
            r.matrix is None,
            r.cc_codes is None,
            !r.spec_has_override(),
    {
        Instruction {
            name: String::new(),
            desc: None,
            matrix: None,
            cc_codes: None,
            override_output_b: None,
            override_output_w: None,
            override_output_l: None,
        }
    }
}

} // verus!
