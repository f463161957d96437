//! Instruction timing matrix generator for the M68000.
//!
//! For each instruction mnemonic the library enumerates every combination of
//! supported operand addressing modes, classifies the verdict of an external
//! assembler (the legality oracle) per combination, attaches a cycle cost to
//! each legal combination — either from an external cycle-accurate core or
//! from an analytical bus-cycle rule engine — and scatters the sparse results
//! back onto the dense operand grid for tabular rendering.
//!
//! The external oracles themselves (assembler subprocess, cycle-accurate
//! core) live outside this crate; the library works on plain values that the
//! surrounding program hands in and takes back.

use vstd::prelude::*;

pub mod operands;
pub mod rules;
pub mod candidates;
pub mod legality;
pub mod reconcile;
pub mod engine;
pub mod descriptions;
pub mod instructions;
pub mod render;
pub mod tables;
pub mod report;

verus! {

/// The views of a list of rendered lines.
pub open spec fn lines_view(lines: Seq<String>) -> Seq<Seq<char>> {
    lines.map_values(|s: String| s@)
}

/// An operand size variant of an instruction.
#[derive(Clone, Copy, PartialEq, Eq, Structural, Debug)]
pub enum Size {
    Word,
    Long,
}

} // verus!
