//! Operand specifications and their addressing classes.
//!
//! An operand specification pairs the raw assembler text of an addressing
//! mode with its display name, its addressing class and the bus-cycle cost of
//! computing its effective address. The catalogs of such specifications are
//! immutable inputs; every candidate statement draws its operands from them.

use vstd::prelude::*;

verus! {

/// The access-pattern category of an addressing mode, used for rule matching.
///
/// `Any` is a match-only wildcard: it may appear in a cycle rule's patterns
/// but never as the class of a concrete operand.
#[derive(Clone, Copy, PartialEq, Eq, Structural, Debug)]
pub enum AddressingClass {
    DataRegister,
    AddressRegister,
    Memory,
    Immediate,
    Any,
}

/// One addressing mode an operand can take: its assembler text, the name
/// shown in table headers, its class, and the bus-cycle cost of its
/// effective-address calculation (0 for registers, larger for memory forms).
pub struct OperandSpec {
    pub source_text: String,
    pub display_name: String,
    pub addressing_class: AddressingClass,
    pub base_extra_cycles: u32,
}

impl OperandSpec {
    /// A concrete operand never carries the wildcard class, register operands
    /// cost no extra bus cycles, and no addressing mode costs more than 12.
    pub open spec fn wf(&self) -> bool {
        &&& self.addressing_class != AddressingClass::Any
        &&& (self.addressing_class == AddressingClass::DataRegister
            || self.addressing_class == AddressingClass::AddressRegister)
            ==> self.base_extra_cycles == 0
        &&& self.base_extra_cycles <= 12
    }

    pub fn new(
        source_text: String,
        display_name: String,
        addressing_class: AddressingClass,
        base_extra_cycles: u32,
    ) -> (r: OperandSpec)
        requires
            addressing_class != AddressingClass::Any,
            (addressing_class == AddressingClass::DataRegister
                || addressing_class == AddressingClass::AddressRegister)
                ==> base_extra_cycles == 0,
            base_extra_cycles <= 12,
        ensures
            r.wf(),
            r.source_text == source_text,
            r.display_name == display_name,
            r.addressing_class == addressing_class,
            r.base_extra_cycles == base_extra_cycles,
    {
        OperandSpec { source_text, display_name, addressing_class, base_extra_cycles }
    }
}

impl Clone for OperandSpec {
    fn clone(&self) -> (r: Self)
        ensures
            r == *self,
    {
        OperandSpec {
            source_text: self.source_text.clone(),
            display_name: self.display_name.clone(),
            addressing_class: self.addressing_class,
            base_extra_cycles: self.base_extra_cycles,
        }
    }
}

/// Every entry of an operand catalog is well formed.
pub open spec fn catalog_wf(catalog: Seq<OperandSpec>) -> bool {
    forall|i: int| 0 <= i < catalog.len() ==> #[trigger] catalog[i].wf()
}

} // verus!
