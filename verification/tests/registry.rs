use m68k_timing::candidates::{size_variant_name, statement_text};
use m68k_timing::instructions::Instruction;
use m68k_timing::legality::{concat_accepted_bytes, OracleResult};
use m68k_timing::operands::{AddressingClass, OperandSpec};
use m68k_timing::reconcile::reconcile;
use m68k_timing::Size;

#[test]
fn operand_spec_keeps_its_fields() {
    let o = OperandSpec::new(
        "(a0)+".to_string(),
        "(An)+".to_string(),
        AddressingClass::Memory,
        4,
    );
    assert_eq!(o.source_text, "(a0)+");
    assert_eq!(o.display_name, "(An)+");
    assert_eq!(o.addressing_class, AddressingClass::Memory);
    assert_eq!(o.base_extra_cycles, 4);
}

#[test]
fn default_instruction_has_no_override() {
    let inst = Instruction::default();
    assert!(!inst.has_override());
    assert_eq!(inst.name, "");
    assert!(inst.desc.is_none());
    assert!(inst.matrix.is_none());
}

#[test]
fn any_override_table_counts_as_override() {
    let table = vec![vec!["Dn".to_string()]];
    let b = Instruction { override_output_b: Some(table.clone()), ..Default::default() };
    let w = Instruction { override_output_w: Some(table.clone()), ..Default::default() };
    let l = Instruction { override_output_l: Some(table), ..Default::default() };
    assert!(b.has_override());
    assert!(w.has_override());
    assert!(l.has_override());
}

#[test]
fn size_suffix_only_on_long() {
    assert_eq!(size_variant_name("add", Size::Word), "add");
    assert_eq!(size_variant_name("add", Size::Long), "add.l");
}

#[test]
fn statement_text_by_arity() {
    assert_eq!(statement_text("add", Some("d0"), Some("(a0)")), "add d0,(a0)");
    assert_eq!(statement_text("clr", None, Some("d0")), "clr d0");
    assert_eq!(statement_text("nop", None, None), "nop");
}

#[test]
fn concat_of_fully_rejected_batch_is_empty() {
    let results = vec![OracleResult::Rejected, OracleResult::Rejected];
    let (buffer, count) = concat_accepted_bytes(&results);
    assert!(buffer.is_empty());
    assert_eq!(count, 0);
}

#[test]
fn reconcile_of_empty_batch_is_empty() {
    let m = reconcile(&Vec::new(), &Vec::new(), &Vec::new());
    assert!(m.is_empty());
}
