use m68k_timing::candidates::{
    generate_candidates_none, generate_candidates_one, generate_candidates_two,
};
use m68k_timing::operands::{AddressingClass, OperandSpec};

fn op(text: &str, display: &str, class: AddressingClass, extra: u32) -> OperandSpec {
    OperandSpec::new(text.to_string(), display.to_string(), class, extra)
}

fn small_src_catalog() -> Vec<OperandSpec> {
    vec![
        op("d0", "Dn", AddressingClass::DataRegister, 0),
        op("a0", "An", AddressingClass::AddressRegister, 0),
        op("#8", "#xxx", AddressingClass::Immediate, 4),
    ]
}

fn small_dst_catalog() -> Vec<OperandSpec> {
    vec![
        op("d0", "Dn", AddressingClass::DataRegister, 0),
        op("(a0)+", "(An)+", AddressingClass::Memory, 4),
    ]
}

#[test]
fn two_operand_count_is_product_of_catalogs() {
    let srcs = small_src_catalog();
    let dsts = small_dst_catalog();
    let cands = generate_candidates_two("add", &srcs, &dsts);
    assert_eq!(cands.len(), srcs.len() * dsts.len());
}

#[test]
fn one_operand_count_is_catalog_length() {
    let dsts = small_dst_catalog();
    let cands = generate_candidates_one("clr", &dsts);
    assert_eq!(cands.len(), dsts.len());
}

#[test]
fn no_operand_generates_one_candidate() {
    let cands = generate_candidates_none("nop");
    assert_eq!(cands.len(), 1);
    assert_eq!(cands[0].text, "nop");
    assert_eq!(cands[0].linear_index, 0);
}

#[test]
fn linear_index_resolves_to_catalog_pair() {
    let srcs = small_src_catalog();
    let dsts = small_dst_catalog();
    let j = dsts.len();
    let cands = generate_candidates_two("add", &srcs, &dsts);
    for i in 0..srcs.len() {
        for jj in 0..j {
            let c = &cands[i * j + jj];
            assert_eq!(c.linear_index, i * j + jj);
            assert_eq!(c.src.as_ref().unwrap().source_text, srcs[i].source_text);
            assert_eq!(c.dst.as_ref().unwrap().source_text, dsts[jj].source_text);
        }
    }
    // spot-check a full statement text
    assert_eq!(cands[1 * j + 1].text, "add a0,(a0)+");
}

#[test]
fn long_variant_carries_size_suffix() {
    let srcs = small_src_catalog();
    let dsts = small_dst_catalog();
    let cands = generate_candidates_two("add.l", &srcs, &dsts);
    assert_eq!(cands[0].text, "add.l d0,d0");
}

#[test]
fn one_operand_statement_text() {
    let dsts = small_dst_catalog();
    let cands = generate_candidates_one("clr", &dsts);
    assert_eq!(cands[0].text, "clr d0");
    assert_eq!(cands[1].text, "clr (a0)+");
    assert_eq!(cands[1].linear_index, 1);
}

#[test]
fn empty_catalog_product_is_empty() {
    let srcs: Vec<OperandSpec> = Vec::new();
    let dsts = small_dst_catalog();
    let cands = generate_candidates_two("add", &srcs, &dsts);
    assert_eq!(cands.len(), 0);
}
