use m68k_timing::Size;
use m68k_timing::candidates::generate_candidates_two;
use m68k_timing::engine::{analytical_costs, analytical_matrix, validate_rules};
use m68k_timing::legality::{classify_assembler_outcome, concat_accepted_bytes, OracleResult};
use m68k_timing::operands::{AddressingClass, OperandSpec};
use m68k_timing::reconcile::reconcile;
use m68k_timing::rules::CycleRule;

fn op(text: &str, display: &str, class: AddressingClass, extra: u32) -> OperandSpec {
    OperandSpec::new(text.to_string(), display.to_string(), class, extra)
}

fn rule(src: AddressingClass, dst: AddressingClass, w: u32, l: u32) -> CycleRule {
    CycleRule { source_class: src, dest_class: dst, word_cycles: w, long_cycles: l }
}

fn accepted() -> OracleResult {
    OracleResult::Accepted(vec![0u8, 1u8])
}

#[test]
fn classify_accepts_only_success_with_bytes() {
    assert!(classify_assembler_outcome(true, Some(vec![1, 2])).accepted());
    assert!(!classify_assembler_outcome(true, Some(Vec::new())).accepted());
    assert!(!classify_assembler_outcome(true, None).accepted());
    assert!(!classify_assembler_outcome(false, Some(vec![1, 2])).accepted());
}

#[test]
fn concat_keeps_submission_order_and_counts_accepted() {
    let results = vec![
        OracleResult::Accepted(vec![0xAA, 0xBB]),
        OracleResult::Rejected,
        OracleResult::Accepted(vec![0xCC]),
    ];
    let (buffer, count) = concat_accepted_bytes(&results);
    assert_eq!(buffer, vec![0xAA, 0xBB, 0xCC]);
    assert_eq!(count, 2);
}

#[test]
fn reconcile_scatters_by_linear_index() {
    let srcs = vec![
        op("d0", "Dn", AddressingClass::DataRegister, 0),
        op("a0", "An", AddressingClass::AddressRegister, 0),
    ];
    let dsts = vec![
        op("d0", "Dn", AddressingClass::DataRegister, 0),
        op("(a0)", "(An)", AddressingClass::Memory, 4),
    ];
    let cands = generate_candidates_two("add", &srcs, &dsts);
    // reject candidates 1 and 2; the measurement array has two entries only
    let results = vec![accepted(), OracleResult::Rejected, OracleResult::Rejected, accepted()];
    let measurements = vec![8u32, 12u32];
    let m = reconcile(&cands, &results, &measurements);
    assert_eq!(m, vec![Some(8), None, None, Some(12)]);
}

#[test]
fn reconcile_twice_gives_identical_matrices() {
    let srcs = vec![op("d0", "Dn", AddressingClass::DataRegister, 0)];
    let dsts = vec![
        op("d0", "Dn", AddressingClass::DataRegister, 0),
        op("(a0)", "(An)", AddressingClass::Memory, 4),
    ];
    let cands = generate_candidates_two("add", &srcs, &dsts);
    let results = vec![OracleResult::Rejected, accepted()];
    let measurements = vec![12u32];
    let first = reconcile(&cands, &results, &measurements);
    let second = reconcile(&cands, &results, &measurements);
    assert_eq!(first, second);
}

#[test]
fn analytical_add_register_to_address_register() {
    // instruction ADD, rule (Any, AddressRegister) -> (8, 8);
    // source Dn and destination An are registers: no penalties anywhere.
    let srcs = vec![op("d0", "Dn", AddressingClass::DataRegister, 0)];
    let dsts = vec![op("a0", "An", AddressingClass::AddressRegister, 0)];
    let rules = vec![
        rule(AddressingClass::Any, AddressingClass::AddressRegister, 8, 8),
        rule(AddressingClass::Any, AddressingClass::Any, 4, 6),
    ];
    let cands = generate_candidates_two("add", &srcs, &dsts);
    let results = vec![accepted()];
    let word = analytical_matrix(&cands, &results, &rules, Size::Word).unwrap();
    let long = analytical_matrix(&cands, &results, &rules, Size::Long).unwrap();
    assert_eq!(word, vec![Some(8)]);
    assert_eq!(long, vec![Some(8)]);
}

#[test]
fn analytical_immediate_to_memory_long_penalty_is_memory_only() {
    // source #xxx (immediate, extra 4), destination (An)+ (memory, extra 4),
    // rule (Immediate, Memory) -> (8, 8): word 8+4+4 = 16;
    // long 8+4+4+4 = 20 - only the memory destination pays the long
    // penalty, the immediate source does not despite its nonzero extra.
    let srcs = vec![op("#8", "#xxx", AddressingClass::Immediate, 4)];
    let dsts = vec![op("(a0)+", "(An)+", AddressingClass::Memory, 4)];
    let rules = vec![
        rule(AddressingClass::Immediate, AddressingClass::Memory, 8, 8),
        rule(AddressingClass::Any, AddressingClass::Any, 4, 6),
    ];
    let cands = generate_candidates_two("add", &srcs, &dsts);
    let results = vec![accepted()];
    let word = analytical_matrix(&cands, &results, &rules, Size::Word).unwrap();
    let long = analytical_matrix(&cands, &results, &rules, Size::Long).unwrap();
    assert_eq!(word, vec![Some(16)]);
    assert_eq!(long, vec![Some(20)]);
}

#[test]
fn first_matching_rule_wins() {
    // both rules match a (DataRegister, DataRegister) pair; the first one,
    // declared earlier, must win over the wildcard.
    let srcs = vec![op("d0", "Dn", AddressingClass::DataRegister, 0)];
    let dsts = vec![op("d1", "Dn", AddressingClass::DataRegister, 0)];
    let rules = vec![
        rule(AddressingClass::DataRegister, AddressingClass::DataRegister, 4, 6),
        rule(AddressingClass::Any, AddressingClass::Any, 100, 100),
    ];
    let cands = generate_candidates_two("move", &srcs, &dsts);
    let results = vec![accepted()];
    let word = analytical_matrix(&cands, &results, &rules, Size::Word).unwrap();
    assert_eq!(word, vec![Some(4)]);
}

#[test]
fn rejected_candidates_are_not_priced() {
    let srcs = vec![op("d0", "Dn", AddressingClass::DataRegister, 0)];
    let dsts = vec![
        op("a0", "An", AddressingClass::AddressRegister, 0),
        op("(a0)", "(An)", AddressingClass::Memory, 4),
    ];
    let rules = vec![rule(AddressingClass::Any, AddressingClass::Any, 8, 8)];
    let cands = generate_candidates_two("add", &srcs, &dsts);
    let results = vec![OracleResult::Rejected, accepted()];
    let costs = analytical_costs(&cands, &results, &rules, Size::Word).unwrap();
    assert_eq!(costs, vec![12]);
    let m = analytical_matrix(&cands, &results, &rules, Size::Word).unwrap();
    assert_eq!(m, vec![None, Some(12)]);
}

#[test]
fn missing_rule_reports_candidate_index() {
    let srcs = vec![op("d0", "Dn", AddressingClass::DataRegister, 0)];
    let dsts = vec![
        op("a0", "An", AddressingClass::AddressRegister, 0),
        op("(a0)", "(An)", AddressingClass::Memory, 4),
    ];
    // no wildcard: the memory destination has no matching rule
    let rules = vec![rule(AddressingClass::Any, AddressingClass::AddressRegister, 8, 8)];
    let cands = generate_candidates_two("add", &srcs, &dsts);
    let results = vec![accepted(), accepted()];
    let err = analytical_matrix(&cands, &results, &rules, Size::Word).unwrap_err();
    assert_eq!(err.candidate_index, 1);
}

#[test]
fn validate_rules_detects_catch_all() {
    let with = vec![
        rule(AddressingClass::DataRegister, AddressingClass::Memory, 8, 8),
        rule(AddressingClass::Any, AddressingClass::Any, 4, 6),
    ];
    let without = vec![rule(AddressingClass::Any, AddressingClass::Memory, 8, 8)];
    assert!(validate_rules(&with));
    assert!(!validate_rules(&without));
}

#[test]
fn sizes_are_reconciled_from_their_own_results() {
    // the same combination is rejected in word form but accepted in long
    // form: each size's matrix reflects its own oracle pass only.
    let srcs = vec![op("d0", "Dn", AddressingClass::DataRegister, 0)];
    let dsts = vec![op("a0", "An", AddressingClass::AddressRegister, 0)];
    let rules = vec![rule(AddressingClass::Any, AddressingClass::Any, 8, 10)];
    let word_cands = generate_candidates_two("add", &srcs, &dsts);
    let long_cands = generate_candidates_two("add.l", &srcs, &dsts);
    let word_results = vec![OracleResult::Rejected];
    let long_results = vec![accepted()];
    let word = analytical_matrix(&word_cands, &word_results, &rules, Size::Word).unwrap();
    let long = analytical_matrix(&long_cands, &long_results, &rules, Size::Long).unwrap();
    assert_eq!(word, vec![None]);
    assert_eq!(long, vec![Some(10)]);
}
