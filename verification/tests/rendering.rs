use m68k_timing::descriptions::{check_affected, get_flag_status, render_cc_section, Description,
    Flag, FlagsDesc};
use m68k_timing::instructions::Instruction;
use m68k_timing::operands::{AddressingClass, OperandSpec};
use m68k_timing::render::decimal_text;
use m68k_timing::report::{display_mnemonic, render_instruction_header, render_instruction_report};
use m68k_timing::tables::{render_condition_codes, render_grid_table, render_list_table,
    render_noargs_table, render_predef_table};

fn op(text: &str, display: &str, class: AddressingClass, extra: u32) -> OperandSpec {
    OperandSpec::new(text.to_string(), display.to_string(), class, extra)
}

fn not_affected() -> FlagsDesc {
    FlagsDesc {
        x: Flag::NotAffected("X — Not Affected.".to_string()),
        n: Flag::NotAffected("N — Not Affected.".to_string()),
        z: Flag::NotAffected("Z — Not Affected.".to_string()),
        v: Flag::NotAffected("V — Not Affected.".to_string()),
        c: Flag::NotAffected("C — Not Affected.".to_string()),
    }
}

#[test]
fn decimal_formatting_is_exact() {
    assert_eq!(decimal_text(0), "0");
    assert_eq!(decimal_text(8), "8");
    assert_eq!(decimal_text(20), "20");
    assert_eq!(decimal_text(1234), "1234");
    assert_eq!(decimal_text(4294967295), "4294967295");
}

#[test]
fn flag_status_markers() {
    assert_eq!(get_flag_status(&Flag::SetIf("text".to_string())), "*");
    assert_eq!(get_flag_status(&Flag::Clear("text".to_string())), "0");
    assert_eq!(get_flag_status(&Flag::NotAffected("text".to_string())), "-");
    assert_eq!(get_flag_status(&Flag::Undefined), "U");
}

#[test]
fn check_affected_is_any_flag() {
    let none = not_affected();
    assert!(!check_affected(&none));
    let mut one = not_affected();
    one.z = Flag::Undefined;
    assert!(check_affected(&one));
}

#[test]
fn cc_section_skipped_when_no_flag_applies() {
    let lines = render_cc_section(&not_affected());
    assert_eq!(lines, vec!["### Condition Codes:", "", "Not affected.", ""]);
}

#[test]
fn cc_section_rendered_when_flags_apply() {
    let flags = FlagsDesc {
        x: Flag::SetIf("X - Set the same as carry".to_string()),
        n: Flag::Undefined,
        z: Flag::Clear("Z — Cleared if nonzero".to_string()),
        v: Flag::Undefined,
        c: Flag::SetIf("C — Set if carry".to_string()),
    };
    let lines = render_cc_section(&flags);
    assert_eq!(lines[0], "### Condition Codes:");
    assert_eq!(lines[1], "");
    assert_eq!(lines[2], "| X | N | Z | V | C |");
    assert_eq!(lines[3], "|---|---|---|---|---|");
    assert_eq!(lines[4], "| * | U | 0 | U | * |");
    assert_eq!(lines[5], "X - Set the same as carry  ");
    assert_eq!(lines[6], "N — Undefined  ");
    assert_eq!(lines[7], "Z — Cleared if nonzero  ");
    assert_eq!(lines[8], "V — Undefined  ");
    assert_eq!(lines[9], "C — Set if carry  ");
    assert_eq!(lines[10], "");
}

#[test]
fn grid_renders_expected_cells() {
    // the accepted register pair renders its cost, the rejected pair a hole
    let srcs = vec![
        op("d0", "Dn", AddressingClass::DataRegister, 0),
        op("a0", "An", AddressingClass::AddressRegister, 0),
    ];
    let dsts = vec![op("a0", "An", AddressingClass::AddressRegister, 0)];
    let cells = vec![Some(8u32), None];
    let lines = render_grid_table("add", &cells, &srcs, &dsts);
    assert_eq!(lines[0], "| add      | An |");
    assert_eq!(lines[1], "|----------|----|");
    assert_eq!(lines[2], "| Dn       | 8  |");
    assert_eq!(lines.len(), 4);
    assert_eq!(lines[3], "");
}

#[test]
fn grid_omits_row_with_no_values_only() {
    let srcs = vec![
        op("d0", "Dn", AddressingClass::DataRegister, 0),
        op("a0", "An", AddressingClass::AddressRegister, 0),
    ];
    let dsts = vec![
        op("d0", "Dn", AddressingClass::DataRegister, 0),
        op("(a0)", "(An)", AddressingClass::Memory, 4),
    ];
    // row Dn: all holes; row An: one value and one hole
    let cells = vec![None, None, Some(12u32), None];
    let lines = render_grid_table("add", &cells, &srcs, &dsts);
    assert_eq!(lines.len(), 4);
    assert_eq!(lines[0], "| add      | Dn | (An) |");
    assert_eq!(lines[1], "|----------|----|------|");
    assert_eq!(lines[2], "| An       | 12 |  *   |");
    assert_eq!(lines[3], "");
}

#[test]
fn grid_fully_rejected_renders_nothing() {
    let srcs = vec![op("d0", "Dn", AddressingClass::DataRegister, 0)];
    let dsts = vec![op("a0", "An", AddressingClass::AddressRegister, 0)];
    let cells = vec![None];
    let lines = render_grid_table("add", &cells, &srcs, &dsts);
    assert!(lines.is_empty());
}

#[test]
fn list_table_renders_holes_in_place() {
    let dsts = vec![
        op("d0", "Dn", AddressingClass::DataRegister, 0),
        op("(a0)", "(An)", AddressingClass::Memory, 4),
    ];
    let cells = vec![Some(4u32), None];
    let lines = render_list_table("clr", &cells, &dsts);
    assert_eq!(lines[0], "| clr      | Dn | (An) |");
    assert_eq!(lines[1], "|----------|----|------|");
    assert_eq!(lines[2], "|          | 4  |  *   |");
    assert_eq!(lines[3], "");
}

#[test]
fn noargs_table_renders_single_cell() {
    let cells = vec![Some(4u32)];
    let lines = render_noargs_table("nop", &cells);
    assert_eq!(lines[0], "| nop | 4 |");
    assert_eq!(lines[1], "|-----|----|");
    assert_eq!(lines[2], "");
}

#[test]
fn predef_table_lays_out_columns() {
    let table = vec![
        vec!["Dn".to_string(), "An".to_string()],
        vec!["#1".to_string(), "8".to_string(), "*".to_string()],
    ];
    let lines = render_predef_table("asl", &table);
    assert_eq!(lines[0], "| asl | Dn | An |");
    assert_eq!(lines[1], "|-----|----|----|");
    assert_eq!(lines[2], "| #1  | 8  | *  |");
    assert_eq!(lines[3], "");
}

#[test]
fn condition_codes_table_lays_out_columns() {
    let table = vec![
        vec!["Mnemonic".to_string(), "Condition".to_string()],
        vec!["EQ".to_string(), "Equal".to_string()],
    ];
    let lines = render_condition_codes(&table);
    assert_eq!(lines[0], "| Mnemonic | Condition |");
    assert_eq!(lines[1], "|----------|-----------|");
    assert_eq!(lines[2], "| EQ       | Equal     |");
    assert_eq!(lines[3], "");
}

#[test]
fn mnemonic_headings_use_the_exception_list() {
    assert_eq!(display_mnemonic("add"), "ADD");
    assert_eq!(display_mnemonic("bcc"), "Bcc");
    assert_eq!(display_mnemonic("scc"), "Scc");
    assert_eq!(display_mnemonic("dbcc"), "DBcc");
}

#[test]
fn header_without_description() {
    let inst = Instruction { name: "add".to_string(), ..Default::default() };
    let lines = render_instruction_header(&inst);
    assert_eq!(lines, vec!["## ADD", "", "__No Description__", ""]);
}

#[test]
fn header_with_description() {
    let inst = Instruction {
        name: "bcc".to_string(),
        desc: Some(Description {
            description: "D".to_string(),
            operation: "X".to_string(),
            assembler: vec!["a1".to_string()],
            attributes: "W".to_string(),
            flags: not_affected(),
        }),
        ..Default::default()
    };
    let lines = render_instruction_header(&inst);
    assert_eq!(lines[0], "## Bcc");
    assert_eq!(lines[1], "");
    assert_eq!(lines[2], "**Operation:**      X");
    assert_eq!(lines[3], "");
    assert_eq!(lines[4], "| Assembler Syntax | a1 |");
    assert_eq!(lines[5], "|------------------|----|");
    assert_eq!(lines[6], "");
    assert_eq!(lines[7], "**Attributes:** Size = (W)");
    assert_eq!(lines[8], "");
    assert_eq!(lines[9], "**Description:** D");
    assert_eq!(lines[10], "");
    assert_eq!(lines[11], "### Condition Codes:");
    assert_eq!(lines[12], "");
    assert_eq!(lines[13], "Not affected.");
    assert_eq!(lines[14], "");
    assert_eq!(lines[15], "### Instruction Execution Times:");
    assert_eq!(lines.len(), 16);
}

#[test]
fn report_renders_both_size_tables_with_expected_cells() {
    // the rendered cell is 8 in both the word and the long grid, at row Dn
    // and column An
    let srcs = vec![op("d0", "Dn", AddressingClass::DataRegister, 0)];
    let dsts = vec![op("a0", "An", AddressingClass::AddressRegister, 0)];
    let inst = Instruction {
        name: "add".to_string(),
        matrix: Some(vec![srcs, dsts]),
        ..Default::default()
    };
    let word_cells = vec![Some(8u32)];
    let long_cells = vec![Some(8u32)];
    let lines = render_instruction_report(&inst, &word_cells, &long_cells);
    assert_eq!(lines[0], "## ADD");
    assert_eq!(lines[1], "");
    assert_eq!(lines[2], "__No Description__");
    assert_eq!(lines[3], "");
    // word grid
    assert_eq!(lines[4], "| add      | An |");
    assert_eq!(lines[5], "|----------|----|");
    assert_eq!(lines[6], "| Dn       | 8  |");
    assert_eq!(lines[7], "");
    // long grid under the .l-suffixed mnemonic
    assert_eq!(lines[8], "| add.l    | An |");
    assert_eq!(lines[9], "|----------|----|");
    assert_eq!(lines[10], "| Dn       | 8  |");
    assert_eq!(lines[11], "");
}

#[test]
fn report_with_override_skips_generated_tables() {
    let over = vec![
        vec!["Dn".to_string()],
        vec!["#1".to_string(), "8".to_string()],
    ];
    let inst = Instruction {
        name: "asl".to_string(),
        override_output_w: Some(over),
        ..Default::default()
    };
    assert!(inst.has_override());
    let none: Vec<Option<u32>> = vec![Some(1)];
    let lines = render_instruction_report(&inst, &none, &none);
    assert_eq!(lines[4], "| asl | Dn |");
    assert_eq!(lines[5], "|-----|----|");
    assert_eq!(lines[6], "| #1  | 8  |");
    assert_eq!(lines[7], "");
}
