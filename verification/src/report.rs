//! The per-instruction report: heading, descriptive sections and the
//! dispatch to the right timing table for the instruction's operand arity.

use vstd::prelude::*;
use crate::lines_view;
use crate::descriptions::spec_cc_section;
use crate::descriptions::render_cc_section;
use crate::instructions::Instruction;
use crate::operands::OperandSpec;
use crate::tables::cc_table_wf;
use crate::tables::render_condition_codes;
use crate::tables::render_grid_table;
use crate::tables::render_list_table;
use crate::tables::render_noargs_table;
use crate::tables::spec_cc_table_lines;
use crate::tables::spec_grid_lines;
use crate::tables::spec_list_lines;
use crate::tables::spec_noargs_lines;
use crate::tables::spec_text_cols;
use crate::tables::spec_text_sep_cols;
use crate::tables::display_names_fit;
use crate::render::dashes;
use crate::tables::render_predef_table;
use crate::tables::spec_predef_lines;
use crate::tables::predef_table_wf;
use crate::candidates::size_variant_name;
use crate::candidates::spec_size_variant_name;
use crate::Size;

verus! {

/// Relies on `String::push`: appends exactly the given character.
pub assume_specification[ String::push ](s: &mut String, ch: char)
    ensures
        final(s)@ == old(s)@.push(ch),
;

/// A lower-case ASCII letter mapped to its upper-case form; every other
/// character kept as it is.
pub open spec fn spec_upper_char(c: char) -> char {
    if 'a' <= c && c <= 'z' {
        ((c as u32) - 32) as char
    } else {
        c
    }
}

/// The character-wise ASCII upper-casing of a text.
pub open spec fn spec_ascii_upper(s: Seq<char>) -> Seq<char> {
    Seq::new(s.len(), |i: int| spec_upper_char(s[i]))
}

/// Upper-case one character.
fn upper_char(c: char) -> (r: char)
    ensures
        r == spec_upper_char(c),
{
    match c {
        'a' => 'A',
        'b' => 'B',
        'c' => 'C',
        'd' => 'D',
        'e' => 'E',
        'f' => 'F',
        'g' => 'G',
        'h' => 'H',
        'i' => 'I',
        'j' => 'J',
        'k' => 'K',
        'l' => 'L',
        'm' => 'M',
        'n' => 'N',
        'o' => 'O',
        'p' => 'P',
        'q' => 'Q',
        'r' => 'R',
        's' => 'S',
        't' => 'T',
        'u' => 'U',
        'v' => 'V',
        'w' => 'W',
        'x' => 'X',
        'y' => 'Y',
        'z' => 'Z',
        other => other,
    }
}

/// Upper-case a text character by character.
pub fn ascii_upper(s: &str) -> (r: String)
    ensures
        r@ == spec_ascii_upper(s@),
{
    let len = s.unicode_len();
    let mut t = String::new();
    let mut i: usize = 0;
    while i < len
        invariant
            0 <= i <= len,
            len == s@.len(),
            t@.len() == i,
            forall|k: int| 0 <= k < i ==> #[trigger] t@[k] == spec_upper_char(s@[k]),
        decreases len - i,
    {
        let c = s.get_char(i);
        t.push(upper_char(c));
        i = i + 1;
    }
    proof {
        assert(t@ =~= spec_ascii_upper(s@));
    }
    t
}

/// The heading form of a mnemonic: upper case, except for the three
/// condition-code mnemonics that render with a lower-case `cc`.
pub open spec fn spec_display_mnemonic(name: Seq<char>) -> Seq<char> {
    let upper = spec_ascii_upper(name);
    if upper == "BCC"@ {
        "Bcc"@
    } else if upper == "SCC"@ {
        "Scc"@
    } else if upper == "DBCC"@ {
        "DBcc"@
    } else {
        upper
    }
}

/// Render the heading form of a mnemonic.
pub fn display_mnemonic(name: &str) -> (r: String)
    ensures
        r@ == spec_display_mnemonic(name@),
{
    let upper = ascii_upper(name);
    if upper == String::from_str("BCC") {
        String::from_str("Bcc")
    } else if upper == String::from_str("SCC") {
        String::from_str("Scc")
    } else if upper == String::from_str("DBCC") {
        String::from_str("DBcc")
    } else {
        upper
    }
}

/// Append every line of one rendered section.
pub fn append_lines(dst: &mut Vec<String>, src: &Vec<String>)
    ensures
        final(dst)@ == old(dst)@ + src@,
{
    let mut i: usize = 0;
    while i < src.len()
        invariant
            0 <= i <= src@.len(),
            dst@ =~= old(dst)@ + src@.subrange(0, i as int),
        decreases src@.len() - i,
    {
        dst.push(src[i].clone());
        proof {
            assert(dst@ =~= old(dst)@ + src@.subrange(0, i as int + 1));
        }
        i = i + 1;
    }
    proof {
        assert(dst@ =~= old(dst)@ + src@);
    }
}

/// The lines of one instruction's report header: the heading, then — when a
/// description exists — the operation formula, the assembler syntax table,
/// the attributes and description, the optional condition-code reference
/// table, the flag-effects section, and the execution-times heading.
pub open spec fn spec_header_lines(inst: Instruction) -> Seq<Seq<char>> {
    seq!["## "@ + spec_display_mnemonic(inst.name@), ""@] + match inst.desc {
        Some(d) => seq![
            "**Operation:**      "@ + d.operation@,
            ""@,
            "| Assembler Syntax "@ + spec_text_cols(d.assembler@, d.assembler@.len() as int)
                + "|"@,
            "|------------------"@ + spec_text_sep_cols(d.assembler@,
                d.assembler@.len() as int) + "|"@,
            ""@,
            "**Attributes:** Size = ("@ + d.attributes@ + ")"@,
            ""@,
            "**Description:** "@ + d.description@,
            ""@,
        ] + (match inst.cc_codes {
            Some(t) => spec_cc_table_lines(t@),
            None => Seq::empty(),
        }) + spec_cc_section(d.flags) + seq!["### Instruction Execution Times:"@],
        None => seq!["__No Description__"@, ""@],
    }
}

/// Render one instruction's report header.
pub fn render_instruction_header(inst: &Instruction) -> (r: Vec<String>)
    requires
        inst.cc_codes matches Some(t) ==> cc_table_wf(t@),
    ensures
        lines_view(r@) == spec_header_lines(*inst),
{
    let mut lines: Vec<String> = Vec::new();
    let mut head = String::from_str("## ");
    let disp = display_mnemonic(inst.name.as_str());
    head.append(disp.as_str());
    lines.push(head);
    lines.push(String::new());
    match &inst.desc {
        Some(d) => {
            let mut op = String::from_str("**Operation:**      ");
            op.append(d.operation.as_str());
            lines.push(op);
            lines.push(String::new());
            let mut syntax = String::from_str("| Assembler Syntax ");
            let mut j: usize = 0;
            while j < d.assembler.len()
                invariant
                    0 <= j <= d.assembler@.len(),
                    inst.desc matches Some(dd) && dd.assembler@ == d.assembler@,
                    syntax@ =~= "| Assembler Syntax "@ + spec_text_cols(d.assembler@,
                        j as int),
                decreases d.assembler@.len() - j,
            {
                syntax.append("| ");
                syntax.append(d.assembler[j].as_str());
                syntax.append(" ");
                proof {
                    assert(syntax@ =~= "| Assembler Syntax "@ + spec_text_cols(d.assembler@,
                        j as int + 1));
                }
                j = j + 1;
            }
            syntax.append("|");
            lines.push(syntax);
            let mut sep = String::from_str("|------------------");
            let mut j2: usize = 0;
            while j2 < d.assembler.len()
                invariant
                    0 <= j2 <= d.assembler@.len(),
                    inst.desc matches Some(dd) && dd.assembler@ == d.assembler@,
                    sep@ =~= "|------------------"@ + spec_text_sep_cols(d.assembler@,
                        j2 as int),
                decreases d.assembler@.len() - j2,
            {
                sep.append("|");
                let w = d.assembler[j2].as_str().unicode_len();
                let ds = dashes(w);
                sep.append(ds.as_str());
                sep.append("--");
                proof {
                    assert(sep@ =~= "|------------------"@ + spec_text_sep_cols(
                        d.assembler@, j2 as int + 1));
                }
                j2 = j2 + 1;
            }
            sep.append("|");
            lines.push(sep);
            lines.push(String::new());
            let mut attr = String::from_str("**Attributes:** Size = (");
            attr.append(d.attributes.as_str());
            attr.append(")");
            lines.push(attr);
            lines.push(String::new());
            let mut descr = String::from_str("**Description:** ");
            descr.append(d.description.as_str());
            lines.push(descr);
            lines.push(String::new());
            if let Some(t) = &inst.cc_codes {
                let cc = render_condition_codes(t);
                append_lines(&mut lines, &cc);
            }
            let flags_section = render_cc_section(&d.flags);
            append_lines(&mut lines, &flags_section);
            lines.push(String::from_str("### Instruction Execution Times:"));
        },
        None => {
            lines.push(String::from_str("__No Description__"));
            lines.push(String::new());
        },
    }
    proof {
        reveal_strlit("");
        assert(""@ =~= Seq::<char>::empty());
        assert(lines_view(lines@) =~~= spec_header_lines(*inst));
    }
    lines
}

/// The timing table of one size variant, by the instruction's operand
/// arity: two catalogs give the grid, one non-empty catalog the list, and
/// anything else the single no-operand cell.
pub open spec fn spec_generated_tables(
    name: Seq<char>,
    matrix: Seq<Vec<OperandSpec>>,
    cells: Seq<Option<u32>>,
) -> Seq<Seq<char>> {
    if matrix.len() == 2 {
        spec_grid_lines(name, cells, matrix[0]@, matrix[1]@)
    } else if matrix.len() == 1 && matrix[0]@.len() > 0 {
        spec_list_lines(name, cells, matrix[0]@)
    } else {
        spec_noargs_lines(name, cells)
    }
}

/// The reconciled matrix of one size fits the instruction's catalog shape.
pub open spec fn cells_match_matrix(
    matrix: Seq<Vec<OperandSpec>>,
    cells: Seq<Option<u32>>,
) -> bool {
    if matrix.len() == 2 {
        cells.len() == matrix[0]@.len() * matrix[1]@.len() && display_names_fit(matrix[1]@)
    } else if matrix.len() == 1 && matrix[0]@.len() > 0 {
        cells.len() == matrix[0]@.len() && display_names_fit(matrix[0]@)
    } else {
        cells.len() == 1 && cells[0] is Some
    }
}

/// Render the timing table of one size variant for an instruction's
/// operand catalogs.
pub fn render_generated_tables(
    name: &str,
    matrix: &Vec<Vec<OperandSpec>>,
    cells: &Vec<Option<u32>>,
) -> (r: Vec<String>)
    requires
        cells_match_matrix(matrix@, cells@),
    ensures
        lines_view(r@) == spec_generated_tables(name@, matrix@, cells@),
{
    if matrix.len() == 2 {
        render_grid_table(name, cells, &matrix[0], &matrix[1])
    } else if matrix.len() == 1 && matrix[0].len() > 0 {
        render_list_table(name, cells, &matrix[0])
    } else {
        render_noargs_table(name, cells)
    }
}


/// The documented override tables of an instruction, in byte, word, long
/// order; the long table is headed by the `.l`-suffixed mnemonic.
pub open spec fn spec_override_lines(inst: Instruction) -> Seq<Seq<char>> {
    (match inst.override_output_b {
        Some(t) => spec_predef_lines(inst.name@, t@[0]@, t@.skip(1)),
        None => Seq::empty(),
    }) + (match inst.override_output_w {
        Some(t) => spec_predef_lines(inst.name@, t@[0]@, t@.skip(1)),
        None => Seq::empty(),
    }) + (match inst.override_output_l {
        Some(t) => spec_predef_lines(spec_size_variant_name(inst.name@, Size::Long), t@[0]@,
            t@.skip(1)),
        None => Seq::empty(),
    })
}

/// Every override table present on an instruction is well formed under its
/// heading name.
pub open spec fn overrides_wf(inst: Instruction) -> bool {
    &&& (inst.override_output_b matches Some(t) ==> predef_table_wf(inst.name@, t@))
    &&& (inst.override_output_w matches Some(t) ==> predef_table_wf(inst.name@, t@))
    &&& (inst.override_output_l matches Some(t) ==> predef_table_wf(spec_size_variant_name(
        inst.name@, Size::Long), t@))
}

/// Render an instruction's documented override tables verbatim.
pub fn render_override_tables(inst: &Instruction) -> (r: Vec<String>)
    requires
        overrides_wf(*inst),
    ensures
        lines_view(r@) == spec_override_lines(*inst),
{
    let mut lines: Vec<String> = Vec::new();
    if let Some(t) = &inst.override_output_b {
        let section = render_predef_table(inst.name.as_str(), t);
        append_lines(&mut lines, &section);
    }
    if let Some(t) = &inst.override_output_w {
        let section = render_predef_table(inst.name.as_str(), t);
        append_lines(&mut lines, &section);
    }
    if let Some(t) = &inst.override_output_l {
        let name_long = size_variant_name(inst.name.as_str(), Size::Long);
        let section = render_predef_table(name_long.as_str(), t);
        append_lines(&mut lines, &section);
    }
    proof {
        assert(lines_view(lines@) =~~= spec_override_lines(*inst));
    }
    lines
}

/// The complete report of one instruction: the header, then either the
/// documented override tables or the generated word and long timing tables.
pub open spec fn spec_instruction_report(
    inst: Instruction,
    word_cells: Seq<Option<u32>>,
    long_cells: Seq<Option<u32>>,
) -> Seq<Seq<char>> {
    spec_header_lines(inst) + if inst.spec_has_override() {
        spec_override_lines(inst)
    } else {
        match inst.matrix {
            Some(m) => spec_generated_tables(inst.name@, m@, word_cells)
                + spec_generated_tables(spec_size_variant_name(inst.name@, Size::Long), m@,
                long_cells),
            None => Seq::empty(),
        }
    }
}

/// Render the complete report of one instruction from its two reconciled
/// size matrices. An instruction with documented override tables renders
/// those instead and ignores the matrices; one without overrides must carry
/// its operand catalogs.
pub fn render_instruction_report(
    inst: &Instruction,
    word_cells: &Vec<Option<u32>>,
    long_cells: &Vec<Option<u32>>,
) -> (r: Vec<String>)
    requires
        inst.cc_codes matches Some(t) ==> cc_table_wf(t@),
        overrides_wf(*inst),
        !inst.spec_has_override() ==> (inst.matrix matches Some(m) && cells_match_matrix(m@,
            word_cells@) && cells_match_matrix(m@, long_cells@)),
    ensures
        lines_view(r@) == spec_instruction_report(*inst, word_cells@, long_cells@),
{
    let mut lines = render_instruction_header(inst);
    if inst.has_override() {
        let tables = render_override_tables(inst);
        append_lines(&mut lines, &tables);
        proof {
            assert(lines_view(lines@) =~~= spec_instruction_report(*inst, word_cells@,
                long_cells@));
        }
        lines
    } else {
        match &inst.matrix {
            Some(m) => {
                let word_tables = render_generated_tables(inst.name.as_str(), m, word_cells);
                append_lines(&mut lines, &word_tables);
                let name_long = size_variant_name(inst.name.as_str(), Size::Long);
                let long_tables = render_generated_tables(name_long.as_str(), m, long_cells);
                append_lines(&mut lines, &long_tables);
            },
            None => {},
        }
        proof {
            assert(lines_view(lines@) =~~= spec_instruction_report(*inst, word_cells@,
                long_cells@));
        }
        lines
    }
}

} // verus!
