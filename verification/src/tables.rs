//! The timing tables: the two-operand grid, the one-operand list and the
//! no-operand single cell, each rendered line by line.
//!
//! The grid renders a header of destination display names, a dashed
//! separator, and one row per surviving source mode: a source row is
//! omitted exactly when every destination cell in that row is a hole.
//! Surviving cells show the cycle count, holes show the `*` marker.

use vstd::prelude::*;
use crate::lines_view;
use crate::operands::OperandSpec;
use crate::render::cell_text;
use crate::render::centered;
use crate::render::dashes;
use crate::render::pad_right;
use crate::render::spec_cell_text;
use crate::render::spec_centered;
use crate::render::spec_dashes;
use crate::render::spec_pad_right;
use crate::candidates::lemma_grid_index_in_range;

verus! {

/// The grid cell of source mode `i` and destination mode `j`.
pub open spec fn spec_cell_at(cells: Seq<Option<u32>>, j_count: int, i: int, j: int) -> Option<
    u32,
> {
    cells[i * j_count + j]
}

/// Whether the grid row of source mode `i` survives: some destination cell
/// in that row holds a value.
pub open spec fn spec_row_survives(cells: Seq<Option<u32>>, j_count: int, i: int) -> bool {
    exists|j: int| 0 <= j < j_count && #[trigger] spec_cell_at(cells, j_count, i, j) is Some
}

/// The row indices among the first `n` whose rows survive, in order.
pub open spec fn spec_surviving(cells: Seq<Option<u32>>, j_count: int, n: int) -> Seq<int>
    decreases n,
{
    if n <= 0 {
        Seq::empty()
    } else {
        spec_surviving(cells, j_count, n - 1) + if spec_row_survives(cells, j_count, n - 1) {
            seq![n - 1]
        } else {
            Seq::empty()
        }
    }
}

/// A source row stands in the rendered grid if and only if some destination
/// cell in that row holds a value: the surviving list holds exactly the
/// rows that survive, in increasing order.
pub proof fn lemma_row_omission(cells: Seq<Option<u32>>, j_count: int, n: int)
    ensures
        forall|k: int|
            0 <= k < spec_surviving(cells, j_count, n).len()
                ==> 0 <= #[trigger] spec_surviving(cells, j_count, n)[k] < n
                && spec_row_survives(cells, j_count, spec_surviving(cells, j_count, n)[k]),
        forall|i: int|
            0 <= i < n && spec_row_survives(cells, j_count, i)
                ==> spec_surviving(cells, j_count, n).contains(i),
        forall|k1: int, k2: int|
            0 <= k1 < k2 < spec_surviving(cells, j_count, n).len()
                ==> #[trigger] spec_surviving(cells, j_count, n)[k1]
                < #[trigger] spec_surviving(cells, j_count, n)[k2],
    decreases n,
{
    if n > 0 {
        lemma_row_omission(cells, j_count, n - 1);
        let prev = spec_surviving(cells, j_count, n - 1);
        let cur = spec_surviving(cells, j_count, n);
        assert forall|i: int|
            0 <= i < n && spec_row_survives(cells, j_count, i) implies cur.contains(i) by {
            if i < n - 1 {
                assert(prev.contains(i));
                let k = choose|k: int| 0 <= k < prev.len() && prev[k] == i;
                assert(cur[k] == i);
            } else {
                assert(cur[cur.len() - 1] == i);
            }
        }
    }
}

/// A source row is omitted from the rendered grid exactly when every
/// destination cell in that row is a hole: the grid renders one row per
/// entry of the surviving list, and row `i` stands in that list if and only
/// if some cell of row `i` holds a value.
pub proof fn lemma_grid_omits_row_iff_empty(
    cells: Seq<Option<u32>>,
    j_count: int,
    n: int,
    i: int,
)
    requires
        0 <= i < n,
    ensures
        spec_surviving(cells, j_count, n).contains(i) <==> spec_row_survives(cells, j_count,
            i),
{
    lemma_row_omission(cells, j_count, n);
    if spec_surviving(cells, j_count, n).contains(i) {
        let k = choose|k: int|
            0 <= k < spec_surviving(cells, j_count, n).len() && spec_surviving(cells,
                j_count, n)[k] == i;
        assert(spec_row_survives(cells, j_count, spec_surviving(cells, j_count, n)[k]));
    }
}

/// Check whether the grid row of source mode `i` survives.
pub fn row_has_value(cells: &Vec<Option<u32>>, i: usize, i_count: usize, j_count: usize) -> (r:
    bool)
    requires
        cells@.len() == i_count * j_count,
        i < i_count,
    ensures
        r == spec_row_survives(cells@, j_count as int, i as int),
{
    let mut j: usize = 0;
    while j < j_count
        invariant
            0 <= j <= j_count,
            cells@.len() == i_count * j_count,
            0 <= i < i_count,
            forall|j0: int|
                0 <= j0 < j ==> #[trigger] spec_cell_at(cells@, j_count as int, i as int,
                    j0) is None,
        decreases j_count - j,
    {
        let total = cells.len();
        proof {
            lemma_grid_index_in_range(i_count as int, j_count as int, i as int, j as int);
            assert(i * j_count + j < total);
        }
        if cells[i * j_count + j].is_some() {
            proof {
                assert(spec_cell_at(cells@, j_count as int, i as int, j as int) is Some);
            }
            return true;
        }
        j = j + 1;
    }
    false
}

/// Collect the surviving row indices in order.
pub fn surviving_rows(cells: &Vec<Option<u32>>, i_count: usize, j_count: usize) -> (r: Vec<
    usize,
>)
    requires
        cells@.len() == i_count * j_count,
    ensures
        r@.map_values(|u: usize| u as int) == spec_surviving(cells@, j_count as int,
            i_count as int),
{
    let mut out: Vec<usize> = Vec::new();
    let mut i: usize = 0;
    while i < i_count
        invariant
            0 <= i <= i_count,
            cells@.len() == i_count * j_count,
            out@.map_values(|u: usize| u as int) =~= spec_surviving(cells@, j_count as int,
                i as int),
        decreases i_count - i,
    {
        if row_has_value(cells, i, i_count, j_count) {
            out.push(i);
        }
        proof {
            assert(out@.map_values(|u: usize| u as int) =~= spec_surviving(cells@,
                j_count as int, i as int + 1));
        }
        i = i + 1;
    }
    out
}

/// The destination columns of the header line: `| name ` per destination.
pub open spec fn spec_header_cols(dsts: Seq<OperandSpec>, j: int) -> Seq<char>
    decreases j,
{
    if j <= 0 {
        Seq::empty()
    } else {
        spec_header_cols(dsts, j - 1) + "| "@ + dsts[j - 1].display_name@ + " "@
    }
}

/// The header line of a timing table: the row label column, then one column
/// per destination display name.
pub open spec fn spec_table_header(name: Seq<char>, dsts: Seq<OperandSpec>) -> Seq<char> {
    "| "@ + spec_pad_right(name, 9) + spec_header_cols(dsts, dsts.len() as int) + "|"@
}

/// The dashed segments of the separator line, one per destination.
pub open spec fn spec_sep_cols(dsts: Seq<OperandSpec>, j: int) -> Seq<char>
    decreases j,
{
    if j <= 0 {
        Seq::empty()
    } else {
        spec_sep_cols(dsts, j - 1) + "|"@ + spec_dashes((dsts[j - 1].display_name@.len()
            + 2) as nat)
    }
}

/// The separator line under the header.
pub open spec fn spec_table_separator(dsts: Seq<OperandSpec>) -> Seq<char> {
    "|"@ + spec_dashes(10) + spec_sep_cols(dsts, dsts.len() as int) + "|"@
}

/// The cells of row `i`: each cell's text centered in its destination
/// column.
pub open spec fn spec_row_cells(
    cells: Seq<Option<u32>>,
    dsts: Seq<OperandSpec>,
    i: int,
    j: int,
) -> Seq<char>
    decreases j,
{
    if j <= 0 {
        Seq::empty()
    } else {
        spec_row_cells(cells, dsts, i, j - 1) + "|"@ + spec_centered(
            spec_cell_text(cells[i * dsts.len() + j - 1]),
            (dsts[j - 1].display_name@.len() + 2) as nat,
        )
    }
}

/// One data row: the source label, then every destination cell.
pub open spec fn spec_table_row(
    label: Seq<char>,
    cells: Seq<Option<u32>>,
    dsts: Seq<OperandSpec>,
    i: int,
) -> Seq<char> {
    "| "@ + spec_pad_right(label, 9) + spec_row_cells(cells, dsts, i, dsts.len() as int)
        + "|"@
}

/// Every display name leaves room for its two-character cell padding.
pub open spec fn display_names_fit(dsts: Seq<OperandSpec>) -> bool {
    forall|j: int|
        0 <= j < dsts.len() ==> (#[trigger] dsts[j]).display_name@.len() + 2 <= usize::MAX
}

/// Render the header line of a timing table.
pub fn table_header(name: &str, dsts: &Vec<OperandSpec>) -> (r: String)
    ensures
        r@ == spec_table_header(name@, dsts@),
{
    let mut t = String::from_str("| ");
    let padded = pad_right(name, 9);
    t.append(padded.as_str());
    let mut j: usize = 0;
    while j < dsts.len()
        invariant
            0 <= j <= dsts@.len(),
            t@ =~= "| "@ + spec_pad_right(name@, 9) + spec_header_cols(dsts@, j as int),
        decreases dsts@.len() - j,
    {
        t.append("| ");
        t.append(dsts[j].display_name.as_str());
        t.append(" ");
        proof {
            assert(t@ =~= "| "@ + spec_pad_right(name@, 9) + spec_header_cols(dsts@,
                j as int + 1));
        }
        j = j + 1;
    }
    t.append("|");
    t
}

/// Render the separator line of a timing table.
pub fn table_separator(dsts: &Vec<OperandSpec>) -> (r: String)
    requires
        display_names_fit(dsts@),
    ensures
        r@ == spec_table_separator(dsts@),
{
    let mut t = String::from_str("|");
    let d = dashes(10);
    t.append(d.as_str());
    let mut j: usize = 0;
    while j < dsts.len()
        invariant
            0 <= j <= dsts@.len(),
            display_names_fit(dsts@),
            t@ =~= "|"@ + spec_dashes(10) + spec_sep_cols(dsts@, j as int),
        decreases dsts@.len() - j,
    {
        t.append("|");
        let w = dsts[j].display_name.as_str().unicode_len() + 2;
        let d = dashes(w);
        t.append(d.as_str());
        proof {
            assert(t@ =~= "|"@ + spec_dashes(10) + spec_sep_cols(dsts@, j as int + 1));
        }
        j = j + 1;
    }
    t.append("|");
    t
}

/// Render one data row of a timing table.
pub fn table_row(
    label: &str,
    cells: &Vec<Option<u32>>,
    dsts: &Vec<OperandSpec>,
    i: usize,
    i_count: usize,
) -> (r: String)
    requires
        display_names_fit(dsts@),
        cells@.len() == i_count * dsts@.len(),
        i < i_count,
    ensures
        r@ == spec_table_row(label@, cells@, dsts@, i as int),
{
    let j_count = dsts.len();
    let mut t = String::from_str("| ");
    let padded = pad_right(label, 9);
    t.append(padded.as_str());
    let mut j: usize = 0;
    while j < j_count
        invariant
            0 <= j <= j_count,
            j_count == dsts@.len(),
            display_names_fit(dsts@),
            cells@.len() == i_count * j_count,
            0 <= i < i_count,
            t@ =~= "| "@ + spec_pad_right(label@, 9) + spec_row_cells(cells@, dsts@,
                i as int, j as int),
        decreases j_count - j,
    {
        let total = cells.len();
        proof {
            lemma_grid_index_in_range(i_count as int, j_count as int, i as int, j as int);
            assert(i * j_count + j < total);
        }
        t.append("|");
        let w = dsts[j].display_name.as_str().unicode_len() + 2;
        let cell = cell_text(&cells[i * j_count + j]);
        let centered_cell = centered(cell.as_str(), w);
        t.append(centered_cell.as_str());
        proof {
            assert(t@ =~= "| "@ + spec_pad_right(label@, 9) + spec_row_cells(cells@, dsts@,
                i as int, j as int + 1));
        }
        j = j + 1;
    }
    t.append("|");
    t
}

/// The lines of the two-operand timing grid: nothing at all when every cell
/// is a hole; otherwise the header, the separator, one row per surviving
/// source mode, and a closing blank line.
pub open spec fn spec_grid_lines(
    name: Seq<char>,
    cells: Seq<Option<u32>>,
    srcs: Seq<OperandSpec>,
    dsts: Seq<OperandSpec>,
) -> Seq<Seq<char>> {
    let surv = spec_surviving(cells, dsts.len() as int, srcs.len() as int);
    if surv.len() == 0 {
        Seq::empty()
    } else {
        seq![spec_table_header(name, dsts), spec_table_separator(dsts)]
            + surv.map_values(|i: int| spec_table_row(srcs[i].display_name@, cells, dsts, i))
            + seq![Seq::<char>::empty()]
    }
}

/// Render the two-operand timing grid.
pub fn render_grid_table(
    name: &str,
    cells: &Vec<Option<u32>>,
    srcs: &Vec<OperandSpec>,
    dsts: &Vec<OperandSpec>,
) -> (r: Vec<String>)
    requires
        display_names_fit(dsts@),
        cells@.len() == srcs@.len() * dsts@.len(),
    ensures
        lines_view(r@) == spec_grid_lines(name@, cells@, srcs@, dsts@),
{
    let i_count = srcs.len();
    let j_count = dsts.len();
    let surv = surviving_rows(cells, i_count, j_count);
    let ghost surv_spec = spec_surviving(cells@, j_count as int, i_count as int);
    let mut lines: Vec<String> = Vec::new();
    if surv.len() == 0 {
        proof {
            assert(lines_view(lines@) =~= spec_grid_lines(name@, cells@, srcs@, dsts@));
        }
        return lines;
    }
    lines.push(table_header(name, dsts));
    lines.push(table_separator(dsts));
    proof {
        lemma_row_omission(cells@, j_count as int, i_count as int);
    }
    let mut k: usize = 0;
    while k < surv.len()
        invariant
            0 <= k <= surv@.len(),
            i_count == srcs@.len(),
            j_count == dsts@.len(),
            display_names_fit(dsts@),
            cells@.len() == i_count * j_count,
            surv@.map_values(|u: usize| u as int) == surv_spec,
            surv_spec == spec_surviving(cells@, j_count as int, i_count as int),
            forall|k0: int|
                0 <= k0 < surv_spec.len() ==> 0 <= #[trigger] surv_spec[k0] < i_count,
            lines@.len() == 2 + k,
            lines@[0]@ == spec_table_header(name@, dsts@),
            lines@[1]@ == spec_table_separator(dsts@),
            forall|m: int|
                2 <= m < lines@.len() ==> (#[trigger] lines@[m])@ == spec_table_row(
                    srcs@[surv_spec[m - 2]].display_name@, cells@, dsts@, surv_spec[m - 2]),
        decreases surv@.len() - k,
    {
        proof {
            lemma_row_omission(cells@, j_count as int, i_count as int);
            assert(surv_spec[k as int] == surv@[k as int] as int);
        }
        let i = surv[k];
        let row = table_row(srcs[i].display_name.as_str(), cells, dsts, i, i_count);
        lines.push(row);
        k = k + 1;
    }
    lines.push(String::new());
    proof {
        reveal_strlit("");
        assert(""@ =~= Seq::<char>::empty());
        lemma_row_omission(cells@, j_count as int, i_count as int);
        assert(lines_view(lines@) =~~= spec_grid_lines(name@, cells@, srcs@, dsts@));
    }
    lines
}

/// The lines of the one-operand timing table: the header, the separator,
/// the single unlabelled row, and a closing blank line. Nothing is omitted:
/// holes render as `*` cells.
pub open spec fn spec_list_lines(
    name: Seq<char>,
    cells: Seq<Option<u32>>,
    dsts: Seq<OperandSpec>,
) -> Seq<Seq<char>> {
    seq![
        spec_table_header(name, dsts),
        spec_table_separator(dsts),
        spec_table_row(" "@, cells, dsts, 0),
        Seq::<char>::empty(),
    ]
}

/// Render the one-operand timing table.
pub fn render_list_table(name: &str, cells: &Vec<Option<u32>>, dsts: &Vec<OperandSpec>) -> (r:
    Vec<String>)
    requires
        display_names_fit(dsts@),
        cells@.len() == dsts@.len(),
    ensures
        lines_view(r@) == spec_list_lines(name@, cells@, dsts@),
{
    let mut lines: Vec<String> = Vec::new();
    lines.push(table_header(name, dsts));
    lines.push(table_separator(dsts));
    proof {
        assert(cells@.len() == 1 * dsts@.len());
    }
    let row = table_row(" ", cells, dsts, 0, 1);
    lines.push(row);
    lines.push(String::new());
    proof {
        reveal_strlit("");
        assert(""@ =~= Seq::<char>::empty());
        assert(lines_view(lines@) =~~= spec_list_lines(name@, cells@, dsts@));
    }
    lines
}


/// The lines of the no-operand timing table: the single measured cell, its
/// separator, and a closing blank line.
pub open spec fn spec_noargs_lines(name: Seq<char>, cells: Seq<Option<u32>>) -> Seq<Seq<char>> {
    seq![
        "| "@ + name + " | "@ + spec_cell_text(cells[0]) + " |"@,
        "|"@ + spec_dashes((name.len() + 2) as nat) + "|"@ + spec_dashes(4) + "|"@,
        Seq::<char>::empty(),
    ]
}

/// Render the no-operand timing table. The single candidate must have been
/// accepted: a mnemonic whose bare form the assembler rejects has no cell
/// to show.
pub fn render_noargs_table(name: &str, cells: &Vec<Option<u32>>) -> (r: Vec<String>)
    requires
        cells@.len() == 1,
        cells@[0] is Some,
    ensures
        lines_view(r@) == spec_noargs_lines(name@, cells@),
{
    let mut lines: Vec<String> = Vec::new();
    let mut line = String::from_str("| ");
    line.append(name);
    line.append(" | ");
    let cell = cell_text(&cells[0]);
    line.append(cell.as_str());
    line.append(" |");
    lines.push(line);
    let mut sep = String::from_str("|");
    let name_len = name.unicode_len();
    let d = dashes(name_len);
    sep.append(d.as_str());
    sep.append("--");
    sep.append("|");
    let d4 = dashes(4);
    sep.append(d4.as_str());
    sep.append("|");
    lines.push(sep);
    lines.push(String::new());
    proof {
        reveal_strlit("");
        reveal_strlit("--");
        assert(""@ =~= Seq::<char>::empty());
        assert(spec_dashes((name@.len() + 2) as nat) =~= spec_dashes(name@.len())
            + "--"@);
        assert(lines_view(lines@) =~~= spec_noargs_lines(name@, cells@));
    }
    lines
}


/// The title columns of a reference table: `| entry ` per title entry.
pub open spec fn spec_text_cols(entries: Seq<String>, j: int) -> Seq<char>
    decreases j,
{
    if j <= 0 {
        Seq::empty()
    } else {
        spec_text_cols(entries, j - 1) + "| "@ + entries[j - 1]@ + " "@
    }
}

/// The dashed separator segments of a reference table: one run of dashes as
/// wide as each title entry, plus the two cell padding dashes.
pub open spec fn spec_text_sep_cols(entries: Seq<String>, j: int) -> Seq<char>
    decreases j,
{
    if j <= 0 {
        Seq::empty()
    } else {
        spec_text_sep_cols(entries, j - 1) + "|"@ + spec_dashes(entries[j - 1]@.len()) + "--"@
    }
}

/// The width of data column `i` of a documented override table: the name
/// column first, then one column per title entry.
pub open spec fn spec_predef_width(name: Seq<char>, title: Seq<String>, i: int) -> nat {
    if i == 0 {
        name.len()
    } else {
        title[i - 1]@.len()
    }
}

/// The cells of one data row of a documented override table, each
/// left-justified one character past its column width.
pub open spec fn spec_predef_row_cells(
    name: Seq<char>,
    title: Seq<String>,
    row: Seq<String>,
    i: int,
) -> Seq<char>
    decreases i,
{
    if i <= 0 {
        Seq::empty()
    } else {
        spec_predef_row_cells(name, title, row, i - 1) + "| "@ + spec_pad_right(
            row[i - 1]@,
            (spec_predef_width(name, title, i - 1) + 1) as nat,
        )
    }
}

/// One data row of a documented override table.
pub open spec fn spec_predef_row(name: Seq<char>, title: Seq<String>, row: Seq<String>)
    -> Seq<char> {
    spec_predef_row_cells(name, title, row, row.len() as int) + "|"@
}

/// The lines of a documented override table: the title row led by the table
/// name, the separator, the data rows, and a closing blank line.
pub open spec fn spec_predef_lines(
    name: Seq<char>,
    title: Seq<String>,
    rows: Seq<Vec<String>>,
) -> Seq<Seq<char>> {
    seq![
        "| "@ + name + " "@ + spec_text_cols(title, title.len() as int) + "|"@,
        "|--"@ + spec_dashes(name.len()) + spec_text_sep_cols(title, title.len() as int)
            + "|"@,
    ] + rows.map_values(|row: Vec<String>| spec_predef_row(name, title, row@))
        + seq![Seq::<char>::empty()]
}

/// A table's first row is its title row; its data rows are at most one
/// entry wider than the title (the extra entry sits under the name column),
/// and every column width leaves room for one character of padding.
pub open spec fn predef_table_wf(name: Seq<char>, table: Seq<Vec<String>>) -> bool {
    &&& table.len() >= 1
    &&& name.len() + 1 <= usize::MAX
    &&& forall|i: int|
        0 <= i < table[0]@.len() ==> (#[trigger] table[0]@[i])@.len() + 1 <= usize::MAX
    &&& forall|r: int| 1 <= r < table.len() ==> (#[trigger] table[r])@.len() <= table[0]@.len() + 1
}

/// Render a documented override table verbatim.
pub fn render_predef_table(name: &str, table: &Vec<Vec<String>>) -> (r: Vec<String>)
    requires
        predef_table_wf(name@, table@),
    ensures
        lines_view(r@) == spec_predef_lines(name@, table@[0]@, table@.skip(1)),
{
    let ghost title_view = table@[0]@;
    let mut lines: Vec<String> = Vec::new();
    let title = &table[0];
    let mut head = String::from_str("| ");
    head.append(name);
    head.append(" ");
    let mut j: usize = 0;
    while j < title.len()
        invariant
            0 <= j <= title@.len(),
            title@ == title_view,
            head@ =~= "| "@ + name@ + " "@ + spec_text_cols(title_view, j as int),
        decreases title@.len() - j,
    {
        head.append("| ");
        head.append(title[j].as_str());
        head.append(" ");
        proof {
            assert(head@ =~= "| "@ + name@ + " "@ + spec_text_cols(title_view, j as int + 1));
        }
        j = j + 1;
    }
    head.append("|");
    lines.push(head);
    let mut sep = String::from_str("|--");
    let name_len = name.unicode_len();
    let d = dashes(name_len);
    sep.append(d.as_str());
    let mut j2: usize = 0;
    while j2 < title.len()
        invariant
            0 <= j2 <= title@.len(),
            title@ == title_view,
            sep@ =~= "|--"@ + spec_dashes(name@.len()) + spec_text_sep_cols(title_view,
                j2 as int),
        decreases title@.len() - j2,
    {
        sep.append("|");
        let w = title[j2].as_str().unicode_len();
        let d2 = dashes(w);
        sep.append(d2.as_str());
        sep.append("--");
        proof {
            assert(sep@ =~= "|--"@ + spec_dashes(name@.len()) + spec_text_sep_cols(title_view,
                j2 as int + 1));
        }
        j2 = j2 + 1;
    }
    sep.append("|");
    lines.push(sep);
    let mut r_idx: usize = 1;
    while r_idx < table.len()
        invariant
            1 <= r_idx <= table@.len(),
            title@ == title_view,
            title_view == table@[0]@,
            name_len == name@.len(),
            predef_table_wf(name@, table@),
            lines@.len() == 1 + r_idx,
            lines@[0]@ == "| "@ + name@ + " "@ + spec_text_cols(title_view,
                title_view.len() as int) + "|"@,
            lines@[1]@ == "|--"@ + spec_dashes(name@.len()) + spec_text_sep_cols(title_view,
                title_view.len() as int) + "|"@,
            forall|m: int|
                2 <= m < lines@.len() ==> (#[trigger] lines@[m])@ == spec_predef_row(name@,
                    title_view, table@[m - 1]@),
        decreases table@.len() - r_idx,
    {
        let row = &table[r_idx];
        let mut line = String::new();
        let mut i: usize = 0;
        while i < row.len()
            invariant
                0 <= i <= row@.len(),
                row@ == table@[r_idx as int]@,
                1 <= r_idx < table@.len(),
                title@ == title_view,
                title_view == table@[0]@,
                name_len == name@.len(),
                predef_table_wf(name@, table@),
                line@ =~= spec_predef_row_cells(name@, title_view, row@, i as int),
            decreases row@.len() - i,
        {
            let w: usize = if i == 0 {
                name_len
            } else {
                title[i - 1].as_str().unicode_len()
            };
            line.append("| ");
            let padded = pad_right(row[i].as_str(), w + 1);
            line.append(padded.as_str());
            proof {
                assert(line@ =~= spec_predef_row_cells(name@, title_view, row@, i as int
                    + 1));
            }
            i = i + 1;
        }
        line.append("|");
        lines.push(line);
        r_idx = r_idx + 1;
    }
    lines.push(String::new());
    proof {
        reveal_strlit("");
        assert(""@ =~= Seq::<char>::empty());
        assert(lines_view(lines@) =~~= spec_predef_lines(name@, table@[0]@, table@.skip(1)));
    }
    lines
}

/// One data row of a condition-code reference table.
pub open spec fn spec_cc_row_cells(title: Seq<String>, row: Seq<String>, i: int) -> Seq<char>
    decreases i,
{
    if i <= 0 {
        Seq::empty()
    } else {
        spec_cc_row_cells(title, row, i - 1) + "| "@ + spec_pad_right(
            row[i - 1]@,
            (title[i - 1]@.len() + 1) as nat,
        )
    }
}

/// The lines of a condition-code reference table: the title row, the
/// separator, the data rows, and a closing blank line.
pub open spec fn spec_cc_table_lines(table: Seq<Vec<String>>) -> Seq<Seq<char>> {
    let title = table[0]@;
    seq![
        spec_text_cols(title, title.len() as int) + "|"@,
        spec_text_sep_cols(title, title.len() as int) + "|"@,
    ] + table.skip(1).map_values(
        |row: Vec<String>| spec_cc_row_cells(title, row@, row@.len() as int) + "|"@,
    ) + seq![Seq::<char>::empty()]
}

/// A condition-code table's data rows fit under its title row.
pub open spec fn cc_table_wf(table: Seq<Vec<String>>) -> bool {
    &&& table.len() >= 1
    &&& forall|i: int|
        0 <= i < table[0]@.len() ==> (#[trigger] table[0]@[i])@.len() + 1 <= usize::MAX
    &&& forall|r: int| 1 <= r < table.len() ==> (#[trigger] table[r])@.len() <= table[0]@.len()
}

/// Render a condition-code reference table; its first row is the header.
pub fn render_condition_codes(table: &Vec<Vec<String>>) -> (r: Vec<String>)
    requires
        cc_table_wf(table@),
    ensures
        lines_view(r@) == spec_cc_table_lines(table@),
{
    let ghost title_view = table@[0]@;
    let mut lines: Vec<String> = Vec::new();
    let title = &table[0];
    let mut head = String::new();
    let mut j: usize = 0;
    while j < title.len()
        invariant
            0 <= j <= title@.len(),
            title@ == title_view,
            head@ =~= spec_text_cols(title_view, j as int),
        decreases title@.len() - j,
    {
        head.append("| ");
        head.append(title[j].as_str());
        head.append(" ");
        proof {
            assert(head@ =~= spec_text_cols(title_view, j as int + 1));
        }
        j = j + 1;
    }
    head.append("|");
    lines.push(head);
    let mut sep = String::new();
    let mut j2: usize = 0;
    while j2 < title.len()
        invariant
            0 <= j2 <= title@.len(),
            title@ == title_view,
            sep@ =~= spec_text_sep_cols(title_view, j2 as int),
        decreases title@.len() - j2,
    {
        sep.append("|");
        let w = title[j2].as_str().unicode_len();
        let d2 = dashes(w);
        sep.append(d2.as_str());
        sep.append("--");
        proof {
            assert(sep@ =~= spec_text_sep_cols(title_view, j2 as int + 1));
        }
        j2 = j2 + 1;
    }
    sep.append("|");
    lines.push(sep);
    let mut r_idx: usize = 1;
    while r_idx < table.len()
        invariant
            1 <= r_idx <= table@.len(),
            title@ == title_view,
            title_view == table@[0]@,
            cc_table_wf(table@),
            lines@.len() == 1 + r_idx,
            lines@[0]@ == spec_text_cols(title_view, title_view.len() as int) + "|"@,
            lines@[1]@ == spec_text_sep_cols(title_view, title_view.len() as int) + "|"@,
            forall|m: int|
                2 <= m < lines@.len() ==> (#[trigger] lines@[m])@ == spec_cc_row_cells(
                    title_view, table@[m - 1]@, table@[m - 1]@.len() as int) + "|"@,
        decreases table@.len() - r_idx,
    {
        let row = &table[r_idx];
        let mut line = String::new();
        let mut i: usize = 0;
        while i < row.len()
            invariant
                0 <= i <= row@.len(),
                row@ == table@[r_idx as int]@,
                1 <= r_idx < table@.len(),
                title@ == title_view,
                title_view == table@[0]@,
                cc_table_wf(table@),
                line@ =~= spec_cc_row_cells(title_view, row@, i as int),
            decreases row@.len() - i,
        {
            let w = title[i].as_str().unicode_len();
            line.append("| ");
            let padded = pad_right(row[i].as_str(), w + 1);
            line.append(padded.as_str());
            proof {
                assert(line@ =~= spec_cc_row_cells(title_view, row@, i as int + 1));
            }
            i = i + 1;
        }
        line.append("|");
        lines.push(line);
        r_idx = r_idx + 1;
    }
    lines.push(String::new());
    proof {
        reveal_strlit("");
        assert(""@ =~= Seq::<char>::empty());
        assert(lines_view(lines@) =~~= spec_cc_table_lines(table@));
    }
    lines
}

} // verus!
