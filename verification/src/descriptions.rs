//! Static descriptive data attached to an instruction: prose, syntax,
//! and condition-code flag effects.
//!
//! The textual database itself (operation formulas, description paragraphs,
//! flag prose) is reference data owned by the surrounding program; this
//! module defines its shape and the verified rendering of the flag-effect
//! summary.

use vstd::prelude::*;
use crate::lines_view;

verus! {

/// The effect of an instruction on one condition-code flag, with the prose
/// explaining it.
pub enum Flag {
    SetIf(String),
    Clear(String),
    NotAffected(String),
    Undefined,
}

impl Flag {
    /// A flag counts as affected unless the instruction leaves it alone;
    /// an undefined outcome is an effect too.
    pub open spec fn spec_is_affected(&self) -> bool {
        !(self is NotAffected)
    }

    pub fn is_affected(&self) -> (r: bool)
        ensures
            r == self.spec_is_affected(),
    {
        !matches!(self, Flag::NotAffected(_))
    }
}

/// The five condition-code flags of the status register.
pub struct FlagsDesc {
    pub x: Flag,
    pub n: Flag,
    pub z: Flag,
    pub v: Flag,
    pub c: Flag,
}

impl FlagsDesc {
    /// Whether any flag is affected: the flag-effect table is rendered
    /// exactly when this holds, and skipped entirely otherwise.
    pub open spec fn spec_any_affected(&self) -> bool {
        self.x.spec_is_affected() || self.n.spec_is_affected() || self.z.spec_is_affected()
            || self.v.spec_is_affected() || self.c.spec_is_affected()
    }
}

/// The static descriptive record of one instruction.
pub struct Description {
    pub description: String,
    pub operation: String,
    pub assembler: Vec<String>,
    pub attributes: String,
    pub flags: FlagsDesc,
}

/// Whether at least one condition-code flag is affected.
pub fn check_affected(flag_desc: &FlagsDesc) -> (r: bool)
    ensures
        r == flag_desc.spec_any_affected(),
{
    flag_desc.x.is_affected() || flag_desc.n.is_affected() || flag_desc.z.is_affected()
        || flag_desc.v.is_affected() || flag_desc.c.is_affected()
}

/// The one-character marker of a flag in the summary row: `*` set according
/// to the result, `0` always cleared, `-` untouched, `U` undefined.
pub open spec fn spec_flag_status(flag: Flag) -> Seq<char> {
    match flag {
        Flag::SetIf(_) => seq!['*'],
        Flag::Clear(_) => seq!['0'],
        Flag::NotAffected(_) => seq!['-'],
        Flag::Undefined => seq!['U'],
    }
}

/// The marker of one flag for the summary row.
pub fn get_flag_status(flag: &Flag) -> (r: &'static str)
    ensures
        r@ == spec_flag_status(*flag),
{
    proof {
        reveal_strlit("*");
        reveal_strlit("0");
        reveal_strlit("-");
        reveal_strlit("U");
        assert("*"@ =~= seq!['*']);
        assert("0"@ =~= seq!['0']);
        assert("-"@ =~= seq!['-']);
        assert("U"@ =~= seq!['U']);
    }
    match flag {
        Flag::SetIf(_) => "*",
        Flag::Clear(_) => "0",
        Flag::NotAffected(_) => "-",
        Flag::Undefined => "U",
    }
}

/// The explanatory line of one flag: its prose, or a synthesized line for an
/// undefined outcome, each with the trailing double space that marks a
/// forced line break.
pub open spec fn spec_flag_desc_line(name: Seq<char>, flag: Flag) -> Seq<char> {
    match flag {
        Flag::SetIf(text) => text@ + "  "@,
        Flag::Clear(text) => text@ + "  "@,
        Flag::NotAffected(text) => text@ + "  "@,
        Flag::Undefined => name + " — Undefined  "@,
    }
}

/// Render the explanatory line of one flag.
pub fn render_flag_desc(name: &str, flag: &Flag) -> (r: String)
    ensures
        r@ == spec_flag_desc_line(name@, *flag),
{
    match flag {
        Flag::SetIf(text) => text.clone().concat("  "),
        Flag::Clear(text) => text.clone().concat("  "),
        Flag::NotAffected(text) => text.clone().concat("  "),
        Flag::Undefined => {
            let mut t = String::from_str(name);
            t.append(" — Undefined  ");
            t
        },
    }
}

/// The flag summary row: the five markers in X, N, Z, V, C order.
pub open spec fn spec_flag_status_row(flags: FlagsDesc) -> Seq<char> {
    "| "@ + spec_flag_status(flags.x) + " | "@ + spec_flag_status(flags.n) + " | "@
        + spec_flag_status(flags.z) + " | "@ + spec_flag_status(flags.v) + " | "@
        + spec_flag_status(flags.c) + " |"@
}

/// Render the flag summary row.
pub fn render_flag_status_row(flags: &FlagsDesc) -> (r: String)
    ensures
        r@ == spec_flag_status_row(*flags),
{
    let mut t = String::from_str("| ");
    t.append(get_flag_status(&flags.x));
    t.append(" | ");
    t.append(get_flag_status(&flags.n));
    t.append(" | ");
    t.append(get_flag_status(&flags.z));
    t.append(" | ");
    t.append(get_flag_status(&flags.v));
    t.append(" | ");
    t.append(get_flag_status(&flags.c));
    t.append(" |");
    t
}

/// The lines of the condition-codes section: the heading, then either the
/// "Not affected." notice when no flag is affected, or the marker table
/// followed by one explanatory line per flag, each section ending in a
/// blank separator line.
pub open spec fn spec_cc_section(flags: FlagsDesc) -> Seq<Seq<char>> {
    let head = seq!["### Condition Codes:"@, ""@];
    if !flags.spec_any_affected() {
        head + seq!["Not affected."@, ""@]
    } else {
        head + seq![
            "| X | N | Z | V | C |"@,
            "|---|---|---|---|---|"@,
            spec_flag_status_row(flags),
            spec_flag_desc_line("X"@, flags.x),
            spec_flag_desc_line("N"@, flags.n),
            spec_flag_desc_line("Z"@, flags.z),
            spec_flag_desc_line("V"@, flags.v),
            spec_flag_desc_line("C"@, flags.c),
            ""@,
        ]
    }
}

/// Render the condition-codes section of one instruction: the flag-effect
/// table is skipped entirely — replaced by the "Not affected." notice —
/// exactly when no flag is affected.
pub fn render_cc_section(flags: &FlagsDesc) -> (r: Vec<String>)
    ensures
        lines_view(r@) == spec_cc_section(*flags),
{
    let mut lines: Vec<String> = Vec::new();
    lines.push(String::from_str("### Condition Codes:"));
    lines.push(String::new());
    if !check_affected(flags) {
        lines.push(String::from_str("Not affected."));
        lines.push(String::new());
        proof {
            reveal_strlit("");
            assert(""@ =~= Seq::<char>::empty());
            assert(lines_view(lines@) =~~= spec_cc_section(*flags));
        }
    } else {
        lines.push(String::from_str("| X | N | Z | V | C |"));
        lines.push(String::from_str("|---|---|---|---|---|"));
        lines.push(render_flag_status_row(flags));
        lines.push(render_flag_desc("X", &flags.x));
        lines.push(render_flag_desc("N", &flags.n));
        lines.push(render_flag_desc("Z", &flags.z));
        lines.push(render_flag_desc("V", &flags.v));
        lines.push(render_flag_desc("C", &flags.c));
        lines.push(String::new());
        proof {
            reveal_strlit("");
            assert(""@ =~= Seq::<char>::empty());
            assert(lines_view(lines@) =~~= spec_cc_section(*flags));
        }
    }
    lines
}

} // verus!
