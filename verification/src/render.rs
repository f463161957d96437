//! Text utilities for the tabular report: padding, centering and decimal
//! formatting, each specified to the character.

use vstd::prelude::*;

verus! {

/// `n` spaces.
pub open spec fn spec_spaces(n: nat) -> Seq<char> {
    Seq::new(n, |i: int| ' ')
}

/// `n` dashes.
pub open spec fn spec_dashes(n: nat) -> Seq<char> {
    Seq::new(n, |i: int| '-')
}

/// A run of `n` spaces.
pub fn spaces(n: usize) -> (r: String)
    ensures
        r@ == spec_spaces(n as nat),
{
    proof {
        reveal_strlit(" ");
    }
    let mut t = String::new();
    let mut k: usize = 0;
    while k < n
        invariant
            0 <= k <= n,
            t@ =~= spec_spaces(k as nat),
        decreases n - k,
    {
        t.append(" ");
        proof {
            reveal_strlit(" ");
            assert(t@ =~= spec_spaces((k + 1) as nat));
        }
        k = k + 1;
    }
    t
}

/// A run of `n` dashes.
pub fn dashes(n: usize) -> (r: String)
    ensures
        r@ == spec_dashes(n as nat),
{
    proof {
        reveal_strlit("-");
    }
    let mut t = String::new();
    let mut k: usize = 0;
    while k < n
        invariant
            0 <= k <= n,
            t@ =~= spec_dashes(k as nat),
        decreases n - k,
    {
        t.append("-");
        proof {
            reveal_strlit("-");
            assert(t@ =~= spec_dashes((k + 1) as nat));
        }
        k = k + 1;
    }
    t
}

/// Text left-justified in a field of `w` characters; text wider than the
/// field is kept whole.
pub open spec fn spec_pad_right(s: Seq<char>, w: nat) -> Seq<char> {
    if s.len() >= w {
        s
    } else {
        s + spec_spaces((w - s.len()) as nat)
    }
}

/// Left-justify text in a field of `w` characters.
pub fn pad_right(s: &str, w: usize) -> (r: String)
    ensures
        r@ == spec_pad_right(s@, w as nat),
{
    let mut t = String::from_str(s);
    let l = s.unicode_len();
    if l < w {
        let fill = spaces(w - l);
        t.append(fill.as_str());
    }
    t
}

/// Text centered in a field of `w` characters, the leftover space split
/// with the extra character on the right; text wider than the field is
/// kept whole.
pub open spec fn spec_centered(s: Seq<char>, w: nat) -> Seq<char> {
    if s.len() >= w {
        s
    } else {
        let pad = (w - s.len()) as nat;
        spec_spaces(pad / 2) + s + spec_spaces((pad - pad / 2) as nat)
    }
}

/// Center text in a field of `w` characters.
pub fn centered(s: &str, w: usize) -> (r: String)
    ensures
        r@ == spec_centered(s@, w as nat),
{
    let l = s.unicode_len();
    if l >= w {
        String::from_str(s)
    } else {
        let pad = w - l;
        let left = pad / 2;
        let mut t = spaces(left);
        t.append(s);
        let fill = spaces(pad - left);
        t.append(fill.as_str());
        t
    }
}

/// The decimal digit character of a value below ten.
pub open spec fn spec_digit_char(d: nat) -> char {
    if d == 0 {
        '0'
    } else if d == 1 {
        '1'
    } else if d == 2 {
        '2'
    } else if d == 3 {
        '3'
    } else if d == 4 {
        '4'
    } else if d == 5 {
        '5'
    } else if d == 6 {
        '6'
    } else if d == 7 {
        '7'
    } else if d == 8 {
        '8'
    } else {
        '9'
    }
}

/// The decimal text of a number: its leading digits followed by its last.
pub open spec fn spec_decimal(v: nat) -> Seq<char>
    decreases v,
{
    if v < 10 {
        seq![spec_digit_char(v)]
    } else {
        spec_decimal(v / 10) + seq![spec_digit_char(v % 10)]
    }
}

/// One decimal digit as text.
fn digit_text(d: u32) -> (r: &'static str)
    requires
        d < 10,
    ensures
        r@ == seq![spec_digit_char(d as nat)],
{
    proof {
        reveal_strlit("0");
        reveal_strlit("1");
        reveal_strlit("2");
        reveal_strlit("3");
        reveal_strlit("4");
        reveal_strlit("5");
        reveal_strlit("6");
        reveal_strlit("7");
        reveal_strlit("8");
        reveal_strlit("9");
        assert("0"@ =~= seq!['0']);
        assert("1"@ =~= seq!['1']);
        assert("2"@ =~= seq!['2']);
        assert("3"@ =~= seq!['3']);
        assert("4"@ =~= seq!['4']);
        assert("5"@ =~= seq!['5']);
        assert("6"@ =~= seq!['6']);
        assert("7"@ =~= seq!['7']);
        assert("8"@ =~= seq!['8']);
        assert("9"@ =~= seq!['9']);
    }
    if d == 0 {
        "0"
    } else if d == 1 {
        "1"
    } else if d == 2 {
        "2"
    } else if d == 3 {
        "3"
    } else if d == 4 {
        "4"
    } else if d == 5 {
        "5"
    } else if d == 6 {
        "6"
    } else if d == 7 {
        "7"
    } else if d == 8 {
        "8"
    } else {
        "9"
    }
}

/// The decimal text of a cycle count.
pub fn decimal_text(v: u32) -> (r: String)
    ensures
        r@ == spec_decimal(v as nat),
    decreases v,
{
    if v < 10 {
        String::from_str(digit_text(v))
    } else {
        let mut t = decimal_text(v / 10);
        t.append(digit_text(v % 10));
        t
    }
}

/// The text of one grid cell: the cycle count of a legal combination, the
/// `*` hole marker of an illegal one.
pub open spec fn spec_cell_text(cell: Option<u32>) -> Seq<char> {
    match cell {
        Some(v) => spec_decimal(v as nat),
        None => seq!['*'],
    }
}

/// Render one grid cell's text.
pub fn cell_text(cell: &Option<u32>) -> (r: String)
    ensures
        r@ == spec_cell_text(*cell),
{
    match cell {
        Some(v) => decimal_text(*v),
        None => {
            proof {
                reveal_strlit("*");
                assert("*"@ =~= seq!['*']);
            }
            String::from_str("*")
        },
    }
}

} // verus!
