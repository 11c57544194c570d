//! Textual rendering of lane values.
//!
//! Every notation shares one structural template: an optional name prefix,
//! then `"("`, the four rendered lanes separated by `", "`, and `")"`.
//! The numerals for the pattern notations (base 2, 8, 16) are produced and
//! proved here, digit by digit, without leading zeros.

use vstd::prelude::*;

verus! {

/// The character for a single digit value below 16, lowercase or uppercase.
pub open spec fn spec_digit(d: nat, upper: bool) -> char
    recommends
        d < 16,
{
    if d == 0 {
        '0'
    } else if d == 1 {
        '1'
    } else if d == 2 {
        '2'
    } else if d == 3 {
        '3'
    } else if d == 4 {
        '4'
    } else if d == 5 {
        '5'
    } else if d == 6 {
        '6'
    } else if d == 7 {
        '7'
    } else if d == 8 {
        '8'
    } else if d == 9 {
        '9'
    } else if d == 10 {
        if upper {
            'A'
        } else {
            'a'
        }
    } else if d == 11 {
        if upper {
            'B'
        } else {
            'b'
        }
    } else if d == 12 {
        if upper {
            'C'
        } else {
            'c'
        }
    } else if d == 13 {
        if upper {
            'D'
        } else {
            'd'
        }
    } else if d == 14 {
        if upper {
            'E'
        } else {
            'e'
        }
    } else {
        if upper {
            'F'
        } else {
            'f'
        }
    }
}

/// The numeral of `n` in base `base`, most significant digit first, with no
/// leading zeros (so `0` is the single digit `"0"`).
pub open spec fn spec_numeral(n: nat, base: nat, upper: bool) -> Seq<char>
    recommends
        2 <= base <= 16,
    decreases n,
        when 2 <= base
        via spec_numeral_decreases
{
    if n < base {
        seq![spec_digit(n, upper)]
    } else {
        spec_numeral(n / base, base, upper) + seq![spec_digit(n % base, upper)]
    }
}

#[via_fn]
proof fn spec_numeral_decreases(n: nat, base: nat, upper: bool) {
    if n >= base {
        vstd::arithmetic::div_mod::lemma_div_is_strictly_smaller(n as int, base as int);
    }
}

/// The full rendering template shared by every notation: `prefix`, then
/// `'('`, then the four rendered lanes separated by `", "`, then `')'`.
pub open spec fn spec_wrapped(prefix: Seq<char>, parts: Seq<Seq<char>>) -> Seq<char>
    recommends
        parts.len() == 4,
{
    prefix + seq!['('] + parts[0] + seq![',', ' '] + parts[1] + seq![',', ' '] + parts[2] + seq![
        ',',
        ' ',
    ] + parts[3] + seq![')']
}

/// The one-character string for a digit value below 16.
fn digit_str(d: u32, upper: bool) -> (r: &'static str)
    requires
        d < 16,
    ensures
        r@ =~= seq![spec_digit(d as nat, upper)],
{
    proof {
        reveal_strlit("0");
        reveal_strlit("1");
        reveal_strlit("2");
        reveal_strlit("3");
        reveal_strlit("4");
        reveal_strlit("5");
        reveal_strlit("6");
        reveal_strlit("7");
        reveal_strlit("8");
        reveal_strlit("9");
        reveal_strlit("a");
        reveal_strlit("b");
        reveal_strlit("c");
        reveal_strlit("d");
        reveal_strlit("e");
        reveal_strlit("f");
        reveal_strlit("A");
        reveal_strlit("B");
        reveal_strlit("C");
        reveal_strlit("D");
        reveal_strlit("E");
        reveal_strlit("F");
    }
    match d {
        0 => "0",
        1 => "1",
        2 => "2",
        3 => "3",
        4 => "4",
        5 => "5",
        6 => "6",
        7 => "7",
        8 => "8",
        9 => "9",
        10 => if upper {
            "A"
        } else {
            "a"
        },
        11 => if upper {
            "B"
        } else {
            "b"
        },
        12 => if upper {
            "C"
        } else {
            "c"
        },
        13 => if upper {
            "D"
        } else {
            "d"
        },
        14 => if upper {
            "E"
        } else {
            "e"
        },
        _ => if upper {
            "F"
        } else {
            "f"
        },
    }
}

/// Renders `n` in base `base` with no leading zeros, lowercase or uppercase
/// digits as asked.
pub fn numeral(n: u32, base: u32, upper: bool) -> (s: String)
    requires
        2 <= base <= 16,
    ensures
        s@ == spec_numeral(n as nat, base as nat, upper),
    decreases n,
{
    if n < base {
        digit_str(n, upper).to_owned()
    } else {
        let q = n / base;
        let d = n % base;
        proof {
            vstd::arithmetic::div_mod::lemma_div_is_strictly_smaller(n as int, base as int);
        }
        let s = numeral(q, base, upper);
        s.concat(digit_str(d, upper))
    }
}

/// Joins four already-rendered lanes under the shared template: `prefix`,
/// `'('`, the lanes separated by `", "`, `')'`.
pub fn render_wrapped(prefix: &str, p0: &str, p1: &str, p2: &str, p3: &str) -> (s: String)
    ensures
        s@ == spec_wrapped(prefix@, seq![p0@, p1@, p2@, p3@]),
{
    proof {
        reveal_strlit("(");
        reveal_strlit(", ");
        reveal_strlit(")");
        assert("("@ =~= seq!['(']);
        assert(", "@ =~= seq![',', ' ']);
        assert(")"@ =~= seq![')']);
    }
    let mut s = prefix.to_owned();
    s.append("(");
    s.append(p0);
    s.append(", ");
    s.append(p1);
    s.append(", ");
    s.append(p2);
    s.append(", ");
    s.append(p3);
    s.append(")");
    s
}

/// Joins four rendered lanes the way the human-readable notations
/// (plain decimal and both scientific forms) present a register: no name
/// prefix, just the parenthesized list.
pub fn render_display(p0: &str, p1: &str, p2: &str, p3: &str) -> (s: String)
    ensures
        s@ == spec_wrapped(Seq::empty(), seq![p0@, p1@, p2@, p3@]),
{
    let s = render_wrapped("", p0, p1, p2, p3);
    proof {
        reveal_strlit("");
        assert(""@ =~= Seq::<char>::empty());
    }
    s
}

/// Joins four rendered lanes the way the debug notation presents a
/// register: the type name `m128` in front of the parenthesized list.
pub fn render_debug(p0: &str, p1: &str, p2: &str, p3: &str) -> (s: String)
    ensures
        s@ == spec_wrapped("m128"@, seq![p0@, p1@, p2@, p3@]),
{
    render_wrapped("m128", p0, p1, p2, p3)
}

} // verus!
