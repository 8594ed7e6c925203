//! Decimal rendering of integers, verified against a sequence-level
//! specification, together with a "contains" relation on character sequences
//! used by the formatting contracts of the service.

use vstd::prelude::*;
use vstd::string::StringExecFns;

verus! {

/// The character for a single decimal digit.
pub open spec fn dec_digit(d: nat) -> char {
    if d == 0 {
        '0'
    } else if d == 1 {
        '1'
    } else if d == 2 {
        '2'
    } else if d == 3 {
        '3'
    } else if d == 4 {
        '4'
    } else if d == 5 {
        '5'
    } else if d == 6 {
        '6'
    } else if d == 7 {
        '7'
    } else if d == 8 {
        '8'
    } else {
        '9'
    }
}

/// The decimal rendering of `n`, most significant digit first, with no
/// leading zeros (except for `n == 0`, rendered as "0").
pub open spec fn dec_str(n: nat) -> Seq<char>
    decreases n,
{
    if n < 10 {
        seq![dec_digit(n)]
    } else {
        dec_str(n / 10).push(dec_digit(n % 10))
    }
}

/// `needle` occurs in `hay` as a contiguous run of characters.
pub open spec fn contains_seq(hay: Seq<char>, needle: Seq<char>) -> bool {
    exists|i: int|
        0 <= i && i + needle.len() <= hay.len() && #[trigger] hay.subrange(i, i + needle.len())
            == needle
}

/// The rendering of a quantity of `c` hundredths: the whole part in decimal,
/// a point, and exactly two decimal places.
pub open spec fn centi_str(c: nat) -> Seq<char> {
    dec_str(c / 100) + seq!['.', dec_digit((c % 100) / 10), dec_digit(c % 10)]
}

/// A sequence that stands between a prefix and a suffix occurs in the whole.
pub proof fn lemma_contains_part(p: Seq<char>, n: Seq<char>, s: Seq<char>, t: Seq<char>)
    requires
        t =~= p + n + s,
    ensures
        contains_seq(t, n),
{
    assert(t.subrange(p.len() as int, p.len() as int + n.len()) =~= n);
}

/// A single decimal digit as a string slice.
fn digit_str(d: u32) -> (s: &'static str)
    requires
        d < 10,
    ensures
        s@ == seq![dec_digit(d as nat)],
{
    let s: &'static str = match d {
        0 => "0",
        1 => "1",
        2 => "2",
        3 => "3",
        4 => "4",
        5 => "5",
        6 => "6",
        7 => "7",
        8 => "8",
        _ => "9",
    };
    proof {
        reveal_strlit("0");
        reveal_strlit("1");
        reveal_strlit("2");
        reveal_strlit("3");
        reveal_strlit("4");
        reveal_strlit("5");
        reveal_strlit("6");
        reveal_strlit("7");
        reveal_strlit("8");
        reveal_strlit("9");
        assert(s@ =~= seq![dec_digit(d as nat)]);
    }
    s
}

/// The decimal rendering of `n` as an owned string.
pub fn u32_to_string(n: u32) -> (s: String)
    ensures
        s@ == dec_str(n as nat),
    decreases n,
{
    if n < 10 {
        digit_str(n).to_owned()
    } else {
        let mut s = u32_to_string(n / 10);
        s.append(digit_str(n % 10));
        proof {
            assert(s@ =~= dec_str(n as nat));
        }
        s
    }
}

/// The rendering of `c` hundredths as an owned string, with exactly two
/// decimal places.
pub fn format_centi(c: u32) -> (s: String)
    ensures
        s@ == centi_str(c as nat),
{
    let mut s = u32_to_string(c / 100);
    s.append(".");
    proof {
        reveal_strlit(".");
    }
    assert(c % 100 < 100);
    assert((c % 100) / 10 < 10);
    s.append(digit_str((c % 100) / 10));
    s.append(digit_str(c % 10));
    proof {
        assert(s@ =~= centi_str(c as nat));
    }
    s
}

} // verus!
