//! Decimal rendering of unsigned integers and the size labels of the
//! benchmark report: sizes of a million or more render as "<n>M", sizes of a
//! thousand or more as "<n>K", and smaller sizes as plain integers, with
//! integer (truncating) division in each case.

use vstd::prelude::*;
use vstd::string::StringExecFns;

verus! {

/// The character for a single decimal digit.
pub open spec fn digit_char(d: int) -> char {
    if d == 0 {
        '0'
    } else if d == 1 {
        '1'
    } else if d == 2 {
        '2'
    } else if d == 3 {
        '3'
    } else if d == 4 {
        '4'
    } else if d == 5 {
        '5'
    } else if d == 6 {
        '6'
    } else if d == 7 {
        '7'
    } else if d == 8 {
        '8'
    } else {
        '9'
    }
}

/// The decimal digit string of a non-negative integer, most significant
/// digit first, with no leading zeros (except for the number 0 itself).
pub open spec fn dec_digits(n: int) -> Seq<char>
    decreases n,
{
    if n < 10 {
        seq![digit_char(n)]
    } else {
        dec_digits(n / 10).push(digit_char(n % 10))
    }
}

/// The label that the report gives an input size.
pub open spec fn spec_size_label(size: int) -> Seq<char> {
    if size >= 1000000 {
        dec_digits(size / 1000000).push('M')
    } else if size >= 1000 {
        dec_digits(size / 1000).push('K')
    } else {
        dec_digits(size)
    }
}

/// The one-character string for a single decimal digit.
pub fn digit_str(d: u64) -> (s: &'static str)
    requires
        d < 10,
    ensures
        s@ =~= seq![digit_char(d as int)],
{
    proof {
        reveal_strlit("0");
        reveal_strlit("1");
        reveal_strlit("2");
        reveal_strlit("3");
        reveal_strlit("4");
        reveal_strlit("5");
        reveal_strlit("6");
        reveal_strlit("7");
        reveal_strlit("8");
        reveal_strlit("9");
    }
    if d == 0 {
        "0"
    } else if d == 1 {
        "1"
    } else if d == 2 {
        "2"
    } else if d == 3 {
        "3"
    } else if d == 4 {
        "4"
    } else if d == 5 {
        "5"
    } else if d == 6 {
        "6"
    } else if d == 7 {
        "7"
    } else if d == 8 {
        "8"
    } else {
        "9"
    }
}

/// Renders a non-negative integer in decimal, most significant digit first.
pub fn dec_string(n: u128) -> (s: String)
    ensures
        s@ =~= dec_digits(n as int),
    decreases n,
{
    if n < 10 {
        digit_str(n as u64).to_owned()
    } else {
        let mut s = dec_string(n / 10);
        s.append(digit_str((n % 10) as u64));
        s
    }
}

/// Renders the size label of one benchmark row: "<n>M" for a million or
/// more, "<n>K" for a thousand or more, the plain decimal otherwise.
pub fn format_size(size: usize) -> (s: String)
    ensures
        s@ =~= spec_size_label(size as int),
{
    proof {
        reveal_strlit("M");
        reveal_strlit("K");
    }
    if size >= 1000000 {
        let mut s = dec_string((size / 1000000) as u128);
        s.append("M");
        s
    } else if size >= 1000 {
        let mut s = dec_string((size / 1000) as u128);
        s.append("K");
        s
    } else {
        dec_string(size as u128)
    }
}

} // verus!
