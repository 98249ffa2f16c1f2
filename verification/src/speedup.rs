//! Speedup ratios of the benchmark report. A ratio is the baseline (scalar)
//! duration divided by a comparison duration, kept in hundredths so that the
//! report can print it with two decimal places; a zero comparison duration
//! yields the sentinel ratio 0 rather than a division by zero.

use vstd::prelude::*;
use vstd::string::StringExecFns;
use crate::label::{dec_digits, digit_char, dec_string, digit_str};

verus! {

/// The speedup ratio in hundredths, rounded to nearest: how many times
/// faster the other strategy was than the scalar baseline. 0 when the other
/// duration is 0.
pub open spec fn spec_speedup_centi(scalar_ns: int, other_ns: int) -> int {
    if other_ns == 0 {
        0
    } else {
        (100 * scalar_ns + other_ns / 2) / other_ns
    }
}

/// The digits of a ratio in hundredths, printed with two decimal places:
/// the integer part, a point, then exactly two fractional digits.
pub open spec fn spec_speedup_label(centi: int) -> Seq<char> {
    dec_digits(centi / 100).push('.').push(digit_char((centi % 100) / 10)).push(
        digit_char(centi % 10),
    )
}

/// Computes the speedup ratio of a strategy against the scalar baseline, in
/// hundredths. A zero denominator yields 0.
pub fn speedup_centi(scalar_ns: u64, other_ns: u64) -> (r: u128)
    ensures
        r as int == spec_speedup_centi(scalar_ns as int, other_ns as int),
{
    if other_ns == 0 {
        0
    } else {
        let num: u128 = 100 * (scalar_ns as u128) + (other_ns as u128) / 2;
        num / (other_ns as u128)
    }
}

/// Renders a ratio held in hundredths with two decimal places, e.g. 200 as
/// "2.00".
pub fn format_speedup(centi: u128) -> (s: String)
    ensures
        s@ =~= spec_speedup_label(centi as int),
{
    proof {
        reveal_strlit(".");
    }
    let mut s = dec_string(centi / 100);
    s.append(".");
    s.append(digit_str(((centi % 100) / 10) as u64));
    s.append(digit_str((centi % 10) as u64));
    s
}

} // verus!
