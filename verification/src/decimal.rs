//! Base-10 signed integers written as text.

use vstd::prelude::*;

verus! {

/// Whether `c` is one of the ASCII digits `0` to `9`.
pub open spec fn is_digit(c: char) -> bool {
    '0' <= c && c <= '9'
}

/// The number that the digit `c` stands for.
pub open spec fn digit_value(c: char) -> int {
    c as int - '0' as int
}

/// Whether every character of `s` is an ASCII digit.
pub open spec fn all_digits(s: Seq<char>) -> bool {
    forall|i: int| 0 <= i < s.len() ==> is_digit(#[trigger] s[i])
}

/// The natural number that the digit string `s` denotes; 0 for the empty
/// string.
pub open spec fn digits_value(s: Seq<char>) -> int
    decreases s.len(),
{
    if s.len() == 0 {
        0
    } else {
        10 * digits_value(s.drop_last()) + digit_value(s.last())
    }
}

/// Whether `s` starts with a sign character.
pub open spec fn has_sign(s: Seq<char>) -> bool {
    s.len() > 0 && (s[0] == '+' || s[0] == '-')
}

/// The part of `s` behind its optional sign.
pub open spec fn magnitude(s: Seq<char>) -> Seq<char> {
    if has_sign(s) {
        s.subrange(1, s.len() as int)
    } else {
        s
    }
}

/// Whether `s` is an optional `+` or `-` followed by one or more ASCII
/// digits and nothing else.
pub open spec fn is_decimal(s: Seq<char>) -> bool {
    magnitude(s).len() > 0 && all_digits(magnitude(s))
}

/// The integer that the decimal text `s` denotes.
pub open spec fn decimal_value(s: Seq<char>) -> int {
    if s.len() > 0 && s[0] == '-' {
        -digits_value(magnitude(s))
    } else {
        digits_value(magnitude(s))
    }
}

/// The value of `s` as a 32-bit signed integer: `Some` exactly when `s` is
/// decimal text whose value lies between `i32::MIN` and `i32::MAX`.
pub open spec fn decimal_i32(s: Seq<char>) -> Option<int> {
    if is_decimal(s) && i32::MIN <= decimal_value(s) <= i32::MAX {
        Some(decimal_value(s))
    } else {
        None
    }
}

/// Reads `s` as a base-10 signed 32-bit integer.
///
/// Leading zeros are accepted; whitespace, underscores, a lone sign, the
/// empty string and values outside the range of `i32` are not.
pub fn parse_i32(s: &str) -> (r: Option<i32>)
    ensures
        (match r {
            Some(v) => decimal_i32(s@) == Some(v as int),
            None => decimal_i32(s@) is None,
        }),
{
    // One past the largest magnitude that any i32 has: the accumulator
    // stops there, so that digits without end cannot overflow it.
    let cap: i64 = 2147483649;
    let mut at_start: bool = true;
    let mut signed: bool = false;
    let mut negative: bool = false;
    let mut any_digit: bool = false;
    let mut acc: i64 = 0;
    for c in it: s.chars()
        invariant
            it.seq() == s@,
            cap == 2147483649,
            at_start <==> it.index() == 0,
            at_start ==> !signed,
            !at_start ==> (signed <==> has_sign(s@)),
            negative <==> signed && s@[0] == '-',
            any_digit <==> it.index() > (if signed { 1int } else { 0int }),
            all_digits(s@.subrange(if signed { 1int } else { 0int }, it.index())),
            0 <= acc <= cap,
            acc < cap ==> acc == digits_value(
                s@.subrange(if signed { 1int } else { 0int }, it.index()),
            ),
            acc == cap ==> digits_value(
                s@.subrange(if signed { 1int } else { 0int }, it.index()),
            ) >= cap,
    {
        if at_start && (c == '+' || c == '-') {
            signed = true;
            negative = c == '-';
        } else if '0' <= c && c <= '9' {
            let d: i64 = (c as u32 - '0' as u32) as i64;
            proof {
                let from = if signed { 1int } else { 0int };
                let next = s@.subrange(from, it.index() + 1);
                assert(next.drop_last() =~= s@.subrange(from, it.index()));
            }
            acc = acc * 10 + d;
            if acc > cap {
                acc = cap;
            }
            any_digit = true;
        } else {
            proof {
                let from = if signed { 1int } else { 0int };
                assert(magnitude(s@)[it.index() - from] == c);
            }
            return None;
        }
        at_start = false;
    }
    assert(s@.subrange(if signed { 1int } else { 0int }, s@.len() as int) =~= magnitude(s@));
    if !any_digit {
        None
    } else if negative {
        if acc <= 2147483648 {
            Some((-acc) as i32)
        } else {
            None
        }
    } else {
        if acc <= 2147483647 {
            Some(acc as i32)
        } else {
            None
        }
    }
}

} // verus!
