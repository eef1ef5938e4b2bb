//! Decimal rendering of integers, verified against a sequence-level
//! specification of the digit string.

use vstd::prelude::*;

verus! {

/// The character for one decimal digit value.
pub open spec fn dec_digit_char(d: int) -> char {
    if d == 0 {
        '0'
    } else if d == 1 {
        '1'
    } else if d == 2 {
        '2'
    } else if d == 3 {
        '3'
    } else if d == 4 {
        '4'
    } else if d == 5 {
        '5'
    } else if d == 6 {
        '6'
    } else if d == 7 {
        '7'
    } else if d == 8 {
        '8'
    } else {
        '9'
    }
}

/// The decimal digit string of a non-negative integer, most significant
/// digit first, without leading zeroes (a single zero for 0).
pub open spec fn dec_str_of(n: int) -> Seq<char>
    recommends
        n >= 0,
    decreases n,
{
    if n < 10 {
        seq![dec_digit_char(n)]
    } else {
        dec_str_of(n / 10) + seq![dec_digit_char(n % 10)]
    }
}

/// The decimal digit string of an integer, with a leading minus sign when it
/// is negative.
pub open spec fn signed_dec_str_of(n: int) -> Seq<char> {
    if n < 0 {
        seq!['-'] + dec_str_of(-n)
    } else {
        dec_str_of(n)
    }
}

/// One decimal digit as a string slice.
fn digit_str(d: u32) -> (r: &'static str)
    requires
        d < 10,
    ensures
        r@ == seq![dec_digit_char(d as int)],
{
    proof {
        reveal_strlit("0");
        reveal_strlit("1");
        reveal_strlit("2");
        reveal_strlit("3");
        reveal_strlit("4");
        reveal_strlit("5");
        reveal_strlit("6");
        reveal_strlit("7");
        reveal_strlit("8");
        reveal_strlit("9");
    }
    match d {
        0 => "0",
        1 => "1",
        2 => "2",
        3 => "3",
        4 => "4",
        5 => "5",
        6 => "6",
        7 => "7",
        8 => "8",
        _ => "9",
    }
}

/// Render an unsigned number in decimal.
pub fn u32_to_dec_string(n: u32) -> (s: String)
    ensures
        s@ == dec_str_of(n as int),
    decreases n,
{
    if n < 10 {
        digit_str(n).to_owned()
    } else {
        let rest = u32_to_dec_string(n / 10);
        rest.concat(digit_str(n % 10))
    }
}

/// Render a signed number in decimal, minus sign first when negative.
pub fn i32_to_dec_string(n: i32) -> (s: String)
    ensures
        s@ == signed_dec_str_of(n as int),
{
    if n >= 0 {
        u32_to_dec_string(n as u32)
    } else {
        let magnitude: u32 = (-(n as i64)) as u32;
        proof {
            reveal_strlit("-");
        }
        let sign: String = "-".to_owned();
        sign.concat(u32_to_dec_string(magnitude).as_str())
    }
}

} // verus!
