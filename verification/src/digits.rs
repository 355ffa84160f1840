//! Decimal rendering of integers as character sequences: the building block
//! for the clock's time and date strings, the lunar-date string and the
//! cache-busting query parameter.

use vstd::prelude::*;

verus! {

/// The character for one decimal digit.
pub open spec fn digit_char(d: int) -> char {
    if d == 0 {
        '0'
    } else if d == 1 {
        '1'
    } else if d == 2 {
        '2'
    } else if d == 3 {
        '3'
    } else if d == 4 {
        '4'
    } else if d == 5 {
        '5'
    } else if d == 6 {
        '6'
    } else if d == 7 {
        '7'
    } else if d == 8 {
        '8'
    } else {
        '9'
    }
}

/// The usual decimal rendering of a natural number, most significant digit
/// first, with no leading zeros (a single zero for 0).
pub open spec fn spec_udecimal(n: nat) -> Seq<char>
    decreases n,
{
    if n < 10 {
        seq![digit_char(n as int)]
    } else {
        spec_udecimal(n / 10).push(digit_char((n % 10) as int))
    }
}

/// Decimal rendering of a signed number: a leading '-' for negatives.
pub open spec fn spec_idecimal(i: int) -> Seq<char> {
    if i >= 0 {
        spec_udecimal(i as nat)
    } else {
        seq!['-'] + spec_udecimal((-i) as nat)
    }
}

/// A number below 100 rendered as exactly two digits, zero-padded.
pub open spec fn spec_two_digits(n: int) -> Seq<char> {
    seq![digit_char(n / 10), digit_char(n % 10)]
}

/// A number below 10000 rendered as exactly four digits, zero-padded.
pub open spec fn spec_four_digits(n: int) -> Seq<char> {
    spec_two_digits(n / 100) + spec_two_digits(n % 100)
}

/// The one-character string for a single decimal digit.
pub fn digit_str(d: u32) -> (r: &'static str)
    requires
        d < 10,
    ensures
        r@ == seq![digit_char(d as int)],
{
    let r: &'static str = if d == 0 {
        "0"
    } else if d == 1 {
        "1"
    } else if d == 2 {
        "2"
    } else if d == 3 {
        "3"
    } else if d == 4 {
        "4"
    } else if d == 5 {
        "5"
    } else if d == 6 {
        "6"
    } else if d == 7 {
        "7"
    } else if d == 8 {
        "8"
    } else {
        "9"
    };
    proof {
        reveal_strlit("0");
        reveal_strlit("1");
        reveal_strlit("2");
        reveal_strlit("3");
        reveal_strlit("4");
        reveal_strlit("5");
        reveal_strlit("6");
        reveal_strlit("7");
        reveal_strlit("8");
        reveal_strlit("9");
        assert(r@ =~= seq![digit_char(d as int)]);
    }
    r
}

/// Unsigned decimal rendering.
pub fn u32_decimal(n: u32) -> (r: String)
    ensures
        r@ == spec_udecimal(n as nat),
    decreases n,
{
    if n < 10 {
        String::from_str(digit_str(n))
    } else {
        let prefix = u32_decimal(n / 10);
        let r = prefix.concat(digit_str(n % 10));
        proof {
            assert(r@ =~= spec_udecimal(n as nat));
        }
        r
    }
}

/// Signed decimal rendering.
pub fn i32_decimal(n: i32) -> (r: String)
    ensures
        r@ == spec_idecimal(n as int),
{
    if n >= 0 {
        u32_decimal(n as u32)
    } else {
        let mag64: i64 = -(n as i64);
        let digits = u32_decimal(mag64 as u32);
        let r = String::from_str("-").concat(digits.as_str());
        proof {
            reveal_strlit("-");
            assert(r@ =~= spec_idecimal(n as int));
        }
        r
    }
}

/// Two-digit zero-padded rendering.
pub fn two_digit_string(n: u32) -> (r: String)
    requires
        n < 100,
    ensures
        r@ == spec_two_digits(n as int),
{
    let r = String::from_str(digit_str(n / 10)).concat(digit_str(n % 10));
    proof {
        assert(r@ =~= spec_two_digits(n as int));
    }
    r
}

/// Four-digit zero-padded rendering.
pub fn four_digit_string(n: u32) -> (r: String)
    requires
        n < 10000,
    ensures
        r@ == spec_four_digits(n as int),
{
    let high = two_digit_string(n / 100);
    let low = two_digit_string(n % 100);
    let r = high.concat(low.as_str());
    proof {
        assert(r@ =~= spec_four_digits(n as int));
    }
    r
}

} // verus!
