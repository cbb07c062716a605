//! Rendering of balances for the account report: a fixed-point count of
//! 1/10000 units becomes decimal text with four fractional digits, and an
//! exact zero becomes a canonical unrounded `0`. The report writer that
//! prints the rows lives outside the library; it only formats what these
//! functions return.

use vstd::prelude::*;

verus! {

/// The decimal digit character for a value below ten.
pub open spec fn digit_char(d: nat) -> char {
    if d == 0 {
        '0'
    } else if d == 1 {
        '1'
    } else if d == 2 {
        '2'
    } else if d == 3 {
        '3'
    } else if d == 4 {
        '4'
    } else if d == 5 {
        '5'
    } else if d == 6 {
        '6'
    } else if d == 7 {
        '7'
    } else if d == 8 {
        '8'
    } else {
        '9'
    }
}

/// The decimal digits of a natural number, most significant first, with
/// no leading zeroes (a single `0` for zero itself).
pub open spec fn digits_of(n: nat) -> Seq<char>
    decreases n,
{
    if n < 10 {
        seq![digit_char(n)]
    } else {
        digits_of(n / 10).push(digit_char(n % 10))
    }
}

/// Four zero-padded decimal digits of a fractional part below 10000.
pub open spec fn frac4_of(f: nat) -> Seq<char> {
    seq![
        digit_char(f / 1000 % 10),
        digit_char(f / 100 % 10),
        digit_char(f / 10 % 10),
        digit_char(f % 10),
    ]
}

/// The absolute value of a balance, as an unbounded integer.
pub open spec fn abs_units(units: i128) -> nat {
    if units < 0 {
        (-(units as int)) as nat
    } else {
        units as nat
    }
}

/// How a balance in 1/10000 units reads in the report: an exact zero is
/// the single character `0`; any other value is an optional minus sign,
/// the integer part without leading zeroes, a point, and exactly four
/// fractional digits.
pub open spec fn spec_render_units(units: i128) -> Seq<char> {
    if units == 0 {
        seq!['0']
    } else {
        let sign: Seq<char> = if units < 0 {
            seq!['-']
        } else {
            Seq::empty()
        };
        sign + digits_of(abs_units(units) / 10000) + seq!['.'] + frac4_of(abs_units(units) % 10000)
    }
}

/// The one-character string for a decimal digit.
fn digit_str(d: u128) -> (s: &'static str)
    requires
        d < 10,
    ensures
        s@ == seq![digit_char(d as nat)],
{
    proof {
        reveal_strlit("0");
        reveal_strlit("1");
        reveal_strlit("2");
        reveal_strlit("3");
        reveal_strlit("4");
        reveal_strlit("5");
        reveal_strlit("6");
        reveal_strlit("7");
        reveal_strlit("8");
        reveal_strlit("9");
    }
    let s: &'static str = if d == 0 {
        "0"
    } else if d == 1 {
        "1"
    } else if d == 2 {
        "2"
    } else if d == 3 {
        "3"
    } else if d == 4 {
        "4"
    } else if d == 5 {
        "5"
    } else if d == 6 {
        "6"
    } else if d == 7 {
        "7"
    } else if d == 8 {
        "8"
    } else {
        "9"
    };
    proof {
        assert(s@ =~= seq![digit_char(d as nat)]);
    }
    s
}

/// The decimal digits of a natural number, most significant first.
fn digits_string(n: u128) -> (s: String)
    ensures
        s@ == digits_of(n as nat),
    decreases n,
{
    if n < 10 {
        String::from_str(digit_str(n))
    } else {
        let mut s = digits_string(n / 10);
        s.append(digit_str(n % 10));
        s
    }
}

/// Renders a balance held as a count of 1/10000 units, exactly as
/// `spec_render_units` describes it: a canonical `0` for an exact zero,
/// otherwise a signed decimal with four fractional digits.
pub fn render_units(units: i128) -> (s: String)
    ensures
        s@ == spec_render_units(units),
{
    if units == 0 {
        let s = String::from_str("0");
        proof {
            reveal_strlit("0");
            assert(s@ =~= spec_render_units(units));
        }
        s
    } else {
        let neg = units < 0;
        let mag: u128 = if neg {
            ((-1i128 - units) as u128) + 1
        } else {
            units as u128
        };
        proof {
            assert(mag == abs_units(units));
        }
        let mut s = if neg {
            String::from_str("-")
        } else {
            String::new()
        };
        s.append(digits_string(mag / 10000).as_str());
        s.append(".");
        let frac = mag % 10000;
        s.append(digit_str(frac / 1000 % 10));
        s.append(digit_str(frac / 100 % 10));
        s.append(digit_str(frac / 10 % 10));
        s.append(digit_str(frac % 10));
        proof {
            reveal_strlit("-");
            reveal_strlit(".");
            assert(s@ =~= spec_render_units(units));
        }
        s
    }
}

} // verus!
