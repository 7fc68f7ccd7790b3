//! Verified decimal rendering of small numbers.
//!
//! The statistic labels carry a percentile level as a decimal numeral
//! (`percentile_25`), and the engine wants the level as the textual fraction
//! of one (`0.25`).  Both renderings are computed here and pinned down by
//! exact specifications.

use vstd::prelude::*;
use vstd::string::StringExecFns;

verus! {

/// The character for one decimal digit.
pub open spec fn digit_char(d: nat) -> char {
    if d == 0 {
        '0'
    } else if d == 1 {
        '1'
    } else if d == 2 {
        '2'
    } else if d == 3 {
        '3'
    } else if d == 4 {
        '4'
    } else if d == 5 {
        '5'
    } else if d == 6 {
        '6'
    } else if d == 7 {
        '7'
    } else if d == 8 {
        '8'
    } else {
        '9'
    }
}

/// The decimal numeral of `n`, most significant digit first, no leading
/// zeros (and the single digit `0` for zero).
pub open spec fn dec_spec(n: nat) -> Seq<char>
    decreases n,
{
    if n < 10 {
        seq![digit_char(n)]
    } else {
        dec_spec(n / 10) + seq![digit_char(n % 10)]
    }
}

/// One decimal digit as a string slice.
fn digit_str(d: u8) -> (r: &'static str)
    requires
        d < 10,
    ensures
        r@ == seq![digit_char(d as nat)],
{
    let s = match d {
        0u8 => "0",
        1u8 => "1",
        2u8 => "2",
        3u8 => "3",
        4u8 => "4",
        5u8 => "5",
        6u8 => "6",
        7u8 => "7",
        8u8 => "8",
        _ => "9",
    };
    proof {
        reveal_strlit("0");
        reveal_strlit("1");
        reveal_strlit("2");
        reveal_strlit("3");
        reveal_strlit("4");
        reveal_strlit("5");
        reveal_strlit("6");
        reveal_strlit("7");
        reveal_strlit("8");
        reveal_strlit("9");
    }
    s
}

/// The decimal numeral of an 8-bit number.
pub fn u8_decimal(n: u8) -> (r: String)
    ensures
        r@ == dec_spec(n as nat),
{
    let mut s = String::new();
    if n >= 100 {
        s.append(digit_str((n / 10) / 10));
        s.append(digit_str((n / 10) % 10));
        s.append(digit_str(n % 10));
    } else if n >= 10 {
        s.append(digit_str(n / 10));
        s.append(digit_str(n % 10));
    } else {
        s.append(digit_str(n));
    }
    proof {
        let nn = n as nat;
        if n >= 100 {
            assert(dec_spec(nn) == dec_spec(nn / 10) + seq![digit_char(nn % 10)]);
            assert(dec_spec(nn / 10) == dec_spec(nn / 10 / 10) + seq![digit_char((nn / 10) % 10)]);
            assert(dec_spec(nn / 10 / 10) == seq![digit_char(nn / 10 / 10)]);
        } else if n >= 10 {
            assert(dec_spec(nn) == dec_spec(nn / 10) + seq![digit_char(nn % 10)]);
            assert(dec_spec(nn / 10) == seq![digit_char(nn / 10)]);
        }
        assert(s@ =~= dec_spec(n as nat));
    }
    s
}

/// The level `p`, given in percent, rendered as a decimal fraction of one:
/// `100` becomes `1`, `50` becomes `0.5`, `25` becomes `0.25`, `5` becomes
/// `0.05`.
pub open spec fn percent_fraction_spec(p: u8) -> Seq<char> {
    if p == 100 {
        "1"@
    } else if p % 10 == 0 {
        "0."@ + seq![digit_char((p / 10) as nat)]
    } else if p < 10 {
        "0.0"@ + seq![digit_char(p as nat)]
    } else {
        "0."@ + seq![digit_char((p / 10) as nat), digit_char((p % 10) as nat)]
    }
}

/// Renders a percent level as the textual fraction the engine parses.
pub fn percent_fraction(p: u8) -> (r: String)
    requires
        1 <= p <= 100,
    ensures
        r@ == percent_fraction_spec(p),
{
    let mut s = String::new();
    if p == 100 {
        s.append("1");
    } else if p % 10 == 0 {
        s.append("0.");
        s.append(digit_str(p / 10));
    } else if p < 10 {
        s.append("0.0");
        s.append(digit_str(p));
    } else {
        s.append("0.");
        s.append(digit_str(p / 10));
        s.append(digit_str(p % 10));
    }
    proof {
        assert(s@ =~= percent_fraction_spec(p));
    }
    s
}

} // verus!
