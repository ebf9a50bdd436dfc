//! Rendering of monetary amounts. An amount is an integer number of cents;
//! it is displayed as `$<whole>.<hundredths>` with the cent part always two
//! digits, zero-padded.

use vstd::prelude::*;
use vstd::string::*;

verus! {

/// The character for a single decimal digit.
pub open spec fn digit_char(d: int) -> char {
    if d == 0 {
        '0'
    } else if d == 1 {
        '1'
    } else if d == 2 {
        '2'
    } else if d == 3 {
        '3'
    } else if d == 4 {
        '4'
    } else if d == 5 {
        '5'
    } else if d == 6 {
        '6'
    } else if d == 7 {
        '7'
    } else if d == 8 {
        '8'
    } else {
        '9'
    }
}

/// The decimal digits of `n`, most significant first, with no leading zeros
/// (a single `'0'` for zero itself).
pub open spec fn dec_chars(n: int) -> Seq<char>
    recommends
        n >= 0,
    decreases n,
{
    if n < 10 {
        seq![digit_char(n)]
    } else {
        dec_chars(n / 10).push(digit_char(n % 10))
    }
}

/// The rendering of `raw` cents as `$<whole>.<hundredths>`: a dollar sign,
/// the whole-dollar part in decimal, a point, and the cent part padded to
/// two digits.
pub open spec fn money_chars(raw: int) -> Seq<char>
    recommends
        raw >= 0,
{
    let cents = raw % 100;
    let padded = if cents < 10 {
        seq!['0'].push(digit_char(cents))
    } else {
        dec_chars(cents)
    };
    seq!['$'] + dec_chars(raw / 100) + seq!['.'] + padded
}

/// The one-character string for a decimal digit.
fn digit_str(d: u32) -> (r: &'static str)
    requires
        d < 10,
    ensures
        r@ == seq![digit_char(d as int)],
{
    proof {
        reveal_strlit("0");
        reveal_strlit("1");
        reveal_strlit("2");
        reveal_strlit("3");
        reveal_strlit("4");
        reveal_strlit("5");
        reveal_strlit("6");
        reveal_strlit("7");
        reveal_strlit("8");
        reveal_strlit("9");
    }
    let r = match d {
        0 => "0",
        1 => "1",
        2 => "2",
        3 => "3",
        4 => "4",
        5 => "5",
        6 => "6",
        7 => "7",
        8 => "8",
        _ => "9",
    };
    proof {
        assert(r@ =~= seq![digit_char(d as int)]);
    }
    r
}

/// The decimal rendering of `n`.
pub fn dec_string(n: u32) -> (r: String)
    ensures
        r@ == dec_chars(n as int),
    decreases n,
{
    if n < 10 {
        String::from_str(digit_str(n))
    } else {
        let prefix = dec_string(n / 10);
        let r = prefix.concat(digit_str(n % 10));
        proof {
            assert(r@ =~= dec_chars(n as int));
        }
        r
    }
}

/// Renders `raw_money` cents as `$<whole>.<hundredths>`, the cent part
/// always two digits.
pub fn format_money(raw_money: i32) -> (r: String)
    requires
        raw_money >= 0,
    ensures
        r@ == money_chars(raw_money as int),
{
    let total: u32 = raw_money as u32;
    let whole: u32 = total / 100;
    let cents: u32 = total % 100;
    let mut r = String::from_str("$");
    proof {
        reveal_strlit("$");
    }
    let whole_str = dec_string(whole);
    r.append(whole_str.as_str());
    r.append(".");
    proof {
        reveal_strlit(".");
    }
    if cents < 10 {
        r.append("0");
        proof {
            reveal_strlit("0");
        }
    }
    let cents_str = dec_string(cents);
    r.append(cents_str.as_str());
    proof {
        if cents < 10 {
            assert(dec_chars(cents as int) =~= seq![digit_char(cents as int)]);
        }
        assert(r@ =~= money_chars(raw_money as int));
    }
    r
}

} // verus!
