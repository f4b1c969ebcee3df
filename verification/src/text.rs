//! Decimal rendering of unsigned integers and of fixed-point quantities.

use vstd::prelude::*;
use vstd::string::StringExecFns;

verus! {

/// The character that stands for the decimal digit `d` (`'0'` outside `0..=9`).
pub open spec fn digit_char(d: int) -> char {
    if d == 1 {
        '1'
    } else if d == 2 {
        '2'
    } else if d == 3 {
        '3'
    } else if d == 4 {
        '4'
    } else if d == 5 {
        '5'
    } else if d == 6 {
        '6'
    } else if d == 7 {
        '7'
    } else if d == 8 {
        '8'
    } else if d == 9 {
        '9'
    } else {
        '0'
    }
}

/// The decimal numeral of `n`: no sign, no leading zeros, `"0"` for zero.
pub open spec fn decimal(n: nat) -> Seq<char>
    decreases n,
{
    if n < 10 {
        seq![digit_char(n as int)]
    } else {
        decimal(n / 10).push(digit_char((n % 10) as int))
    }
}

/// A one-character string holding the digit `d`.
pub fn digit_str(d: u64) -> (s: &'static str)
    ensures
        s@ == seq![digit_char(d as int)],
{
    proof {
        reveal_strlit("0");
        reveal_strlit("1");
        reveal_strlit("2");
        reveal_strlit("3");
        reveal_strlit("4");
        reveal_strlit("5");
        reveal_strlit("6");
        reveal_strlit("7");
        reveal_strlit("8");
        reveal_strlit("9");
    }
    let s: &'static str = match d {
        0 => "0",
        1 => "1",
        2 => "2",
        3 => "3",
        4 => "4",
        5 => "5",
        6 => "6",
        7 => "7",
        8 => "8",
        9 => "9",
        _ => "0",
    };
    assert(s@ =~= seq![digit_char(d as int)]);
    s
}

/// Renders a wide `n` in decimal.
pub fn wide_decimal_string(n: u128) -> (s: String)
    ensures
        s@ == decimal(n as nat),
    decreases n,
{
    if n < 10 {
        String::from_str(digit_str(n as u64))
    } else {
        let mut s = wide_decimal_string(n / 10);
        s.append(digit_str((n % 10) as u64));
        assert(s@ =~= decimal(n as nat));
        s
    }
}

/// Renders `n` in decimal.
pub fn decimal_string(n: u64) -> (s: String)
    ensures
        s@ == decimal(n as nat),
{
    wide_decimal_string(n as u128)
}

/// The quotient `num / den` in tenths, rounded to the nearest tenth (halves
/// go up).
pub open spec fn ratio_tenths(num: nat, den: nat) -> nat {
    (20 * num + den) / (2 * den)
}

/// The quotient `num / den` written with exactly one fractional digit.
pub open spec fn ratio_text(num: nat, den: nat) -> Seq<char> {
    decimal(ratio_tenths(num, den) / 10) + seq!['.'] + seq![
        digit_char((ratio_tenths(num, den) % 10) as int),
    ]
}

/// A quantity counted in thousandths, written with exactly one fractional
/// digit: `9960` reads `"10.0"`, `9940` reads `"9.9"`.
pub open spec fn one_decimal(milli: nat) -> Seq<char> {
    ratio_text(milli, 1_000)
}

/// Renders `num / den` with one fractional digit.
pub fn ratio_string(num: u64, den: u64) -> (s: String)
    requires
        den > 0,
    ensures
        s@ == ratio_text(num as nat, den as nat),
{
    let tenths: u128 = (20 * (num as u128) + (den as u128)) / (2 * (den as u128));
    assert(tenths == ratio_tenths(num as nat, den as nat));
    let mut s = wide_decimal_string(tenths / 10);
    proof {
        reveal_strlit(".");
    }
    s.append(".");
    s.append(digit_str((tenths % 10) as u64));
    assert(s@ =~= ratio_text(num as nat, den as nat));
    s
}

/// Renders a quantity counted in thousandths with one fractional digit.
pub fn one_decimal_string(milli: u64) -> (s: String)
    ensures
        s@ == one_decimal(milli as nat),
{
    ratio_string(milli, 1_000)
}

/// Half of `n`, written without a fraction where `n` is even and with
/// `".5"` where it is odd.
pub open spec fn half_text(n: nat) -> Seq<char> {
    if n % 2 == 0 {
        decimal(n / 2)
    } else {
        decimal(n / 2) + seq!['.', '5']
    }
}

/// Renders half of `n`.
pub fn half_string(n: u64) -> (s: String)
    ensures
        s@ == half_text(n as nat),
{
    let mut s = decimal_string(n / 2);
    if n % 2 != 0 {
        proof {
            reveal_strlit(".5");
        }
        s.append(".5");
        assert(s@ =~= half_text(n as nat));
    }
    s
}

} // verus!
