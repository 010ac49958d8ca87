//! Decimal rendering of unsigned quantities, including the fixed
//! two-decimal form used by the uptime, memory, swap and disk sections.
//! A quotient `value / divisor` is scaled to hundredths, rounded half up,
//! and printed as `<integer part>.<two digits>`.

use vstd::prelude::*;
use vstd::string::StringExecFns;

verus! {

/// The decimal digit character for `d` (`0 <= d <= 9`).
pub open spec fn spec_digit_char(d: int) -> char {
    if d == 0 {
        '0'
    } else if d == 1 {
        '1'
    } else if d == 2 {
        '2'
    } else if d == 3 {
        '3'
    } else if d == 4 {
        '4'
    } else if d == 5 {
        '5'
    } else if d == 6 {
        '6'
    } else if d == 7 {
        '7'
    } else if d == 8 {
        '8'
    } else {
        '9'
    }
}

/// The usual base-ten rendering of a non-negative integer, without
/// leading zeros (except for the single digit `0` itself).
pub open spec fn spec_dec_digits(n: int) -> Seq<char>
    decreases n,
{
    if n < 10 {
        seq![spec_digit_char(n)]
    } else {
        spec_dec_digits(n / 10).push(spec_digit_char(n % 10))
    }
}

/// `value / divisor` scaled to hundredths and rounded half up.
pub open spec fn spec_scaled_hundredths(value: int, divisor: int) -> int {
    (200 * value + divisor) / (2 * divisor)
}

/// A count of hundredths rendered as `<units>.<two digits>`.
pub open spec fn spec_hundredths_string(s: int) -> Seq<char> {
    spec_dec_digits(s / 100) + seq!['.', spec_digit_char((s / 10) % 10), spec_digit_char(s % 10)]
}

/// The two-decimal rendering of the quotient `value / divisor`.
pub open spec fn spec_two_decimals(value: int, divisor: int) -> Seq<char> {
    spec_hundredths_string(spec_scaled_hundredths(value, divisor))
}

fn digit_str(d: u8) -> (r: &'static str)
    requires
        d < 10,
    ensures
        r@ == seq![spec_digit_char(d as int)],
{
    proof {
        reveal_strlit("0");
        reveal_strlit("1");
        reveal_strlit("2");
        reveal_strlit("3");
        reveal_strlit("4");
        reveal_strlit("5");
        reveal_strlit("6");
        reveal_strlit("7");
        reveal_strlit("8");
        reveal_strlit("9");
    }
    let r = match d {
        0 => "0",
        1 => "1",
        2 => "2",
        3 => "3",
        4 => "4",
        5 => "5",
        6 => "6",
        7 => "7",
        8 => "8",
        _ => "9",
    };
    proof {
        assert(r@ =~= seq![spec_digit_char(d as int)]);
    }
    r
}

/// Base-ten rendering of `n`.
pub fn dec_string(n: u128) -> (r: String)
    ensures
        r@ == spec_dec_digits(n as int),
    decreases n,
{
    if n < 10 {
        let mut s = String::new();
        s.append(digit_str(n as u8));
        proof {
            assert(s@ =~= spec_dec_digits(n as int));
        }
        s
    } else {
        let mut s = dec_string(n / 10);
        s.append(digit_str((n % 10) as u8));
        proof {
            assert(s@ =~= spec_dec_digits(n as int));
        }
        s
    }
}

/// A count of hundredths rendered as `<units>.<two digits>`.
pub fn hundredths_string(s: u128) -> (r: String)
    ensures
        r@ == spec_hundredths_string(s as int),
{
    let mut out = dec_string(s / 100);
    proof {
        reveal_strlit(".");
    }
    out.append(".");
    out.append(digit_str(((s / 10) % 10) as u8));
    out.append(digit_str((s % 10) as u8));
    proof {
        assert(out@ =~= spec_hundredths_string(s as int));
    }
    out
}

/// The quotient `value / divisor`, rounded half up to hundredths and
/// rendered with exactly two decimal digits.
pub fn two_decimals(value: u64, divisor: u64) -> (r: String)
    requires
        divisor >= 1,
    ensures
        r@ == spec_two_decimals(value as int, divisor as int),
{
    let num: u128 = 200 * (value as u128) + (divisor as u128);
    let den: u128 = 2 * (divisor as u128);
    hundredths_string(num / den)
}

} // verus!
