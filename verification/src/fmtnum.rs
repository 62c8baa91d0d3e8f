//! Decimal rendering of the integer values that appear in generated
//! text: register numbers, immediates, array lengths. The spec functions
//! give the exact character sequence, most significant digit first, with
//! no leading zeros and a leading '-' for negative values.

use vstd::prelude::*;
use vstd::string::StringExecFns;

verus! {

/// The single character of the decimal digit `d`.
pub open spec fn dec_digit(d: nat) -> Seq<char> {
    if d == 0 {
        "0"@
    } else if d == 1 {
        "1"@
    } else if d == 2 {
        "2"@
    } else if d == 3 {
        "3"@
    } else if d == 4 {
        "4"@
    } else if d == 5 {
        "5"@
    } else if d == 6 {
        "6"@
    } else if d == 7 {
        "7"@
    } else if d == 8 {
        "8"@
    } else {
        "9"@
    }
}

/// The decimal digits of `n`: a single digit below ten, otherwise the
/// digits of `n / 10` followed by the last digit.
pub open spec fn dec_rep(n: nat) -> Seq<char>
    decreases n,
{
    if n < 10 {
        dec_digit(n)
    } else {
        dec_rep(n / 10) + dec_digit(n % 10)
    }
}

/// The decimal form of a signed value: '-' before the magnitude when
/// negative.
pub open spec fn dec_rep_signed(n: int) -> Seq<char> {
    if n < 0 {
        "-"@ + dec_rep((-n) as nat)
    } else {
        dec_rep(n as nat)
    }
}

/// The one-character string of the decimal digit `d`.
fn digit_str(d: u64) -> (r: &'static str)
    requires
        d < 10,
    ensures
        r@ == dec_digit(d as nat),
{
    match d {
        0 => "0",
        1 => "1",
        2 => "2",
        3 => "3",
        4 => "4",
        5 => "5",
        6 => "6",
        7 => "7",
        8 => "8",
        _ => "9",
    }
}

/// Append the decimal digits of `n` to `out`.
pub fn push_u64_dec(out: &mut String, n: u64)
    ensures
        final(out)@ == old(out)@ + dec_rep(n as nat),
    decreases n,
{
    if n < 10 {
        out.append(digit_str(n));
    } else {
        push_u64_dec(out, n / 10);
        out.append(digit_str(n % 10));
        proof {
            assert(out@ =~= old(out)@ + dec_rep(n as nat));
        }
    }
}

/// Append the decimal digits of `n` to `out`.
pub fn push_usize_dec(out: &mut String, n: usize)
    ensures
        final(out)@ == old(out)@ + dec_rep(n as nat),
{
    push_u64_dec(out, n as u64);
}

/// Append the decimal form of the signed value `n` to `out`, with a
/// leading '-' when it is negative.
pub fn push_i64_dec(out: &mut String, n: i64)
    ensures
        final(out)@ == old(out)@ + dec_rep_signed(n as int),
{
    if n >= 0 {
        push_u64_dec(out, n as u64);
    } else {
        out.append("-");
        let m: u64 = (-(n as i128)) as u64;
        proof {
            assert(m as nat == (-(n as int)) as nat);
        }
        push_u64_dec(out, m);
        proof {
            assert(out@ =~= old(out)@ + dec_rep_signed(n as int));
        }
    }
}

} // verus!
