//! Exact decimal rendering of integers and fixed-point quantities, used for
//! the progress line in place of floating-point formatting.

use vstd::prelude::*;

verus! {

/// The decimal digit character for `d` (`d < 10`).
pub open spec fn digit_char(d: nat) -> char
    recommends
        d < 10,
{
    if d == 0 { '0' } else if d == 1 { '1' } else if d == 2 { '2' } else if d == 3 { '3' }
    else if d == 4 { '4' } else if d == 5 { '5' } else if d == 6 { '6' } else if d == 7 { '7' }
    else if d == 8 { '8' } else { '9' }
}

/// The decimal numeral of `n`, most significant digit first, without leading
/// zeros (the numeral of 0 is "0").
pub open spec fn dec_str(n: nat) -> Seq<char>
    decreases n,
{
    if n < 10 {
        seq![digit_char(n)]
    } else {
        dec_str(n / 10) + seq![digit_char(n % 10)]
    }
}

/// The two-digit, zero-padded numeral of `n` (`n < 100`).
pub open spec fn pad2_str(n: nat) -> Seq<char>
    recommends
        n < 100,
{
    seq![digit_char(n / 10), digit_char(n % 10)]
}

/// A quantity of `v` hundredths rendered with exactly two fractional digits:
/// the whole part in decimal, a point, and the fraction zero-padded.
pub open spec fn centi_str(v: nat) -> Seq<char> {
    dec_str(v / 100) + seq!['.'] + pad2_str(v % 100)
}

/// The one-character string for the digit `d`.
fn digit_str(d: u128) -> (r: &'static str)
    requires
        d < 10,
    ensures
        r@ == seq![digit_char(d as nat)],
{
    proof {
        reveal_strlit("0");
        reveal_strlit("1");
        reveal_strlit("2");
        reveal_strlit("3");
        reveal_strlit("4");
        reveal_strlit("5");
        reveal_strlit("6");
        reveal_strlit("7");
        reveal_strlit("8");
        reveal_strlit("9");
    }
    let r = if d == 0 { "0" } else if d == 1 { "1" } else if d == 2 { "2" } else if d == 3 { "3" }
    else if d == 4 { "4" } else if d == 5 { "5" } else if d == 6 { "6" } else if d == 7 { "7" }
    else if d == 8 { "8" } else { "9" };
    proof {
        assert(r@ =~= seq![digit_char(d as nat)]);
    }
    r
}

/// Renders `n` in decimal.
pub fn u128_to_decimal(n: u128) -> (r: String)
    ensures
        r@ == dec_str(n as nat),
    decreases n,
{
    if n < 10 {
        let r = String::from_str(digit_str(n));
        proof {
            assert(r@ =~= dec_str(n as nat));
        }
        r
    } else {
        let head = u128_to_decimal(n / 10);
        let r = head.concat(digit_str(n % 10));
        proof {
            assert(r@ =~= dec_str(n as nat));
        }
        r
    }
}

/// Renders `n < 100` as exactly two digits.
pub fn pad2(n: u128) -> (r: String)
    requires
        n < 100,
    ensures
        r@ == pad2_str(n as nat),
{
    let head = String::from_str(digit_str(n / 10));
    let r = head.concat(digit_str(n % 10));
    proof {
        assert(r@ =~= pad2_str(n as nat));
    }
    r
}

/// Renders a quantity of `v` hundredths with two fractional digits.
pub fn render_centi(v: u128) -> (r: String)
    ensures
        r@ == centi_str(v as nat),
{
    proof {
        reveal_strlit(".");
    }
    let whole = u128_to_decimal(v / 100);
    let frac = pad2(v % 100);
    let r = whole.concat(".").concat(frac.as_str());
    proof {
        assert(r@ =~= centi_str(v as nat));
    }
    r
}

} // verus!
