//! Cost computation: a net amount in cents is scaled by the fixed
//! tax-inclusive multiplier 1.255 and rendered to two decimal places.

use vstd::prelude::*;
use crate::text::{dec_str, digit_char};

verus! {

/// The gross amount in cents for a net amount in cents: the net scaled by
/// 1.255 and rounded to the nearest cent, ties away from zero.
pub open spec fn gross_cents(net_cents: int) -> int {
    if net_cents >= 0 {
        (net_cents * 1255 + 500) / 1000
    } else {
        -((-net_cents * 1255 + 500) / 1000)
    }
}

/// A value below 100 rendered as exactly two digits.
pub open spec fn two_digits(n: int) -> Seq<char> {
    if n < 10 {
        seq!['0', digit_char(n)]
    } else {
        dec_str(n)
    }
}

/// An amount in cents rendered with two decimal places, a minus sign first
/// when negative.
pub open spec fn money_str(cents: int) -> Seq<char>
    decreases (if cents < 0 {
        1int
    } else {
        0int
    }),
{
    if cents < 0 {
        seq!['-'] + money_str(-cents)
    } else {
        dec_str(cents / 100) + seq!['.'] + two_digits(cents % 100)
    }
}

fn format_nonneg_cents(mag: u64) -> (r: String)
    ensures
        r@ == money_str(mag as int),
{
    let euros = mag / 100;
    let frac = mag % 100;
    let mut r = crate::text::u64_to_string(euros);
    r.append(".");
    proof {
        reveal_strlit(".");
        assert("."@ =~= seq!['.']);
    }
    if frac < 10 {
        r.append("0");
        proof {
            reveal_strlit("0");
            assert("0"@ =~= seq![digit_char(0)]);
        }
        let d = crate::text::u64_to_string(frac);
        r.append(d.as_str());
        proof {
            assert(seq![digit_char(0)] + dec_str(frac as int) =~= two_digits(frac as int));
            assert(r@ =~= dec_str(mag as int / 100) + seq!['.'] + two_digits(mag as int % 100));
        }
    } else {
        let d = crate::text::u64_to_string(frac);
        r.append(d.as_str());
        proof {
            assert(r@ =~= dec_str(mag as int / 100) + seq!['.'] + two_digits(mag as int % 100));
        }
    }
    r
}

/// Renders the gross cost for a net amount in cents: the net scaled by
/// 1.255, rounded to the nearest cent (ties away from zero), with two
/// decimal places.
pub fn render_gross(net_cents: i64) -> (r: String)
    ensures
        r@ == money_str(gross_cents(net_cents as int)),
{
    if net_cents >= 0 {
        let q: i128 = net_cents as i128 * 1255 + 500;
        let g: i128 = q / 1000;
        proof {
            assert(g <= q / 1000);
            assert(q <= 9223372036854775807i128 * 1255 + 500);
            assert(g < 18446744073709551616i128) by {
                assert(q / 1000 <= (9223372036854775807i128 * 1255 + 500) / 1000);
            }
        }
        format_nonneg_cents(g as u64)
    } else {
        let q: i128 = (-(net_cents as i128)) * 1255 + 500;
        let g: i128 = q / 1000;
        proof {
            assert(q <= 9223372036854775808i128 * 1255 + 500);
            assert(g < 18446744073709551616i128) by {
                assert(q / 1000 <= (9223372036854775808i128 * 1255 + 500) / 1000);
            }
        }
        let mut r = String::from_str("-");
        proof {
            reveal_strlit("-");
            assert("-"@ =~= seq!['-']);
        }
        let m = format_nonneg_cents(g as u64);
        r.append(m.as_str());
        r
    }
}

} // verus!
