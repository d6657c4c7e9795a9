//! Fixed-point arithmetic for money and tax rates.
//!
//! Amounts are integer cents (`u64`); rates are integer basis points
//! (`u32`, one basis point = 0.01%). A rate applied to an amount is
//! `amount * rate / RATE_DENOM`, rounded down to the cent.

use vstd::prelude::*;

use vstd::arithmetic::div_mod::{
    lemma_div_is_ordered, lemma_div_multiples_vanish, lemma_div_multiples_vanish_fancy,
    lemma_fundamental_div_mod,
};
use vstd::arithmetic::mul::{
    lemma_mul_inequality, lemma_mul_is_distributive_add, lemma_mul_is_distributive_sub,
};

verus! {

/// Rates are fractions over this denominator: 10000 basis points = 100%.
pub const RATE_DENOM: u32 = 10000;

/// The portion of `amount` taken by a rate of `rate` basis points,
/// rounded down.
pub open spec fn rate_part(amount: int, rate: int) -> int {
    (amount * rate) / (RATE_DENOM as int)
}

/// Applies a rate of `rate` basis points to `amount` cents, rounding down.
pub fn times_rate(amount: u64, rate: u32) -> (r: u64)
    requires
        rate <= RATE_DENOM,
    ensures
        r == rate_part(amount as int, rate as int),
        r <= amount,
{
    proof {
        lemma_rate_part_le(amount as int, rate as int);
    }
    let wide: u128 = (amount as u128) * (rate as u128);
    (wide / (RATE_DENOM as u128)) as u64
}

/// A rate of at most 100% never returns more than the amount itself:
/// `rate_part(amount, rate) <= amount`.
pub proof fn lemma_rate_part_le(amount: int, rate: int)
    requires
        0 <= amount,
        0 <= rate <= RATE_DENOM,
    ensures
        0 <= rate_part(amount, rate) <= amount,
{
    let d = RATE_DENOM as int;
    lemma_mul_inequality(rate, d, amount);
    assert(amount * rate == rate * amount) by (nonlinear_arith);
    assert(amount * d == d * amount) by (nonlinear_arith);
    lemma_div_is_ordered(amount * rate, amount * d, d);
    lemma_div_multiples_vanish(amount, d);
    vstd::arithmetic::div_mod::lemma_div_pos_is_pos(amount * rate, d);
    vstd::arithmetic::mul::lemma_mul_nonnegative(amount, rate);
}

/// Applying a rate is monotone in the amount.
pub proof fn lemma_rate_part_monotone(a: int, b: int, rate: int)
    requires
        0 <= a <= b,
        0 <= rate,
    ensures
        rate_part(a, rate) <= rate_part(b, rate),
{
    lemma_mul_inequality(a, b, rate);
    lemma_div_is_ordered(a * rate, b * rate, RATE_DENOM as int);
}

/// Three rate parts whose rates sum to at most 100%, each taken of an
/// amount no larger than `cap`, together never exceed `cap`.
pub proof fn lemma_rate_parts_bounded(
    a: int,
    ra: int,
    b: int,
    rb: int,
    c: int,
    rc: int,
    cap: int,
)
    requires
        0 <= a <= cap,
        0 <= b <= cap,
        0 <= c <= cap,
        0 <= ra,
        0 <= rb,
        0 <= rc,
        ra + rb + rc <= RATE_DENOM,
    ensures
        rate_part(a, ra) + rate_part(b, rb) + rate_part(c, rc) <= cap,
{
    let d = RATE_DENOM as int;
    vstd::arithmetic::mul::lemma_mul_nonnegative(a, ra);
    vstd::arithmetic::mul::lemma_mul_nonnegative(b, rb);
    vstd::arithmetic::mul::lemma_mul_nonnegative(c, rc);
    lemma_div_sum_le(a * ra, b * rb, d);
    lemma_div_sum_le(a * ra + b * rb, c * rc, d);
    lemma_mul_inequality(a, cap, ra);
    lemma_mul_inequality(b, cap, rb);
    lemma_mul_inequality(c, cap, rc);
    assert(a * ra == ra * a && cap * ra == ra * cap) by (nonlinear_arith);
    assert(b * rb == rb * b && cap * rb == rb * cap) by (nonlinear_arith);
    assert(c * rc == rc * c && cap * rc == rc * cap) by (nonlinear_arith);
    lemma_div_is_ordered(a * ra + b * rb + c * rc, cap * ra + cap * rb + cap * rc, d);
    assert(cap * ra + cap * rb + cap * rc == cap * (ra + rb + rc)) by (nonlinear_arith);
    lemma_rate_part_le(cap, ra + rb + rc);
}

/// Floor division distributes superadditively over sums:
/// `x / d + y / d <= (x + y) / d`.
pub proof fn lemma_div_sum_le(x: int, y: int, d: int)
    requires
        0 <= x,
        0 <= y,
        0 < d,
    ensures
        x / d + y / d <= (x + y) / d,
{
    let qx = x / d;
    let qy = y / d;
    let rx = x % d;
    let ry = y % d;
    lemma_fundamental_div_mod(x, d);
    lemma_fundamental_div_mod(y, d);
    assert(d * (qx + qy) == d * qx + d * qy) by {
        lemma_mul_is_distributive_add(d, qx, qy);
    }
    if rx + ry < d {
        assert(x + y == d * (qx + qy) + (rx + ry));
        lemma_div_multiples_vanish_fancy(qx + qy, rx + ry, d);
    } else {
        assert(d * (qx + qy + 1) == d * (qx + qy) + d) by {
            lemma_mul_is_distributive_add(d, qx + qy, 1);
        }
        assert(x + y == d * (qx + qy + 1) + (rx + ry - d));
        lemma_div_multiples_vanish_fancy(qx + qy + 1, rx + ry - d, d);
    }
}

/// When `d` divides `w` exactly, every numerator strictly below `w`
/// divides to a strictly smaller quotient: `a / d < w / d`.
pub proof fn lemma_div_below_exact(a: int, w: int, d: int)
    requires
        0 <= a < w,
        0 < d,
        w % d == 0,
    ensures
        a / d < w / d,
{
    let k = w / d;
    lemma_fundamental_div_mod(w, d);
    assert(w == d * k);
    assert(d * (k - 1) + (d - 1) == d * k - 1) by {
        lemma_mul_is_distributive_sub(d, k, 1);
    }
    lemma_div_multiples_vanish_fancy(k - 1, d - 1, d);
    assert((d * k - 1) / d == k - 1);
    lemma_div_is_ordered(a, d * k - 1, d);
}

/// Subtracting `t` from an exact multiple `d * k` lowers the quotient by
/// exactly the ceiling of `t / d`: `(d * k - t) / d == k - (t + d - 1) / d`.
pub proof fn lemma_div_exact_minus_ceil(k: int, t: int, d: int)
    requires
        0 < d,
        0 <= t <= d * k,
    ensures
        (d * k - t) / d == k - (t + d - 1) / d,
{
    let q = t / d;
    let s = t % d;
    lemma_fundamental_div_mod(t, d);
    if s == 0 {
        assert(d * (k - q) == d * k - d * q) by {
            lemma_mul_is_distributive_sub(d, k, q);
        }
        lemma_div_multiples_vanish(k - q, d);
        assert((d * k - t) / d == k - q);
        assert(t + d - 1 == d * q + (d - 1));
        lemma_div_multiples_vanish_fancy(q, d - 1, d);
    } else {
        assert(d * (k - q - 1) == d * k - d * q - d) by {
            lemma_mul_is_distributive_sub(d, k, q + 1);
            lemma_mul_is_distributive_add(d, q, 1);
        }
        assert(d * k - t == d * (k - q - 1) + (d - s));
        assert(0 <= k - q - 1) by {
            if k <= q {
                assert(d * k <= d * q) by {
                    lemma_mul_inequality(k, q, d);
                    assert(d * k == k * d && d * q == q * d) by (nonlinear_arith);
                }
                assert(t == d * q + s > d * k);
            }
        }
        lemma_div_multiples_vanish_fancy(k - q - 1, d - s, d);
        assert((d * k - t) / d == k - q - 1);
        assert(t + d - 1 == d * (q + 1) + (s - 1)) by {
            lemma_mul_is_distributive_add(d, q, 1);
        }
        lemma_div_multiples_vanish_fancy(q + 1, s - 1, d);
    }
}

} // verus!
