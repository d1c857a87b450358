use vstd::prelude::*;
use crate::arith::{ceil_div, lemma_quotient_from_parts, mul_div_rem, mul_u64};
use crate::price::Price;

verus! {

/// The relative spread between two prices in basis points, rounded up:
/// `|a - b| / min(a, b) * 10000`.
pub open spec fn price_delta_bps(a: Price, b: Price) -> int {
    let x = a.numerator * b.denominator;
    let y = b.numerator * a.denominator;
    if x < y {
        ceil_div(10000 * (y - x), x)
    } else {
        ceil_div(10000 * (x - y), y)
    }
}

/// The spread that fits in 64 bits, or the largest 64-bit value.
pub open spec fn saturated_u64(v: int) -> u64 {
    if v > u64::MAX {
        u64::MAX
    } else {
        v as u64
    }
}

/// What `get_price_delta` returns: the spread, and whether the first price
/// is the lower one.
pub open spec fn price_delta(a: Price, b: Price) -> (u64, bool) {
    (saturated_u64(price_delta_bps(a, b)), a.is_lower(b))
}

/// The spread between two prices and the direction of the trade: `true`
/// when the first price is lower, so that one buys at the first pool and
/// sells at the second.
pub fn get_price_delta(price_a: Price, price_b: Price) -> (r: (u64, bool))
    requires
        price_a.wf(),
        price_b.wf(),
    ensures
        r == price_delta(price_a, price_b),
{
    let x = mul_u64(price_a.numerator, price_b.denominator);
    let y = mul_u64(price_b.numerator, price_a.denominator);
    assert(x > 0 && y > 0) by (nonlinear_arith)
        requires
            x == price_a.numerator * price_b.denominator,
            y == price_b.numerator * price_a.denominator,
            price_a.numerator > 0,
            price_a.denominator > 0,
            price_b.numerator > 0,
            price_b.denominator > 0,
    ;
    let direction_a_to_b = x < y;
    let (low, high) = if direction_a_to_b {
        (x, y)
    } else {
        (y, x)
    };
    let bps = scaled_ratio_ceil(high - low, low);
    (bps, direction_a_to_b)
}

/// `ceil(10000 * diff / low)`, held to 64 bits.
fn scaled_ratio_ceil(diff: u128, low: u128) -> (bps: u64)
    requires
        low > 0,
    ensures
        bps == saturated_u64(ceil_div(10000 * diff, low as int)),
{
    let q: u128 = diff / low;
    let r: u128 = diff % low;
    let (t, rem) = mul_div_rem(10000, r, low);
    let ghost up: int = if rem == 0 { 0 } else { 1 };
    proof {
        assert(q * low + r == diff) by {
            vstd::arithmetic::div_mod::lemma_fundamental_div_mod(diff as int, low as int);
            vstd::arithmetic::mul::lemma_mul_is_commutative(q as int, low as int);
        }
        assert(10000 * diff == (10000 * q + t) * low + rem) by (nonlinear_arith)
            requires
                q * low + r == diff,
                t * low + rem == 10000 * r,
        ;
        lemma_quotient_from_parts(10000 * diff, low as int, 10000 * q + t, rem as int);
        assert(ceil_div(10000 * diff, low as int) == 10000 * q + t + up);
    }
    if q > 1844674407370955 {
        return u64::MAX;
    }
    let total: u128 = 10000 * q + t + if rem == 0 { 0 } else { 1 };
    if total > 0xffff_ffff_ffff_ffff {
        u64::MAX
    } else {
        total as u64
    }
}

/// The breakeven spread for two legs, in basis points and rounded up:
/// `(1 / ((1 - fee_a) * (1 - fee_b)) - 1) * 10000`, with each fee given
/// in basis points.
pub open spec fn breakeven_delta_bps(fee_a_bps: u64, fee_b_bps: u64) -> int {
    let kept = (10000 - fee_a_bps) * (10000 - fee_b_bps);
    ceil_div(10000 * (100_000_000 - kept), kept)
}

/// The smallest spread at which a round trip through two pools with the
/// given fee rates does not lose.
pub fn min_profitable_delta_bps(fee_a_bps: u64, fee_b_bps: u64) -> (bps: u64)
    requires
        fee_a_bps < 10000,
        fee_b_bps < 10000,
    ensures
        bps == breakeven_delta_bps(fee_a_bps, fee_b_bps),
{
    let keep_a: u64 = 10000 - fee_a_bps;
    let keep_b: u64 = 10000 - fee_b_bps;
    assert(0 < keep_a * keep_b <= 100_000_000) by (nonlinear_arith)
        requires
            0 < keep_a <= 10000,
            0 < keep_b <= 10000,
    ;
    let kept: u64 = keep_a * keep_b;
    let scaled: u64 = 10000 * (100_000_000 - kept);
    if scaled % kept == 0 {
        scaled / kept
    } else {
        scaled / kept + 1
    }
}

/// Swapping the two prices keeps the spread and, unless the prices are
/// equal, reverses the direction.
pub proof fn lemma_price_delta_antisymmetric(a: Price, b: Price)
    requires
        a.wf(),
        b.wf(),
    ensures
        price_delta(a, b).0 == price_delta(b, a).0,
        !a.is_same(b) ==> price_delta(a, b).1 != price_delta(b, a).1,
        a.is_same(b) ==> !price_delta(a, b).1 && !price_delta(b, a).1 && price_delta(a, b).0 == 0,
{
    let x = a.numerator * b.denominator;
    let y = b.numerator * a.denominator;
    assert(b.numerator * a.denominator == y);
    assert(a.numerator * b.denominator == x);
    assert(y > 0) by (nonlinear_arith)
        requires
            y == b.numerator * a.denominator,
            b.numerator > 0,
            a.denominator > 0,
    ;
    if x == y {
        lemma_quotient_from_parts(0, y, 0, 0);
    }
}

} // verus!
