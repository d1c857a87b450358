use vstd::prelude::*;
use vstd::arithmetic::div_mod::lemma_fundamental_div_mod_converse;

verus! {

/// The quotient of `a` by `b`, rounded up.
pub open spec fn ceil_div(a: int, b: int) -> int {
    if a % b == 0 {
        a / b
    } else {
        a / b + 1
    }
}

/// The smaller of two amounts.
pub open spec fn min_u64(a: u64, b: u64) -> u64 {
    if a <= b {
        a
    } else {
        b
    }
}

/// The distance of an integer from zero.
pub open spec fn abs_int(a: int) -> int {
    if a < 0 {
        -a
    } else {
        a
    }
}

/// Whenever `x` is `q` times `d` plus a remainder below `d`, `q` is the
/// quotient of `x` by `d`, rounded down and rounded up alike when the
/// remainder is zero.
pub proof fn lemma_quotient_from_parts(x: int, d: int, q: int, r: int)
    requires
        0 < d,
        0 <= r < d,
        x == q * d + r,
    ensures
        x / d == q,
        x % d == r,
        ceil_div(x, d) == if r == 0 { q } else { q + 1 },
{
    lemma_fundamental_div_mod_converse(x, d, q, r);
}

/// The product of two 64-bit values, which always fits in 128 bits.
pub fn mul_u64(a: u64, b: u64) -> (p: u128)
    ensures
        p == a * b,
{
    assert(a * b <= 0xffff_ffff_ffff_ffff * 0xffff_ffff_ffff_ffff) by (nonlinear_arith)
        requires
            0 <= a <= 0xffff_ffff_ffff_ffff,
            0 <= b <= 0xffff_ffff_ffff_ffff,
    ;
    (a as u128) * (b as u128)
}

/// Divides `k * r` by `m` without forming the product, which may not fit in
/// 128 bits. Returns the quotient and the remainder.
pub fn mul_div_rem(k: u64, r: u128, m: u128) -> (res: (u128, u128))
    requires
        r < m,
    ensures
        res.0 == (k * r) / (m as int),
        res.1 == (k * r) % (m as int),
        res.0 * m + res.1 == k * r,
        res.0 <= k,
        res.1 < m,
    decreases k,
{
    if k == 0 {
        proof {
            lemma_quotient_from_parts(0, m as int, 0, 0);
        }
        return (0, 0);
    }
    let half: u64 = k / 2;
    let (q, rem) = mul_div_rem(half, r, m);
    let mut q2: u128 = q + q;
    let mut rem2: u128 = rem;
    if rem >= m - rem {
        rem2 = rem - (m - rem);
        q2 = q2 + 1;
    } else {
        rem2 = rem + rem;
    }
    assert(q2 * m + rem2 == 2 * half * r) by (nonlinear_arith)
        requires
            q * m + rem == half * r,
            (q2 == q + q + 1 && rem2 == rem + rem - m) || (q2 == q + q && rem2 == rem + rem),
    ;
    let ghost q1 = q2;
    let ghost rem1 = rem2;
    if k % 2 == 1 {
        if rem2 >= m - r {
            rem2 = rem2 - (m - r);
            q2 = q2 + 1;
        } else {
            rem2 = rem2 + r;
        }
    }
    proof {
        assert(k == 2 * half + (k % 2) as int);
        assert(q2 * m + rem2 == k * r) by (nonlinear_arith)
            requires
                q1 * m + rem1 == 2 * half * r,
                (k == 2 * half && q2 == q1 && rem2 == rem1) || (k == 2 * half + 1 && ((q2 == q1
                    + 1 && rem2 == rem1 + r - m) || (q2 == q1 && rem2 == rem1 + r))),
        ;
        assert(q2 <= k) by (nonlinear_arith)
            requires
                q2 * m + rem2 == k * r,
                0 <= r < m,
                0 <= rem2,
                0 <= q2,
                0 <= k,
        ;
        lemma_quotient_from_parts(k * r, m as int, q2 as int, rem2 as int);
    }
    (q2, rem2)
}

} // verus!
