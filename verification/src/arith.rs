//! Truncating signed division: the arithmetic that the hardware division
//! unit implements. Quotients round toward zero, so the remainder carries
//! the sign of the numerator (or is zero).

use vstd::arithmetic::div_mod::{lemma_fundamental_div_mod, lemma_mod_bound};
use vstd::math::abs;
use vstd::prelude::*;

verus! {

/// Quotient of `a / b`, rounded toward zero.
pub open spec fn trunc_div(a: int, b: int) -> int
    recommends
        b != 0,
{
    if a >= 0 {
        a / b
    } else {
        -((-a) / b)
    }
}

/// Remainder of `a / b` under truncating division: `a - b * trunc_div(a, b)`,
/// which carries the sign of `a` or is zero.
pub open spec fn trunc_rem(a: int, b: int) -> int
    recommends
        b != 0,
{
    if a >= 0 {
        a % b
    } else {
        -((-a) % b)
    }
}

/// Euclidean division and remainder against an arbitrary nonzero divisor:
/// the remainder is non-negative and below the divisor's magnitude.
proof fn lemma_euclidean_bounds(a: int, b: int)
    requires
        a >= 0,
        b != 0,
    ensures
        a == b * (a / b) + (a % b),
        0 <= a % b < if b > 0 { b } else { -b },
{
    lemma_fundamental_div_mod(a, b);
    if b > 0 {
        lemma_mod_bound(a, b);
    } else {
        assert(0 <= a % b < -b) by (nonlinear_arith)
            requires
                a >= 0,
                b < 0,
        ;
    }
}

/// The round-trip identity of truncating division: quotient times divisor
/// plus remainder recovers the dividend; the remainder's magnitude is below
/// the divisor's; and the remainder is zero or has the dividend's sign.
pub proof fn lemma_trunc_div_mod(a: int, b: int)
    requires
        b != 0,
    ensures
        b * trunc_div(a, b) + trunc_rem(a, b) == a,
        trunc_rem(a, b) < if b > 0 { b } else { -b },
        -(if b > 0 { b } else { -b }) < trunc_rem(a, b),
        a >= 0 ==> trunc_rem(a, b) >= 0,
        a < 0 ==> trunc_rem(a, b) <= 0,
{
    if a >= 0 {
        lemma_euclidean_bounds(a, b);
    } else {
        lemma_euclidean_bounds(-a, b);
        assert(b * -((-a) / b) == -(b * ((-a) / b))) by (nonlinear_arith);
    }
}

/// The truncating quotient's magnitude never exceeds the dividend's, and a
/// divisor of magnitude two or more at least halves it. Unit divisors return
/// the dividend or its negation exactly. Together these place the quotient of
/// a machine-width division back inside the machine width, short of the
/// most-negative-dividend by minus-one case.
pub proof fn lemma_trunc_div_magnitude(a: int, b: int)
    requires
        b != 0,
    ensures
        -abs(a) <= trunc_div(a, b) <= abs(a),
        b == 1 ==> trunc_div(a, b) == a,
        b == -1 ==> trunc_div(a, b) == -a,
        abs(b) >= 2 ==> -abs(a) <= 2 * trunc_div(a, b) <= abs(a),
{
    let n = abs(a) as int;
    lemma_euclidean_bounds(n, b);
    let q0 = n / b;
    let r = n % b;
    if b >= 2 || b <= -2 {
        assert(-n <= 2 * q0 <= n && -n <= q0 <= n) by (nonlinear_arith)
            requires
                n >= 0,
                b >= 2 || b <= -2,
                n == b * q0 + r,
                0 <= r < (if b > 0 {
                    b
                } else {
                    -b
                }),
        ;
    } else {
        assert((b == 1 ==> q0 == n) && (b == -1 ==> q0 == -n)) by (nonlinear_arith)
            requires
                b == 1 || b == -1,
                n == b * q0 + r,
                0 <= r < (if b > 0 {
                    b
                } else {
                    -b
                }),
        ;
    }
    if a >= 0 {
        assert(trunc_div(a, b) == q0);
    } else {
        assert(trunc_div(a, b) == -q0);
    }
}

/// The 32-bit division law: for every 32-bit signed pair with a nonzero
/// denominator, short of the most-negative-value by minus-one overflow
/// case, the quotient times the denominator plus the remainder recovers the
/// numerator; the remainder's magnitude is below the denominator's and its
/// sign matches the numerator's or is zero; and both results fit back in 32
/// bits. The quotient-only and quotient-and-remainder routines both promise
/// `trunc_div`, so they agree on the quotient by contract.
pub proof fn lemma_divmod_identity_32(n: i32, d: i32)
    requires
        d != 0,
        !(n == i32::MIN && d == -1),
    ensures
        trunc_div(n as int, d as int) * d + trunc_rem(n as int, d as int) == n,
        -abs(d as int) < trunc_rem(n as int, d as int) < abs(d as int),
        n >= 0 ==> trunc_rem(n as int, d as int) >= 0,
        n < 0 ==> trunc_rem(n as int, d as int) <= 0,
        i32::MIN <= trunc_div(n as int, d as int) <= i32::MAX,
        i32::MIN <= trunc_rem(n as int, d as int) <= i32::MAX,
{
    lemma_trunc_div_mod(n as int, d as int);
    lemma_trunc_div_magnitude(n as int, d as int);
    assert(trunc_div(n as int, d as int) * d == d * trunc_div(n as int, d as int))
        by (nonlinear_arith);
}

/// The 64-bit division law: the same round-trip identity, remainder bounds
/// and sign convention at 64-bit width.
pub proof fn lemma_divmod_identity_64(n: i64, d: i64)
    requires
        d != 0,
        !(n == i64::MIN && d == -1),
    ensures
        trunc_div(n as int, d as int) * d + trunc_rem(n as int, d as int) == n,
        -abs(d as int) < trunc_rem(n as int, d as int) < abs(d as int),
        n >= 0 ==> trunc_rem(n as int, d as int) >= 0,
        n < 0 ==> trunc_rem(n as int, d as int) <= 0,
        i64::MIN <= trunc_div(n as int, d as int) <= i64::MAX,
        i64::MIN <= trunc_rem(n as int, d as int) <= i64::MAX,
{
    lemma_trunc_div_mod(n as int, d as int);
    lemma_trunc_div_magnitude(n as int, d as int);
    assert(trunc_div(n as int, d as int) * d == d * trunc_div(n as int, d as int))
        by (nonlinear_arith);
}

} // verus!
