//! Rounded ratios with saturation: the one arithmetic step behind every
//! screen coordinate.

use vstd::prelude::*;
use vstd::arithmetic::div_mod::lemma_fundamental_div_mod;
use vstd::arithmetic::div_mod::lemma_fundamental_div_mod_converse;

verus! {

/// The greatest denominator `ratio_round` accepts, 2^96.
pub const DENOM_MAX: u128 = 0x1_0000_0000_0000_0000_0000_0000;

/// `v` brought into the range of a screen coordinate, that of `i64`.
pub open spec fn clamp_coord(v: int) -> int {
    if v < i64::MIN {
        i64::MIN as int
    } else if v > i64::MAX {
        i64::MAX as int
    } else {
        v
    }
}

/// The fraction `numer / denom` of `extent`, `denom` positive, rounded to the
/// nearest integer with halves upward, and then brought into the coordinate
/// range. Rounding to the nearest is adding a half and rounding down.
pub open spec fn scaled_round(extent: int, numer: int, denom: int) -> int {
    clamp_coord((2 * (extent * numer) + denom) / (2 * denom))
}

/// `scaled_round` for a denominator of either sign: the fraction is the same
/// when both parts change sign, so it is taken over the positive denominator.
pub open spec fn scaled_ratio(extent: int, numer: int, denom: int) -> int {
    if denom > 0 {
        scaled_round(extent, numer, denom)
    } else {
        scaled_round(extent, -numer, -denom)
    }
}

/// Rounding `h * m / d` to the nearest can be done on the quotient and the
/// remainder of `m` by `d` apart: the quotient's share is whole, and the
/// remainder's share is rounded by its own remainder.
pub proof fn lemma_round_split(h: int, m: int, d: int, q: int, r: int)
    requires
        d > 0,
        0 <= r < d,
        m == q * d + r,
    ensures
        (2 * (h * m) + d) / (2 * d) == h * q + (h * r) / d + if 2 * ((h * r) % d) >= d {
            1int
        } else {
            0int
        },
{
    let t = (h * r) / d;
    let u = (h * r) % d;
    lemma_fundamental_div_mod(h * r, d);
    if 2 * u >= d {
        assert(2 * (h * m) + d == (h * q + t + 1) * (2 * d) + (2 * u - d)) by (nonlinear_arith)
            requires
                m == q * d + r,
                h * r == d * t + u,
        ;
        lemma_fundamental_div_mod_converse(2 * (h * m) + d, 2 * d, h * q + t + 1, 2 * u - d);
    } else {
        assert(2 * (h * m) + d == (h * q + t) * (2 * d) + (2 * u + d)) by (nonlinear_arith)
            requires
                m == q * d + r,
                h * r == d * t + u,
        ;
        lemma_fundamental_div_mod_converse(2 * (h * m) + d, 2 * d, h * q + t, 2 * u + d);
    }
}

/// A rounded ratio grows with its numerator.
pub proof fn lemma_scaled_round_monotone(h: int, m1: int, m2: int, d: int)
    requires
        h >= 0,
        d > 0,
        m1 <= m2,
    ensures
        scaled_round(h, m1, d) <= scaled_round(h, m2, d),
{
    assert(h * m1 <= h * m2) by (nonlinear_arith)
        requires
            h >= 0,
            m1 <= m2,
    ;
    vstd::arithmetic::div_mod::lemma_div_is_ordered(
        2 * (h * m1) + d,
        2 * (h * m2) + d,
        2 * d,
    );
}

/// A whole fraction is not changed by the rounding, and a fraction between
/// two whole numbers stays between them.
pub proof fn lemma_scaled_round_between(h: int, m: int, d: int, lo: int, hi: int)
    requires
        d > 0,
        lo * d <= h * m <= hi * d,
    ensures
        clamp_coord(lo) <= scaled_round(h, m, d) <= clamp_coord(hi),
        lo == hi ==> scaled_round(h, m, d) == clamp_coord(lo),
{
    let v = (2 * (h * m) + d) / (2 * d);
    let u = (2 * (h * m) + d) % (2 * d);
    lemma_fundamental_div_mod(2 * (h * m) + d, 2 * d);
    assert(lo <= v <= hi) by (nonlinear_arith)
        requires
            2 * (h * m) + d == (2 * d) * v + u,
            0 <= u < 2 * d,
            lo * d <= h * m <= hi * d,
            d > 0,
    ;
}

/// `v` as a coordinate, saturating at the ends of the range.
pub fn saturate(v: i128) -> (r: i64)
    ensures
        r == clamp_coord(v as int),
{
    if v < i64::MIN as i128 {
        i64::MIN
    } else if v > i64::MAX as i128 {
        i64::MAX
    } else {
        v as i64
    }
}

/// The quotient, rounded down, and the remainder of `n` by a positive `d`.
pub fn floor_div_rem(n: i128, d: u128) -> (r: (i128, u128))
    requires
        d > 0,
    ensures
        r.0 == (n as int) / (d as int),
        r.1 == (n as int) % (d as int),
        n == r.0 * d + r.1,
        0 <= r.1 < d,
{
    if n >= 0 {
        let a: u128 = n as u128;
        proof {
            lemma_fundamental_div_mod(n as int, d as int);
            assert((a / d) * d == d * (a / d)) by (nonlinear_arith);
        }
        ((a / d) as i128, a % d)
    } else {
        // n == -a - 1
        let a: u128 = (-(n + 1)) as u128;
        let q0: u128 = a / d;
        let r0: u128 = a % d;
        let ghost q = -(q0 as int) - 1;
        proof {
            lemma_fundamental_div_mod(a as int, d as int);
            assert(n == q * d + (d - 1 - r0)) by (nonlinear_arith)
                requires
                    a == d * q0 + r0,
                    n == -(a as int) - 1,
                    q == -(q0 as int) - 1,
            ;
            lemma_fundamental_div_mod_converse(n as int, d as int, q, d - 1 - r0);
        }
        (-(q0 as i128) - 1, d - 1 - r0)
    }
}

/// Computes `scaled_round(extent, numer, denom)`.
///
/// The bound on `denom` keeps `extent * denom` inside `u128`.
pub fn ratio_round(extent: u32, numer: i128, denom: u128) -> (r: i64)
    requires
        0 < denom <= DENOM_MAX,
    ensures
        r == scaled_round(extent as int, numer as int, denom as int),
        numer >= 0 ==> r >= 0,
{
    let h: u128 = extent as u128;
    let (q, rem) = floor_div_rem(numer, denom);
    if extent == 0 {
        assert(h * numer == 0) by (nonlinear_arith)
            requires
                h == 0,
        ;
        proof {
            lemma_fundamental_div_mod_converse(denom as int, 2 * denom, 0, denom as int);
        }
        return 0;
    }
    // the fraction is h * q + (h * rem) / denom, and the last term is below h
    proof {
        lemma_round_split(h as int, numer as int, denom as int, q as int, rem as int);
        assert(0 <= h * rem < h * denom <= 0xffff_ffff * denom) by (nonlinear_arith)
            requires
                0 <= rem < denom,
                0 < h <= 0xffff_ffff,
        ;
        assert(h * denom == denom * h) by (nonlinear_arith);
        vstd::arithmetic::div_mod::lemma_multiply_divide_lt(
            (h * rem) as int,
            denom as int,
            h as int,
        );
        vstd::arithmetic::div_mod::lemma_div_pos_is_pos((h * rem) as int, denom as int);
    }
    let share: u128 = h * rem;
    let part: u128 = share / denom;
    let left: u128 = share % denom;
    let up: i128 = if left >= denom - left {
        1
    } else {
        0
    };
    if q > i64::MAX as i128 {
        assert(h * q >= q) by (nonlinear_arith)
            requires
                h >= 1,
                q >= 0,
        ;
        i64::MAX
    } else if q < i64::MIN as i128 - 1 {
        assert(h * q + h <= q + 1) by (nonlinear_arith)
            requires
                h >= 1,
                q + 1 <= 0,
        ;
        i64::MIN
    } else {
        assert(-0x1_0000_0000 * 0x8000_0000_0000_0001 <= h * q <= 0x1_0000_0000
            * 0x8000_0000_0000_0001) by (nonlinear_arith)
            requires
                0 <= h < 0x1_0000_0000,
                -0x8000_0000_0000_0001 <= q <= 0x8000_0000_0000_0001,
        ;
        assert(numer >= 0 ==> h * q >= 0) by (nonlinear_arith)
            requires
                numer >= 0 ==> q >= 0,
                h >= 0,
        ;
        saturate((h as i128) * q + (part as i128) + up)
    }
}

/// Computes `scaled_ratio(extent, numer, denom)`.
pub fn ratio_round_signed(extent: u32, numer: i128, denom: i128) -> (r: i64)
    requires
        denom != 0,
        -DENOM_MAX <= denom <= DENOM_MAX,
        numer > i128::MIN,
    ensures
        r == scaled_ratio(extent as int, numer as int, denom as int),
{
    if denom > 0 {
        ratio_round(extent, numer, denom as u128)
    } else {
        ratio_round(extent, -numer, (-denom) as u128)
    }
}

} // verus!
