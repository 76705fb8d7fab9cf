//! Power series behind the elementary functions.
//!
//! The series run on "wide" integers: a wide integer `w` stands for the real
//! number `w / WIDE`, six decimal places finer than a `Fixed`. Every loop is
//! specified by the recursive `spec` function that it unrolls.
use vstd::prelude::*;
use crate::fixed::arith::{div_floor, mul_div, pow2, rem_floor, sat_add, sat_mul, sat_neg, sat_sub};

verus! {

/// Wide units per whole unit.
pub const WIDE: i128 = 1_000_000_000_000_000_000;

/// Wide units per raw unit of a `Fixed`.
pub const WIDE_PER_RAW: i128 = 1_000_000;

/// The natural logarithm of two, wide.
pub const LN_2: i128 = 693_147_180_559_945_309;

/// Twice the natural logarithm of two, wide.
pub const TWO_LN_2: i128 = 1_386_294_361_119_890_618;

/// The circle constant, wide.
pub const PI: i128 = 3_141_592_653_589_793_238;

/// Half of the circle constant, wide.
pub const HALF_PI: i128 = 1_570_796_326_794_896_619;

/// A quarter of the circle constant, wide.
pub const QUARTER_PI: i128 = 785_398_163_397_448_310;

/// The square root of two, wide.
pub const SQRT_2: i128 = 1_414_213_562_373_095_048;

/// Half of the square root of two, wide.
pub const HALF_SQRT_2: i128 = 707_106_781_186_547_524;

/// The tangent of an eighth of a half turn, wide.
pub const TAN_PI_8: i128 = 414_213_562_373_095_049;

/// Number of terms taken of the exponential series.
pub const EXP_TERMS: i128 = 22;

/// Number of terms taken of the inverse hyperbolic tangent series.
pub const ATANH_TERMS: i128 = 13;

/// Number of terms taken of the sine and cosine series.
pub const SIN_TERMS: i128 = 11;

/// Number of terms taken of the inverse tangent series.
pub const ATAN_TERMS: i128 = 26;

/// The exponential series from its `k`-th term on, given the term before
/// and the sum so far.
pub open spec fn exp_terms(r: i128, k: i128, term: i128, sum: i128) -> i128
    decreases EXP_TERMS + 1 - k,
{
    if 1 <= k <= EXP_TERMS {
        let t = mul_div(term, r, (WIDE * k) as i128);
        exp_terms(r, (k + 1) as i128, t, sat_add(sum, t))
    } else {
        sum
    }
}

/// `1 + r + r^2/2! + ...`, the first terms of the exponential series of a
/// wide `r`.
pub open spec fn exp_series_spec(r: i128) -> i128 {
    exp_terms(r, 1, WIDE, WIDE)
}

#[verifier::when_used_as_spec(exp_series_spec)]
pub fn exp_series(r: i128) -> (out: i128)
    ensures
        out == exp_series_spec(r),
{
    let mut term: i128 = WIDE;
    let mut sum: i128 = WIDE;
    let mut k: i128 = 1;
    while k <= EXP_TERMS
        invariant
            1 <= k <= EXP_TERMS + 1,
            exp_terms(r, k, term, sum) == exp_series_spec(r),
        decreases EXP_TERMS + 1 - k,
    {
        term = mul_div(term, r, WIDE * k);
        sum = sat_add(sum, term);
        k = k + 1;
    }
    sum
}

/// The exponential of a wide `p`, as raw units of a `Fixed`. Arguments of 44
/// and more saturate; arguments of -42 and less give zero.
pub open spec fn exp_wide_spec(p: i128) -> i128 {
    if p >= 44 * WIDE {
        i128::MAX
    } else if p <= -42 * WIDE {
        0
    } else {
        let k = div_floor((2 * p + LN_2) as i128, TWO_LN_2);
        let e = exp_series((p - k * LN_2) as i128);
        if k >= 0 {
            mul_div(e, pow2(k as u32), WIDE_PER_RAW)
        } else {
            mul_div(e, 1, sat_mul(pow2((-k) as u32), WIDE_PER_RAW))
        }
    }
}

#[verifier::when_used_as_spec(exp_wide_spec)]
pub fn exp_wide(p: i128) -> (out: i128)
    ensures
        out == exp_wide_spec(p),
{
    if p >= 44 * WIDE {
        i128::MAX
    } else if p <= -42 * WIDE {
        0
    } else {
        let k = div_floor(2 * p + LN_2, TWO_LN_2);
        assert(-100 <= k <= 100);
        let e = exp_series(p - k * LN_2);
        if k >= 0 {
            mul_div(e, pow2(k as u32), WIDE_PER_RAW)
        } else {
            mul_div(e, 1, sat_mul(pow2((-k) as u32), WIDE_PER_RAW))
        }
    }
}

/// The inverse hyperbolic tangent series from its `k`-th term on.
pub open spec fn atanh_terms(z2: i128, k: i128, term: i128, sum: i128) -> i128
    decreases ATANH_TERMS + 1 - k,
{
    if 1 <= k <= ATANH_TERMS {
        let t = mul_div(term, z2, WIDE);
        atanh_terms(z2, (k + 1) as i128, t, sat_add(sum, div_floor(t, (2 * k + 1) as i128)))
    } else {
        sum
    }
}

/// `z + z^3/3 + z^5/5 + ...`, the first terms of the inverse hyperbolic
/// tangent series of a wide `z`.
pub open spec fn atanh_series_spec(z: i128) -> i128 {
    atanh_terms(mul_div(z, z, WIDE), 1, z, z)
}

#[verifier::when_used_as_spec(atanh_series_spec)]
pub fn atanh_series(z: i128) -> (out: i128)
    ensures
        out == atanh_series_spec(z),
{
    let z2 = mul_div(z, z, WIDE);
    let mut term: i128 = z;
    let mut sum: i128 = z;
    let mut k: i128 = 1;
    while k <= ATANH_TERMS
        invariant
            1 <= k <= ATANH_TERMS + 1,
            atanh_terms(z2, k, term, sum) == atanh_series_spec(z),
            z2 == mul_div(z, z, WIDE),
        decreases ATANH_TERMS + 1 - k,
    {
        term = mul_div(term, z2, WIDE);
        sum = sat_add(sum, div_floor(term, 2 * k + 1));
        k = k + 1;
    }
    sum
}

/// Halves a wide `m` until it is below the square root of two, counting the
/// halvings in `k`.
pub open spec fn halve_into_range_spec(m: i128, k: i128) -> (i128, i128)
    decreases m,
{
    if m >= SQRT_2 {
        halve_into_range_spec(div_floor(m, 2), sat_add(k, 1))
    } else {
        (m, k)
    }
}

#[verifier::when_used_as_spec(halve_into_range_spec)]
pub fn halve_into_range(m: i128, k: i128) -> (out: (i128, i128))
    ensures
        out == halve_into_range_spec(m, k),
{
    let mut cur = m;
    let mut count = k;
    while cur >= SQRT_2
        invariant
            halve_into_range_spec(cur, count) == halve_into_range_spec(m, k),
        decreases cur,
    {
        cur = div_floor(cur, 2);
        count = sat_add(count, 1);
    }
    (cur, count)
}

/// How far a wide `m` is below half the square root of two.
pub open spec fn below_range(m: i128) -> int {
    if m < HALF_SQRT_2 {
        HALF_SQRT_2 - m
    } else {
        0
    }
}

/// Doubles a positive wide `m` until it is at least half the square root of
/// two, counting the doublings down from `k`.
pub open spec fn double_into_range_spec(m: i128, k: i128) -> (i128, i128)
    decreases below_range(m),
{
    if 0 < m < HALF_SQRT_2 {
        double_into_range_spec((2 * m) as i128, sat_sub(k, 1))
    } else {
        (m, k)
    }
}

#[verifier::when_used_as_spec(double_into_range_spec)]
pub fn double_into_range(m: i128, k: i128) -> (out: (i128, i128))
    ensures
        out == double_into_range_spec(m, k),
{
    let mut cur = m;
    let mut count = k;
    while 0 < cur && cur < HALF_SQRT_2
        invariant
            double_into_range_spec(cur, count) == double_into_range_spec(m, k),
        decreases below_range(cur),
    {
        cur = 2 * cur;
        count = sat_sub(count, 1);
    }
    (cur, count)
}

/// The natural logarithm, wide, of the positive number of `a` raw units of
/// a `Fixed`: the argument is brought to `m * 2^k` with `m` near one, and the
/// logarithm of `m` taken as `2 * atanh((m - 1) / (m + 1))`.
pub open spec fn ln_wide_spec(a: i128) -> i128 {
    let halved = halve_into_range(sat_mul(a, WIDE_PER_RAW), 0);
    let ranged = double_into_range(halved.0, halved.1);
    let m = ranged.0;
    let z = mul_div(sat_sub(m, WIDE), WIDE, sat_add(m, WIDE));
    sat_add(sat_mul(atanh_series(z), 2), sat_mul(ranged.1, LN_2))
}

#[verifier::when_used_as_spec(ln_wide_spec)]
pub fn ln_wide(a: i128) -> (out: i128)
    requires
        a > 0,
    ensures
        out == ln_wide_spec(a),
{
    let halved = halve_into_range(sat_mul(a, WIDE_PER_RAW), 0);
    let ranged = double_into_range(halved.0, halved.1);
    let m = ranged.0;
    proof {
        lemma_halve_keeps_positive(sat_mul(a, WIDE_PER_RAW), 0);
        lemma_double_keeps_positive(halved.0, halved.1);
    }
    let z = mul_div(sat_sub(m, WIDE), WIDE, sat_add(m, WIDE));
    sat_add(sat_mul(atanh_series(z), 2), sat_mul(ranged.1, LN_2))
}

/// Halving a number of at least one leaves it at least one.
pub proof fn lemma_halve_keeps_positive(m: i128, k: i128)
    requires
        m >= 1,
    ensures
        halve_into_range_spec(m, k).0 >= 1,
    decreases m,
{
    if m >= SQRT_2 {
        lemma_halve_keeps_positive(div_floor(m, 2), sat_add(k, 1));
    }
}

/// Doubling a positive number into range leaves it positive.
pub proof fn lemma_double_keeps_positive(m: i128, k: i128)
    requires
        m >= 1,
    ensures
        double_into_range_spec(m, k).0 >= 1,
    decreases below_range(m),
{
    if 0 < m < HALF_SQRT_2 {
        lemma_double_keeps_positive((2 * m) as i128, sat_sub(k, 1));
    }
}

/// The sine series from its `k`-th term on.
pub open spec fn sin_terms(r2: i128, k: i128, term: i128, sum: i128) -> i128
    decreases SIN_TERMS + 1 - k,
{
    if 1 <= k <= SIN_TERMS {
        let t = sat_neg(div_floor(mul_div(term, r2, (WIDE * (2 * k)) as i128), (2 * k + 1) as i128));
        sin_terms(r2, (k + 1) as i128, t, sat_add(sum, t))
    } else {
        sum
    }
}

/// `r - r^3/3! + r^5/5! - ...`, the first terms of the sine series of a
/// wide `r`.
pub open spec fn sin_series_spec(r: i128) -> i128 {
    sin_terms(mul_div(r, r, WIDE), 1, r, r)
}

#[verifier::when_used_as_spec(sin_series_spec)]
pub fn sin_series(r: i128) -> (out: i128)
    ensures
        out == sin_series_spec(r),
{
    let r2 = mul_div(r, r, WIDE);
    let mut term: i128 = r;
    let mut sum: i128 = r;
    let mut k: i128 = 1;
    while k <= SIN_TERMS
        invariant
            1 <= k <= SIN_TERMS + 1,
            sin_terms(r2, k, term, sum) == sin_series_spec(r),
        decreases SIN_TERMS + 1 - k,
    {
        term = sat_neg(div_floor(mul_div(term, r2, WIDE * (2 * k)), 2 * k + 1));
        sum = sat_add(sum, term);
        k = k + 1;
    }
    sum
}

/// The cosine series from its `k`-th term on.
pub open spec fn cos_terms(r2: i128, k: i128, term: i128, sum: i128) -> i128
    decreases SIN_TERMS + 1 - k,
{
    if 1 <= k <= SIN_TERMS {
        let t = sat_neg(div_floor(mul_div(term, r2, (WIDE * (2 * k - 1)) as i128), (2 * k) as i128));
        cos_terms(r2, (k + 1) as i128, t, sat_add(sum, t))
    } else {
        sum
    }
}

/// `1 - r^2/2! + r^4/4! - ...`, the first terms of the cosine series of a
/// wide `r`.
pub open spec fn cos_series_spec(r: i128) -> i128 {
    cos_terms(mul_div(r, r, WIDE), 1, WIDE, WIDE)
}

#[verifier::when_used_as_spec(cos_series_spec)]
pub fn cos_series(r: i128) -> (out: i128)
    ensures
        out == cos_series_spec(r),
{
    let r2 = mul_div(r, r, WIDE);
    let mut term: i128 = WIDE;
    let mut sum: i128 = WIDE;
    let mut k: i128 = 1;
    while k <= SIN_TERMS
        invariant
            1 <= k <= SIN_TERMS + 1,
            cos_terms(r2, k, term, sum) == cos_series_spec(r),
        decreases SIN_TERMS + 1 - k,
    {
        term = sat_neg(div_floor(mul_div(term, r2, WIDE * (2 * k - 1)), 2 * k));
        sum = sat_add(sum, term);
        k = k + 1;
    }
    sum
}

/// The sine and the cosine, wide, of a wide angle in radians: the angle is
/// brought within an eighth of a turn of zero by quarter turns.
pub open spec fn sin_cos_wide_spec(x: i128) -> (i128, i128) {
    let k = div_floor(sat_add(sat_mul(x, 2), HALF_PI), PI);
    let r = sat_sub(x, sat_mul(k, HALF_PI));
    let s = sin_series(r);
    let c = cos_series(r);
    let quarter = rem_floor(k, 4);
    if quarter == 0 {
        (s, c)
    } else if quarter == 1 {
        (c, sat_neg(s))
    } else if quarter == 2 {
        (sat_neg(s), sat_neg(c))
    } else {
        (sat_neg(c), s)
    }
}

#[verifier::when_used_as_spec(sin_cos_wide_spec)]
pub fn sin_cos_wide(x: i128) -> (out: (i128, i128))
    ensures
        out == sin_cos_wide_spec(x),
{
    let k = div_floor(sat_add(sat_mul(x, 2), HALF_PI), PI);
    let r = sat_sub(x, sat_mul(k, HALF_PI));
    let s = sin_series(r);
    let c = cos_series(r);
    let quarter = rem_floor(k, 4);
    if quarter == 0 {
        (s, c)
    } else if quarter == 1 {
        (c, sat_neg(s))
    } else if quarter == 2 {
        (sat_neg(s), sat_neg(c))
    } else {
        (sat_neg(c), s)
    }
}

/// The inverse tangent series from its `k`-th term on.
pub open spec fn atan_terms(u2: i128, k: i128, term: i128, sum: i128) -> i128
    decreases ATAN_TERMS + 1 - k,
{
    if 1 <= k <= ATAN_TERMS {
        let t = sat_neg(mul_div(term, u2, WIDE));
        atan_terms(u2, (k + 1) as i128, t, sat_add(sum, div_floor(t, (2 * k + 1) as i128)))
    } else {
        sum
    }
}

/// `u - u^3/3 + u^5/5 - ...`, the first terms of the inverse tangent series
/// of a wide `u`.
pub open spec fn atan_series_spec(u: i128) -> i128 {
    atan_terms(mul_div(u, u, WIDE), 1, u, u)
}

#[verifier::when_used_as_spec(atan_series_spec)]
pub fn atan_series(u: i128) -> (out: i128)
    ensures
        out == atan_series_spec(u),
{
    let u2 = mul_div(u, u, WIDE);
    let mut term: i128 = u;
    let mut sum: i128 = u;
    let mut k: i128 = 1;
    while k <= ATAN_TERMS
        invariant
            1 <= k <= ATAN_TERMS + 1,
            atan_terms(u2, k, term, sum) == atan_series_spec(u),
        decreases ATAN_TERMS + 1 - k,
    {
        term = sat_neg(mul_div(term, u2, WIDE));
        sum = sat_add(sum, div_floor(term, 2 * k + 1));
        k = k + 1;
    }
    sum
}

/// The inverse tangent, wide, of a wide `t` between zero and one. Above the
/// tangent of a sixteenth of a turn the identity
/// `atan(t) = pi/4 + atan((t - 1) / (t + 1))` brings the argument down.
pub open spec fn atan_unit_spec(t: i128) -> i128 {
    if t > TAN_PI_8 {
        sat_add(QUARTER_PI, atan_series(mul_div(sat_sub(t, WIDE), WIDE, sat_add(t, WIDE))))
    } else {
        atan_series(t)
    }
}

#[verifier::when_used_as_spec(atan_unit_spec)]
pub fn atan_unit(t: i128) -> (out: i128)
    ensures
        out == atan_unit_spec(t),
{
    if t > TAN_PI_8 {
        sat_add(QUARTER_PI, atan_series(mul_div(sat_sub(t, WIDE), WIDE, sat_add(t, WIDE))))
    } else {
        atan_series(t)
    }
}

} // verus!
