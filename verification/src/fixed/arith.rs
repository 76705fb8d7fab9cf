//! Total integer primitives underneath the fixed-point operations.
use vstd::prelude::*;

verus! {

/// The nearest `i128` to an integer.
pub open spec fn sat(v: int) -> i128 {
    if v > i128::MAX {
        i128::MAX
    } else if v < i128::MIN {
        i128::MIN
    } else {
        v as i128
    }
}

/// Saturating sum.
pub open spec fn sat_add_spec(a: i128, b: i128) -> i128 {
    sat(a + b)
}

#[verifier::when_used_as_spec(sat_add_spec)]
pub fn sat_add(a: i128, b: i128) -> (out: i128)
    ensures
        out == sat_add_spec(a, b),
{
    match a.checked_add(b) {
        Some(s) => s,
        None => if a > 0 { i128::MAX } else { i128::MIN },
    }
}

/// Saturating difference.
pub open spec fn sat_sub_spec(a: i128, b: i128) -> i128 {
    sat(a - b)
}

#[verifier::when_used_as_spec(sat_sub_spec)]
pub fn sat_sub(a: i128, b: i128) -> (out: i128)
    ensures
        out == sat_sub_spec(a, b),
{
    match a.checked_sub(b) {
        Some(s) => s,
        None => if a >= 0 { i128::MAX } else { i128::MIN },
    }
}

/// `a * b / d` with the product taken exactly when it fits in an `i128`, and
/// the quotient rounded down. A product that does not fit saturates by sign.
pub open spec fn mul_div_spec(a: i128, b: i128, d: i128) -> i128 {
    let p = a * b;
    if p > i128::MAX {
        i128::MAX
    } else if p < i128::MIN {
        i128::MIN
    } else {
        (p / (d as int)) as i128
    }
}

#[verifier::when_used_as_spec(mul_div_spec)]
pub fn mul_div(a: i128, b: i128, d: i128) -> (out: i128)
    requires
        d > 0,
    ensures
        out == mul_div_spec(a, b, d),
{
    match a.checked_mul(b) {
        Some(p) => {
            match p.checked_div_euclid(d) {
                Some(q) => q,
                None => {
                    assert(false) by (nonlinear_arith)
                        requires
                            d > 0,
                            i128::MIN <= p <= i128::MAX,
                            !(i128::MIN <= p / d <= i128::MAX),
                    ;
                    0
                },
            }
        },
        None => {
            assert((a > 0 && b > 0 || a < 0 && b < 0) <==> a * b > 0) by (nonlinear_arith);
            if (a > 0) == (b > 0) {
                i128::MAX
            } else {
                i128::MIN
            }
        },
    }
}

/// Saturating negation.
pub open spec fn sat_neg_spec(a: i128) -> i128 {
    sat(-a)
}

#[verifier::when_used_as_spec(sat_neg_spec)]
pub fn sat_neg(a: i128) -> (out: i128)
    ensures
        out == sat_neg_spec(a),
{
    if a == i128::MIN {
        i128::MAX
    } else {
        -a
    }
}

/// Saturating product.
pub open spec fn sat_mul_spec(a: i128, b: i128) -> i128 {
    sat(a * b)
}

#[verifier::when_used_as_spec(sat_mul_spec)]
pub fn sat_mul(a: i128, b: i128) -> (out: i128)
    ensures
        out == sat_mul_spec(a, b),
{
    match a.checked_mul(b) {
        Some(p) => p,
        None => {
            assert((a > 0 && b > 0 || a < 0 && b < 0) <==> a * b > 0) by (nonlinear_arith);
            assert(a * b > i128::MAX || a * b < i128::MIN);
            if (a > 0) == (b > 0) {
                i128::MAX
            } else {
                i128::MIN
            }
        },
    }
}

/// Quotient rounded down, for a positive divisor.
pub open spec fn div_floor_spec(a: i128, d: i128) -> i128 {
    (a / d) as i128
}

#[verifier::when_used_as_spec(div_floor_spec)]
pub fn div_floor(a: i128, d: i128) -> (out: i128)
    requires
        d > 0,
    ensures
        out == div_floor_spec(a, d),
        d * out <= a < d * out + d,
{
    assert(i128::MIN <= a / d <= i128::MAX && d * (a / d) <= a < d * (a / d) + d)
        by (nonlinear_arith)
        requires
            d > 0,
            i128::MIN <= a <= i128::MAX,
    ;
    match a.checked_div_euclid(d) {
        Some(q) => q,
        None => 0,
    }
}

/// Remainder in `0..d`, for a positive divisor.
pub open spec fn rem_floor_spec(a: i128, d: i128) -> i128 {
    (a % d) as i128
}

#[verifier::when_used_as_spec(rem_floor_spec)]
pub fn rem_floor(a: i128, d: i128) -> (out: i128)
    requires
        d > 0,
    ensures
        out == rem_floor_spec(a, d),
        0 <= out < d,
{
    assert(0 <= a % d < d) by (nonlinear_arith)
        requires
            d > 0,
    ;
    match a.checked_rem_euclid(d) {
        Some(r) => r,
        None => 0,
    }
}

/// Two to the power `k`, saturating.
pub open spec fn pow2_spec(k: u32) -> i128
    decreases k,
{
    if k == 0 {
        1
    } else {
        sat_mul(pow2_spec((k - 1) as u32), 2)
    }
}

#[verifier::when_used_as_spec(pow2_spec)]
pub fn pow2(k: u32) -> (out: i128)
    ensures
        out == pow2_spec(k),
        out >= 1,
{
    let mut x: i128 = 1;
    let mut i: u32 = 0;
    while i < k
        invariant
            i <= k,
            x == pow2_spec(i),
            x >= 1,
        decreases k - i,
    {
        x = sat_mul(x, 2);
        i = i + 1;
    }
    x
}

/// Whether `r` is the integer square root of `n`.
pub open spec fn is_sqrt_of(r: int, n: int) -> bool {
    r >= 0 && r * r <= n < (r + 1) * (r + 1)
}

/// The integer square root: the largest `r` with `r * r <= n`; zero for a
/// negative `n`.
pub open spec fn isqrt_spec(n: i128) -> i128 {
    if n <= 0 {
        0
    } else {
        (choose|r: int| is_sqrt_of(r, n as int)) as i128
    }
}

/// At most one integer is the square root of `n`.
pub proof fn lemma_sqrt_unique(r: int, s: int, n: int)
    requires
        is_sqrt_of(r, n),
        is_sqrt_of(s, n),
    ensures
        r == s,
{
    if r < s {
        assert((r + 1) * (r + 1) <= s * s) by (nonlinear_arith)
            requires
                0 <= r,
                r + 1 <= s,
        ;
    } else if s < r {
        assert((s + 1) * (s + 1) <= r * r) by (nonlinear_arith)
            requires
                0 <= s,
                s + 1 <= r,
        ;
    }
}

#[verifier::when_used_as_spec(isqrt_spec)]
pub fn isqrt(n: i128) -> (out: i128)
    ensures
        out == isqrt_spec(n),
        n > 0 ==> is_sqrt_of(out as int, n as int),
{
    if n <= 0 {
        return 0;
    }
    let target: u128 = n as u128;
    let mut lo: u128 = 0;
    let mut hi: u128 = 0x1_0000_0000_0000_0000;
    while hi - lo > 1
        invariant
            lo < hi <= 0x1_0000_0000_0000_0000,
            lo * lo <= target,
            target < hi * hi,
            target == n,
        decreases hi - lo,
    {
        let mid: u128 = lo + (hi - lo) / 2;
        assert(mid * mid <= u128::MAX) by (nonlinear_arith)
            requires
                mid < 0x1_0000_0000_0000_0000,
        ;
        if mid * mid <= target {
            lo = mid;
        } else {
            hi = mid;
        }
    }
    proof {
        assert(hi == lo + 1);
        assert(is_sqrt_of(lo as int, n as int));
        let r = choose|r: int| is_sqrt_of(r, n as int);
        lemma_sqrt_unique(r, lo as int, n as int);
        assert(lo * lo <= i128::MAX);
        assert(lo <= i128::MAX) by (nonlinear_arith)
            requires
                lo * lo <= i128::MAX,
        ;
    }
    lo as i128
}

/// Whether `r` is the integer cube root of `n`.
pub open spec fn is_cbrt_of(r: int, n: int) -> bool {
    r >= 0 && r * r * r <= n < (r + 1) * (r + 1) * (r + 1)
}

/// The integer cube root: the largest `r` with `r * r * r <= n`; zero for
/// a negative `n`.
pub open spec fn icbrt_spec(n: i128) -> i128 {
    if n <= 0 {
        0
    } else {
        (choose|r: int| is_cbrt_of(r, n as int)) as i128
    }
}

/// Cubes grow with their roots.
pub proof fn lemma_cube_is_monotone(a: int, b: int)
    requires
        0 <= a <= b,
    ensures
        a * a * a <= b * b * b,
{
    assert(a * a <= b * b) by (nonlinear_arith)
        requires
            0 <= a <= b,
    ;
    assert(a * a * a <= b * b * b) by (nonlinear_arith)
        requires
            0 <= a <= b,
            0 <= a * a <= b * b,
    ;
}

/// At most one integer is the cube root of `n`.
pub proof fn lemma_cbrt_unique(r: int, s: int, n: int)
    requires
        is_cbrt_of(r, n),
        is_cbrt_of(s, n),
    ensures
        r == s,
{
    if r < s {
        lemma_cube_is_monotone(r + 1, s);
    } else if s < r {
        lemma_cube_is_monotone(s + 1, r);
    }
}

/// One more than the cube root of the greatest `i128`.
pub const CBRT_LIMIT: u128 = 5_541_191_377_757;

#[verifier::when_used_as_spec(icbrt_spec)]
pub fn icbrt(n: i128) -> (out: i128)
    ensures
        out == icbrt_spec(n),
        n > 0 ==> is_cbrt_of(out as int, n as int),
        0 <= out < CBRT_LIMIT,
{
    if n <= 0 {
        return 0;
    }
    let target: u128 = n as u128;
    let mut lo: u128 = 0;
    let mut hi: u128 = CBRT_LIMIT;
    assert(5_541_191_377_757int * 5_541_191_377_757int * 5_541_191_377_757int > i128::MAX);
    while hi - lo > 1
        invariant
            lo < hi <= CBRT_LIMIT,
            lo * lo * lo <= target,
            target < hi * hi * hi,
            target == n,
        decreases hi - lo,
    {
        let mid: u128 = lo + (hi - lo) / 2;
        proof {
            lemma_cube_is_monotone(mid as int, CBRT_LIMIT as int - 1);
            assert((CBRT_LIMIT as int - 1) * (CBRT_LIMIT as int - 1) * (CBRT_LIMIT as int - 1)
                <= u128::MAX);
            assert(mid * mid <= 5_541_191_377_757int * 5_541_191_377_757int) by (nonlinear_arith)
                requires
                    0 <= mid < 5_541_191_377_757int,
            ;
        }
        let square: u128 = mid * mid;
        let cube: u128 = square * mid;
        assert(cube == mid * mid * mid);
        if cube <= target {
            lo = mid;
        } else {
            hi = mid;
        }
    }
    proof {
        assert(hi == lo + 1);
        assert(is_cbrt_of(lo as int, n as int));
        let r = choose|r: int| is_cbrt_of(r, n as int);
        lemma_cbrt_unique(r, lo as int, n as int);
    }
    lo as i128
}

} // verus!
