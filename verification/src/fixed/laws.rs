//! Laws of the saturating arithmetic.
use vstd::prelude::*;
use crate::fixed::{Fixed, SCALE};

verus! {

/// The magnitude below which a number can be multiplied by one without
/// leaving the range of the intermediate product.
pub const EXACT_LIMIT: i128 = 100_000_000_000_000_000_000_000_000;

/// Whether a number is small enough for products with numbers of
/// magnitude up to one to be exact.
pub open spec fn is_moderate(x: Fixed) -> bool {
    -EXACT_LIMIT <= x.raw <= EXACT_LIMIT
}

/// Sums do not depend on the order of their terms.
pub proof fn lemma_plus_is_commutative(a: Fixed, b: Fixed)
    ensures
        a.plus(b) == b.plus(a),
{
}

/// Products do not depend on the order of their factors.
pub proof fn lemma_times_is_commutative(a: Fixed, b: Fixed)
    ensures
        a.times(b) == b.times(a),
{
    assert(a.raw * b.raw == b.raw * a.raw) by (nonlinear_arith);
}

/// Zero is neutral for sums.
pub proof fn lemma_plus_zero(a: Fixed)
    ensures
        a.plus(Fixed::zero()) == a,
        Fixed::zero().plus(a) == a,
{
}

/// One is neutral for products of moderate numbers.
pub proof fn lemma_times_one(a: Fixed)
    requires
        is_moderate(a),
    ensures
        a.times(Fixed::from_int(1)) == a,
        Fixed::from_int(1).times(a) == a,
{
    let n = a.raw as int;
    assert(n * 1_000_000_000_000 / 1_000_000_000_000 == n) by (nonlinear_arith);
    assert(1_000_000_000_000 * n == n * 1_000_000_000_000) by (nonlinear_arith);
    assert(a.raw * SCALE == n * 1_000_000_000_000);
    assert(SCALE * a.raw == n * 1_000_000_000_000);
}

/// Zero times any number is zero.
pub proof fn lemma_times_zero(a: Fixed)
    ensures
        a.times(Fixed::zero()) == Fixed::zero(),
        Fixed::zero().times(a) == Fixed::zero(),
{
    assert(a.raw * 0 == 0) by (nonlinear_arith);
    assert(0 * a.raw == 0) by (nonlinear_arith);
}

/// A sum grows with each of its terms: saturation keeps the order.
pub proof fn lemma_plus_is_monotone(a: Fixed, b: Fixed, c: Fixed)
    requires
        a.raw <= b.raw,
    ensures
        a.plus(c).raw <= b.plus(c).raw,
        c.plus(a).raw <= c.plus(b).raw,
{
}

/// A difference grows with what is taken from and shrinks with what
/// is taken.
pub proof fn lemma_minus_is_monotone(a: Fixed, b: Fixed, c: Fixed)
    requires
        a.raw <= b.raw,
    ensures
        a.minus(c).raw <= b.minus(c).raw,
        c.minus(b).raw <= c.minus(a).raw,
{
}

/// A number held between two bounds lies between them, and a number
/// between them is held as it is.
pub proof fn lemma_clamp_holds(x: Fixed, lo: Fixed, hi: Fixed)
    requires
        lo.raw <= hi.raw,
    ensures
        lo.raw <= x.clamp(lo, hi).raw <= hi.raw,
        lo.raw <= x.raw <= hi.raw ==> x.clamp(lo, hi) == x,
{
}

/// The product of two numbers that are not negative is not negative.
pub proof fn lemma_times_keeps_sign(a: Fixed, b: Fixed)
    requires
        a.raw >= 0,
        b.raw >= 0,
    ensures
        a.times(b).raw >= 0,
{
    assert(a.raw * b.raw >= 0) by (nonlinear_arith)
        requires
            a.raw >= 0,
            b.raw >= 0,
    ;
    let p = a.raw * b.raw;
    if p <= i128::MAX {
        assert(p / (SCALE as int) >= 0);
    }
}

} // verus!
