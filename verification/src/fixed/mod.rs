//! Decimal fixed-point numbers with saturating arithmetic.
//!
//! A [`Fixed`] stands for the real number `raw / SCALE`. Each operation is
//! specified exactly, as a `spec` function on the raw integers: sums and
//! differences are exact until they saturate, products and quotients are
//! rounded down to the next representable number.
use vstd::prelude::*;
use crate::fixed::arith::{div_floor, mul_div, rem_floor, sat_add, sat_mul, sat_neg, sat_sub};

pub mod arith;
pub mod elementary;
pub mod laws;
pub mod series;

verus! {

/// Raw units per whole unit: a `Fixed` holds twelve decimal places.
pub const SCALE: i128 = 1_000_000_000_000;

/// Minus one whole unit, in raw units.
pub const MINUS_ONE: i128 = -1_000_000_000_000;

/// A tenth of a unit, in raw units.
pub const TENTH: i128 = 100_000_000_000;

/// A hundredth of a unit, in raw units.
pub const HUNDREDTH: i128 = 10_000_000_000;

/// Half a unit, in raw units.
pub const HALF: i128 = 500_000_000_000;

/// A real number `raw / SCALE`. Every bit pattern is a valid value; results
/// that leave the representable range saturate at the ends of the range.
#[derive(Clone, Copy, Debug, PartialEq, Eq, Structural)]
pub struct Fixed {
    pub raw: i128,
}

/// The number of `raw` units.
pub open spec fn fx_spec(raw: i128) -> Fixed {
    Fixed { raw }
}

#[verifier::when_used_as_spec(fx_spec)]
pub fn fx(raw: i128) -> (out: Fixed)
    ensures
        out == fx_spec(raw),
{
    Fixed { raw }
}

impl Fixed {
    /// The number zero.
    pub open spec fn spec_zero() -> Fixed {
        Fixed { raw: 0 }
    }

    #[verifier::when_used_as_spec(spec_zero)]
    pub fn zero() -> (out: Fixed)
        ensures
            out == Self::spec_zero(),
    {
        Fixed { raw: 0 }
    }

    /// The whole number `n`.
    pub open spec fn spec_from_int(n: i64) -> Fixed {
        Fixed { raw: (n * SCALE) as i128 }
    }

    #[verifier::when_used_as_spec(spec_from_int)]
    pub fn from_int(n: i64) -> (out: Fixed)
        ensures
            out == Self::spec_from_int(n),
            out.raw == n * SCALE,
    {
        let wide: i128 = n as i128;
        Fixed { raw: wide * SCALE }
    }

    /// `n` tenths.
    pub open spec fn spec_from_tenths(n: i64) -> Fixed {
        Fixed { raw: (n * TENTH) as i128 }
    }

    #[verifier::when_used_as_spec(spec_from_tenths)]
    pub fn from_tenths(n: i64) -> (out: Fixed)
        ensures
            out == Self::spec_from_tenths(n),
    {
        let wide: i128 = n as i128;
        Fixed { raw: wide * TENTH }
    }

    /// `n` hundredths.
    pub open spec fn spec_from_hundredths(n: i64) -> Fixed {
        Fixed { raw: (n * HUNDREDTH) as i128 }
    }

    #[verifier::when_used_as_spec(spec_from_hundredths)]
    pub fn from_hundredths(n: i64) -> (out: Fixed)
        ensures
            out == Self::spec_from_hundredths(n),
    {
        let wide: i128 = n as i128;
        Fixed { raw: wide * HUNDREDTH }
    }

    /// The quotient `n / d` of two whole numbers, rounded down; `d` is
    /// positive.
    pub open spec fn spec_from_ratio(n: i64, d: i64) -> Fixed {
        Fixed { raw: div_floor((n * SCALE) as i128, d as i128) }
    }

    #[verifier::when_used_as_spec(spec_from_ratio)]
    pub fn from_ratio(n: i64, d: i64) -> (out: Fixed)
        requires
            d > 0,
        ensures
            out == Self::spec_from_ratio(n, d),
    {
        let wide: i128 = n as i128;
        Fixed { raw: div_floor(wide * SCALE, d as i128) }
    }

    /// Sum, saturating.
    pub open spec fn spec_plus(self, other: Fixed) -> Fixed {
        Fixed { raw: sat_add(self.raw, other.raw) }
    }

    #[verifier::when_used_as_spec(spec_plus)]
    pub fn plus(self, other: Fixed) -> (out: Fixed)
        ensures
            out == self.spec_plus(other),
    {
        Fixed { raw: sat_add(self.raw, other.raw) }
    }

    /// Difference, saturating.
    pub open spec fn spec_minus(self, other: Fixed) -> Fixed {
        Fixed { raw: sat_sub(self.raw, other.raw) }
    }

    #[verifier::when_used_as_spec(spec_minus)]
    pub fn minus(self, other: Fixed) -> (out: Fixed)
        ensures
            out == self.spec_minus(other),
    {
        Fixed { raw: sat_sub(self.raw, other.raw) }
    }

    /// Product, rounded down.
    pub open spec fn spec_times(self, other: Fixed) -> Fixed {
        Fixed { raw: mul_div(self.raw, other.raw, SCALE) }
    }

    #[verifier::when_used_as_spec(spec_times)]
    pub fn times(self, other: Fixed) -> (out: Fixed)
        ensures
            out == self.spec_times(other),
    {
        Fixed { raw: mul_div(self.raw, other.raw, SCALE) }
    }

    /// Product with a whole number, exact until it saturates.
    pub open spec fn spec_times_int(self, n: i64) -> Fixed {
        Fixed { raw: sat_mul(self.raw, n as i128) }
    }

    #[verifier::when_used_as_spec(spec_times_int)]
    pub fn times_int(self, n: i64) -> (out: Fixed)
        ensures
            out == self.spec_times_int(n),
    {
        Fixed { raw: sat_mul(self.raw, n as i128) }
    }

    /// Quotient, rounded down. A non-zero number over zero saturates by its
    /// sign; zero over zero is zero.
    pub open spec fn spec_over(self, other: Fixed) -> Fixed {
        if other.raw == 0 {
            if self.raw == 0 {
                Fixed { raw: 0 }
            } else if self.raw > 0 {
                Fixed { raw: i128::MAX }
            } else {
                Fixed { raw: i128::MIN }
            }
        } else if other.raw > 0 {
            Fixed { raw: mul_div(self.raw, SCALE, other.raw) }
        } else {
            Fixed { raw: mul_div(sat_neg(self.raw), SCALE, sat_neg(other.raw)) }
        }
    }

    #[verifier::when_used_as_spec(spec_over)]
    pub fn over(self, other: Fixed) -> (out: Fixed)
        ensures
            out == self.spec_over(other),
    {
        if other.raw == 0 {
            if self.raw == 0 {
                Fixed { raw: 0 }
            } else if self.raw > 0 {
                Fixed { raw: i128::MAX }
            } else {
                Fixed { raw: i128::MIN }
            }
        } else if other.raw > 0 {
            Fixed { raw: mul_div(self.raw, SCALE, other.raw) }
        } else {
            Fixed { raw: mul_div(sat_neg(self.raw), SCALE, sat_neg(other.raw)) }
        }
    }

    /// Quotient by a positive whole number, rounded down.
    pub open spec fn spec_over_int(self, n: i64) -> Fixed {
        Fixed { raw: div_floor(self.raw, n as i128) }
    }

    #[verifier::when_used_as_spec(spec_over_int)]
    pub fn over_int(self, n: i64) -> (out: Fixed)
        requires
            n > 0,
        ensures
            out == self.spec_over_int(n),
    {
        Fixed { raw: div_floor(self.raw, n as i128) }
    }

    /// Negation, saturating.
    pub open spec fn spec_neg(self) -> Fixed {
        Fixed { raw: sat_neg(self.raw) }
    }

    #[verifier::when_used_as_spec(spec_neg)]
    pub fn neg(self) -> (out: Fixed)
        ensures
            out == self.spec_neg(),
    {
        Fixed { raw: sat_neg(self.raw) }
    }

    /// Absolute value, saturating.
    pub open spec fn spec_abs(self) -> Fixed {
        if self.raw < 0 {
            Fixed { raw: sat_neg(self.raw) }
        } else {
            self
        }
    }

    #[verifier::when_used_as_spec(spec_abs)]
    pub fn abs(self) -> (out: Fixed)
        ensures
            out == self.spec_abs(),
            out.raw >= 0,
    {
        if self.raw < 0 {
            Fixed { raw: sat_neg(self.raw) }
        } else {
            self
        }
    }

    /// The number with the magnitude of `self` and the sign of `sign`; zero
    /// where `sign` is zero.
    pub open spec fn spec_with_sign_of(self, sign: Fixed) -> Fixed {
        if sign.raw > 0 {
            self
        } else if sign.raw < 0 {
            Fixed { raw: sat_neg(self.raw) }
        } else {
            Fixed { raw: 0 }
        }
    }

    #[verifier::when_used_as_spec(spec_with_sign_of)]
    pub fn with_sign_of(self, sign: Fixed) -> (out: Fixed)
        ensures
            out == self.spec_with_sign_of(sign),
    {
        if sign.raw > 0 {
            self
        } else if sign.raw < 0 {
            Fixed { raw: sat_neg(self.raw) }
        } else {
            Fixed { raw: 0 }
        }
    }

    /// The smaller of two numbers.
    pub open spec fn spec_min(self, other: Fixed) -> Fixed {
        if other.raw < self.raw {
            other
        } else {
            self
        }
    }

    #[verifier::when_used_as_spec(spec_min)]
    pub fn min(self, other: Fixed) -> (out: Fixed)
        ensures
            out == self.spec_min(other),
    {
        if other.raw < self.raw {
            other
        } else {
            self
        }
    }

    /// The larger of two numbers.
    pub open spec fn spec_max(self, other: Fixed) -> Fixed {
        if other.raw > self.raw {
            other
        } else {
            self
        }
    }

    #[verifier::when_used_as_spec(spec_max)]
    pub fn max(self, other: Fixed) -> (out: Fixed)
        ensures
            out == self.spec_max(other),
    {
        if other.raw > self.raw {
            other
        } else {
            self
        }
    }

    /// `self` held between `lo` and `hi`: first raised to `lo`, then lowered
    /// to `hi`.
    pub open spec fn spec_clamp(self, lo: Fixed, hi: Fixed) -> Fixed {
        self.max(lo).min(hi)
    }

    #[verifier::when_used_as_spec(spec_clamp)]
    pub fn clamp(self, lo: Fixed, hi: Fixed) -> (out: Fixed)
        ensures
            out == self.spec_clamp(lo, hi),
            lo.raw <= hi.raw ==> lo.raw <= out.raw <= hi.raw,
    {
        self.max(lo).min(hi)
    }

    /// Strictly less.
    pub open spec fn spec_lt(self, other: Fixed) -> bool {
        self.raw < other.raw
    }

    #[verifier::when_used_as_spec(spec_lt)]
    pub fn lt(self, other: Fixed) -> (out: bool)
        ensures
            out == (self.raw < other.raw),
    {
        self.raw < other.raw
    }

    /// Less or equal.
    pub open spec fn spec_le(self, other: Fixed) -> bool {
        self.raw <= other.raw
    }

    #[verifier::when_used_as_spec(spec_le)]
    pub fn le(self, other: Fixed) -> (out: bool)
        ensures
            out == (self.raw <= other.raw),
    {
        self.raw <= other.raw
    }

    /// Strictly greater.
    pub open spec fn spec_gt(self, other: Fixed) -> bool {
        self.raw > other.raw
    }

    #[verifier::when_used_as_spec(spec_gt)]
    pub fn gt(self, other: Fixed) -> (out: bool)
        ensures
            out == (self.raw > other.raw),
    {
        self.raw > other.raw
    }

    /// Greater or equal.
    pub open spec fn spec_ge(self, other: Fixed) -> bool {
        self.raw >= other.raw
    }

    #[verifier::when_used_as_spec(spec_ge)]
    pub fn ge(self, other: Fixed) -> (out: bool)
        ensures
            out == (self.raw >= other.raw),
    {
        self.raw >= other.raw
    }

    /// The largest whole number not above `self`.
    pub open spec fn spec_floor(self) -> Fixed {
        Fixed { raw: sat_sub(self.raw, rem_floor(self.raw, SCALE)) }
    }

    #[verifier::when_used_as_spec(spec_floor)]
    pub fn floor(self) -> (out: Fixed)
        ensures
            out == self.spec_floor(),
    {
        Fixed { raw: sat_sub(self.raw, rem_floor(self.raw, SCALE)) }
    }

    /// The smallest whole number not below `self`.
    pub open spec fn spec_ceil(self) -> Fixed {
        if rem_floor(self.raw, SCALE) == 0 {
            self
        } else {
            Fixed { raw: sat_add(sat_sub(self.raw, rem_floor(self.raw, SCALE)), SCALE) }
        }
    }

    #[verifier::when_used_as_spec(spec_ceil)]
    pub fn ceil(self) -> (out: Fixed)
        ensures
            out == self.spec_ceil(),
    {
        let r = rem_floor(self.raw, SCALE);
        if r == 0 {
            self
        } else {
            Fixed { raw: sat_add(sat_sub(self.raw, r), SCALE) }
        }
    }

    /// The nearest whole number, halves rounded away from zero.
    pub open spec fn spec_round(self) -> Fixed {
        Fixed { raw: sat_add(self.abs().raw, HALF) }.floor().with_sign_of(self)
    }

    #[verifier::when_used_as_spec(spec_round)]
    pub fn round(self) -> (out: Fixed)
        ensures
            out == self.spec_round(),
    {
        Fixed { raw: sat_add(self.abs().raw, HALF) }.floor().with_sign_of(self)
    }

    /// The whole part of `self`, rounded down, as an integer.
    pub open spec fn spec_floor_int(self) -> i128 {
        div_floor(self.raw, SCALE)
    }

    #[verifier::when_used_as_spec(spec_floor_int)]
    pub fn floor_int(self) -> (out: i128)
        ensures
            out == self.spec_floor_int(),
    {
        div_floor(self.raw, SCALE)
    }

    /// The nearest integer, halves rounded away from zero.
    pub open spec fn spec_round_int(self) -> i128 {
        self.round().floor_int()
    }

    #[verifier::when_used_as_spec(spec_round_int)]
    pub fn round_int(self) -> (out: i128)
        ensures
            out == self.spec_round_int(),
    {
        self.round().floor_int()
    }

    /// The remainder of `self` by a positive `modulus`, in `0..modulus`;
    /// zero where the modulus is not positive.
    pub open spec fn spec_rem(self, modulus: Fixed) -> Fixed {
        if modulus.raw > 0 {
            Fixed { raw: rem_floor(self.raw, modulus.raw) }
        } else {
            Fixed { raw: 0 }
        }
    }

    #[verifier::when_used_as_spec(spec_rem)]
    pub fn rem(self, modulus: Fixed) -> (out: Fixed)
        ensures
            out == self.spec_rem(modulus),
            modulus.raw > 0 ==> 0 <= out.raw < modulus.raw,
    {
        if modulus.raw > 0 {
            Fixed { raw: rem_floor(self.raw, modulus.raw) }
        } else {
            Fixed { raw: 0 }
        }
    }
}

} // verus!
