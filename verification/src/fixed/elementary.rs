//! Elementary functions on fixed-point numbers.
//!
//! Square roots are exact integer roots. The transcendental functions are
//! evaluated by argument reduction and power series on wide integers, and
//! are specified as exactly that evaluation.
use vstd::prelude::*;
use crate::fixed::Fixed;
use crate::fixed::SCALE;
use crate::fixed::arith::{
    div_floor, icbrt, is_cbrt_of, is_sqrt_of, isqrt, mul_div, sat_add, sat_mul, sat_neg, sat_sub,
};
use crate::fixed::series::{
    atan_unit, exp_wide, ln_wide, sin_cos_wide, HALF_PI, PI, WIDE, WIDE_PER_RAW,
};

verus! {

/// The square of the number of raw units per whole unit.
pub const SCALE_SQUARED: i128 = 1_000_000_000_000_000_000_000_000;

/// Half a turn in degrees, wide.
pub const WIDE_180: i128 = 180_000_000_000_000_000_000;

impl Fixed {
    /// The square root, rounded down; zero for a negative number.
    #[verifier::opaque]
    pub open spec fn spec_sqrt(self) -> Fixed {
        Fixed { raw: isqrt(sat_mul(self.raw, SCALE)) }
    }

    #[verifier::when_used_as_spec(spec_sqrt)]
    pub fn sqrt(self) -> (out: Fixed)
        ensures
            out == self.spec_sqrt(),
            out.raw >= 0,
            0 < self.raw && self.raw * SCALE <= i128::MAX ==> is_sqrt_of(
                out.raw as int,
                self.raw * SCALE,
            ),
    {
        proof {
            reveal(Fixed::spec_sqrt);
        }
        Fixed { raw: isqrt(sat_mul(self.raw, SCALE)) }
    }

    /// The cube root, rounded towards zero: for a number that is not
    /// negative the greatest number whose cube is not above it.
    pub open spec fn spec_cbrt(self) -> Fixed {
        if self.raw >= 0 {
            Fixed { raw: icbrt(sat_mul(self.raw, SCALE_SQUARED)) }
        } else {
            Fixed { raw: sat_neg(icbrt(sat_mul(sat_neg(self.raw), SCALE_SQUARED))) }
        }
    }

    #[verifier::when_used_as_spec(spec_cbrt)]
    pub fn cbrt(self) -> (out: Fixed)
        ensures
            out == self.spec_cbrt(),
            self.raw >= 0 ==> out.raw >= 0,
            0 < self.raw && self.raw * SCALE_SQUARED <= i128::MAX ==> is_cbrt_of(
                out.raw as int,
                self.raw * SCALE_SQUARED,
            ),
    {
        if self.raw >= 0 {
            Fixed { raw: icbrt(sat_mul(self.raw, SCALE_SQUARED)) }
        } else {
            Fixed { raw: sat_neg(icbrt(sat_mul(sat_neg(self.raw), SCALE_SQUARED))) }
        }
    }

    /// The exponential function.
    #[verifier::opaque]
    pub open spec fn spec_exp(self) -> Fixed {
        Fixed { raw: exp_wide(sat_mul(self.raw, WIDE_PER_RAW)) }
    }

    #[verifier::when_used_as_spec(spec_exp)]
    pub fn exp(self) -> (out: Fixed)
        ensures
            out == self.spec_exp(),
    {
        proof {
            reveal(Fixed::spec_exp);
        }
        Fixed { raw: exp_wide(sat_mul(self.raw, WIDE_PER_RAW)) }
    }

    /// The natural logarithm; the least number for an argument that is not
    /// positive.
    #[verifier::opaque]
    pub open spec fn spec_ln(self) -> Fixed {
        if self.raw > 0 {
            Fixed { raw: div_floor(ln_wide(self.raw), WIDE_PER_RAW) }
        } else {
            Fixed { raw: i128::MIN }
        }
    }

    #[verifier::when_used_as_spec(spec_ln)]
    pub fn ln(self) -> (out: Fixed)
        ensures
            out == self.spec_ln(),
    {
        proof {
            reveal(Fixed::spec_ln);
        }
        if self.raw > 0 {
            Fixed { raw: div_floor(ln_wide(self.raw), WIDE_PER_RAW) }
        } else {
            Fixed { raw: i128::MIN }
        }
    }

    /// `self` raised to `exponent`, as `exp(exponent * ln(self))` for a
    /// positive base. A base that is not positive gives zero for a positive
    /// exponent, one for the exponent zero, and saturates for a negative one.
    #[verifier::opaque]
    pub open spec fn spec_pow(self, exponent: Fixed) -> Fixed {
        if self.raw > 0 {
            Fixed { raw: exp_wide(mul_div(ln_wide(self.raw), exponent.raw, SCALE)) }
        } else if exponent.raw > 0 {
            Fixed { raw: 0 }
        } else if exponent.raw == 0 {
            Fixed { raw: SCALE }
        } else {
            Fixed { raw: i128::MAX }
        }
    }

    #[verifier::when_used_as_spec(spec_pow)]
    pub fn pow(self, exponent: Fixed) -> (out: Fixed)
        ensures
            out == self.spec_pow(exponent),
    {
        proof {
            reveal(Fixed::spec_pow);
        }
        if self.raw > 0 {
            Fixed { raw: exp_wide(mul_div(ln_wide(self.raw), exponent.raw, SCALE)) }
        } else if exponent.raw > 0 {
            Fixed { raw: 0 }
        } else if exponent.raw == 0 {
            Fixed { raw: SCALE }
        } else {
            Fixed { raw: i128::MAX }
        }
    }

    /// `ln(1 + self)`.
    #[verifier::opaque]
    pub open spec fn spec_ln_1p(self) -> Fixed {
        Fixed { raw: sat_add(self.raw, SCALE) }.ln()
    }

    #[verifier::when_used_as_spec(spec_ln_1p)]
    pub fn ln_1p(self) -> (out: Fixed)
        ensures
            out == self.spec_ln_1p(),
    {
        proof {
            reveal(Fixed::spec_ln_1p);
        }
        Fixed { raw: sat_add(self.raw, SCALE) }.ln()
    }

    /// `exp(self) - 1`.
    #[verifier::opaque]
    pub open spec fn spec_exp_m1(self) -> Fixed {
        Fixed { raw: sat_sub(self.exp().raw, SCALE) }
    }

    #[verifier::when_used_as_spec(spec_exp_m1)]
    pub fn exp_m1(self) -> (out: Fixed)
        ensures
            out == self.spec_exp_m1(),
    {
        proof {
            reveal(Fixed::spec_exp_m1);
        }
        Fixed { raw: sat_sub(self.exp().raw, SCALE) }
    }

    /// The sine of an angle in radians.
    #[verifier::opaque]
    pub open spec fn spec_sin(self) -> Fixed {
        Fixed { raw: div_floor(sin_cos_wide(sat_mul(self.raw, WIDE_PER_RAW)).0, WIDE_PER_RAW) }
    }

    #[verifier::when_used_as_spec(spec_sin)]
    pub fn sin(self) -> (out: Fixed)
        ensures
            out == self.spec_sin(),
    {
        proof {
            reveal(Fixed::spec_sin);
        }
        Fixed { raw: div_floor(sin_cos_wide(sat_mul(self.raw, WIDE_PER_RAW)).0, WIDE_PER_RAW) }
    }

    /// The cosine of an angle in radians.
    #[verifier::opaque]
    pub open spec fn spec_cos(self) -> Fixed {
        Fixed { raw: div_floor(sin_cos_wide(sat_mul(self.raw, WIDE_PER_RAW)).1, WIDE_PER_RAW) }
    }

    #[verifier::when_used_as_spec(spec_cos)]
    pub fn cos(self) -> (out: Fixed)
        ensures
            out == self.spec_cos(),
    {
        proof {
            reveal(Fixed::spec_cos);
        }
        Fixed { raw: div_floor(sin_cos_wide(sat_mul(self.raw, WIDE_PER_RAW)).1, WIDE_PER_RAW) }
    }

    /// The angle, wide and in the first quadrant, of the point with the
    /// non-negative coordinates `ax` and `ay`, not both zero.
    #[verifier::opaque]
    pub open spec fn spec_first_quadrant_angle(ay: i128, ax: i128) -> i128 {
        if ay <= ax {
            let t = mul_div(ay, WIDE, ax);
            atan_unit(if t > WIDE { WIDE } else { t })
        } else {
            let t = mul_div(ax, WIDE, ay);
            sat_sub(HALF_PI, atan_unit(if t > WIDE { WIDE } else { t }))
        }
    }

    #[verifier::when_used_as_spec(spec_first_quadrant_angle)]
    pub fn first_quadrant_angle(ay: i128, ax: i128) -> (out: i128)
        requires
            ay >= 0,
            ax >= 0,
            ay > 0 || ax > 0,
        ensures
            out == Self::spec_first_quadrant_angle(ay, ax),
    {
        proof {
            reveal(Fixed::spec_first_quadrant_angle);
        }
        if ay <= ax {
            let t = mul_div(ay, WIDE, ax);
            atan_unit(if t > WIDE { WIDE } else { t })
        } else {
            let t = mul_div(ax, WIDE, ay);
            sat_sub(HALF_PI, atan_unit(if t > WIDE { WIDE } else { t }))
        }
    }

    /// The angle in radians, between minus a half turn and a half turn, of
    /// the point with ordinate `self` and abscissa `x`; zero at the origin.
    #[verifier::opaque]
    pub open spec fn spec_atan2(self, x: Fixed) -> Fixed {
        if self.raw == 0 && x.raw == 0 {
            Fixed { raw: 0 }
        } else {
            let first = Self::first_quadrant_angle(self.abs().raw, x.abs().raw);
            let upper = if x.raw < 0 { sat_sub(PI, first) } else { first };
            let angle = if self.raw < 0 { sat_neg(upper) } else { upper };
            Fixed { raw: div_floor(angle, WIDE_PER_RAW) }
        }
    }

    #[verifier::when_used_as_spec(spec_atan2)]
    pub fn atan2(self, x: Fixed) -> (out: Fixed)
        ensures
            out == self.spec_atan2(x),
    {
        proof {
            reveal(Fixed::spec_atan2);
        }
        if self.raw == 0 && x.raw == 0 {
            Fixed { raw: 0 }
        } else {
            let first = Self::first_quadrant_angle(self.abs().raw, x.abs().raw);
            let upper = if x.raw < 0 { sat_sub(PI, first) } else { first };
            let angle = if self.raw < 0 { sat_neg(upper) } else { upper };
            Fixed { raw: div_floor(angle, WIDE_PER_RAW) }
        }
    }

    /// The length of the hypotenuse over the legs `self` and `other`.
    #[verifier::opaque]
    pub open spec fn spec_hypot(self, other: Fixed) -> Fixed {
        self.times(self).plus(other.times(other)).sqrt()
    }

    #[verifier::when_used_as_spec(spec_hypot)]
    pub fn hypot(self, other: Fixed) -> (out: Fixed)
        ensures
            out == self.spec_hypot(other),
    {
        proof {
            reveal(Fixed::spec_hypot);
        }
        self.times(self).plus(other.times(other)).sqrt()
    }

    /// An angle in radians, in degrees.
    #[verifier::opaque]
    pub open spec fn spec_to_degrees(self) -> Fixed {
        Fixed { raw: mul_div(self.raw, WIDE_180, PI) }
    }

    #[verifier::when_used_as_spec(spec_to_degrees)]
    pub fn to_degrees(self) -> (out: Fixed)
        ensures
            out == self.spec_to_degrees(),
    {
        proof {
            reveal(Fixed::spec_to_degrees);
        }
        Fixed { raw: mul_div(self.raw, WIDE_180, PI) }
    }

    /// An angle in degrees, in radians.
    #[verifier::opaque]
    pub open spec fn spec_to_radians(self) -> Fixed {
        Fixed { raw: mul_div(self.raw, PI, WIDE_180) }
    }

    #[verifier::when_used_as_spec(spec_to_radians)]
    pub fn to_radians(self) -> (out: Fixed)
        ensures
            out == self.spec_to_radians(),
    {
        proof {
            reveal(Fixed::spec_to_radians);
        }
        Fixed { raw: mul_div(self.raw, PI, WIDE_180) }
    }
}

} // verus!
