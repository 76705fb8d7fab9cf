//! Viewing conditions: what the CAM16 model needs to know of the
//! surroundings in which a colour is seen.
use vstd::prelude::*;
use crate::fixed::{fx, Fixed};
use crate::utils::color::{white_point_d65, y_from_lstar};
use crate::utils::math::{lerp, matrix_multiply, Matrix};

verus! {

/// XYZ coordinates to the cone responses of CAM16.
pub const XYZ_TO_CAM16RGB: Matrix = (
    (401_288_000_000, 650_173_000_000, -51_461_000_000),
    (-250_268_000_000, 1_204_414_000_000, 45_854_000_000),
    (-2_079_000_000, 48_952_000_000, 953_127_000_000),
);

/// The circle constant to twelve places.
pub const PI_FIXED: i128 = 3_141_592_653_589;

/// 0.1, the least background lightness.
pub const MIN_BACKGROUND: i128 = 100_000_000_000;

/// 0.8, the surround factor of a dark surround.
pub const SURROUND_DARK: i128 = 800_000_000_000;

/// 0.9, the surround factor of a dim surround.
pub const SURROUND_DIM: i128 = 900_000_000_000;

/// 0.525, the exponential non-linearity of a dark surround.
pub const C_DARK: i128 = 525_000_000_000;

/// 0.59, the exponential non-linearity of a dim surround.
pub const C_DIM: i128 = 590_000_000_000;

/// 0.69, the exponential non-linearity of an average surround.
pub const C_AVERAGE: i128 = 690_000_000_000;

/// 1 / 3.6.
pub const INVERSE_3_6: i128 = 277_777_777_777;

/// 0.1.
pub const ONE_TENTH: i128 = 100_000_000_000;

/// 1.48.
pub const Z_BASE: i128 = 1_480_000_000_000;

/// 0.725.
pub const NBB_FACTOR: i128 = 725_000_000_000;

/// 0.2.
pub const ONE_FIFTH: i128 = 200_000_000_000;

/// 0.42, the exponent of the cone response.
pub const RESPONSE_EXPONENT: i128 = 420_000_000_000;

/// 27.13, the semi-saturation constant of the cone response.
pub const RESPONSE_OFFSET: i128 = 27_130_000_000_000;

/// 0.05.
pub const BLUE_WEIGHT: i128 = 50_000_000_000;

/// 0.25.
pub const ONE_QUARTER: i128 = 250_000_000_000;

/// The values of the CAM16 conversion that depend on the viewing conditions
/// alone, computed once.
#[derive(Clone, Copy, Debug, PartialEq, Eq)]
pub struct ViewingConditions {
    pub aw: Fixed,
    pub nbb: Fixed,
    pub ncb: Fixed,
    pub c: Fixed,
    pub nc: Fixed,
    pub n: Fixed,
    pub rgb_d: (Fixed, Fixed, Fixed),
    pub fl: Fixed,
    pub fl_root: Fixed,
    pub z: Fixed,
}

/// The compressed response `400 f / (f + 27.13)` to an adapted stimulus
/// `f`.
#[verifier::opaque]
pub open spec fn compressed_response_spec(factor: Fixed) -> Fixed {
    factor.times_int(400).over(factor.plus(fx(RESPONSE_OFFSET)))
}

#[verifier::when_used_as_spec(compressed_response_spec)]
pub fn compressed_response(factor: Fixed) -> (out: Fixed)
    ensures
        out == compressed_response_spec(factor),
{
    proof {
        reveal(compressed_response_spec);
    }
    factor.times_int(400).over(factor.plus(fx(RESPONSE_OFFSET)))
}

/// The degree of adaptation to the white point, between zero and one.
#[verifier::opaque]
pub open spec fn degree_of_adaptation_spec(
    f: Fixed,
    adapting_luminance: Fixed,
    discounting_illuminant: bool,
) -> Fixed {
    if discounting_illuminant {
        Fixed::from_int(1)
    } else {
        f.times(
            Fixed::from_int(1).minus(
                fx(INVERSE_3_6).times(
                    adapting_luminance.neg().minus(Fixed::from_int(42)).over_int(92).exp(),
                ),
            ),
        ).clamp(Fixed::from_int(0), Fixed::from_int(1))
    }
}

#[verifier::when_used_as_spec(degree_of_adaptation_spec)]
pub fn degree_of_adaptation(
    f: Fixed,
    adapting_luminance: Fixed,
    discounting_illuminant: bool,
) -> (out: Fixed)
    ensures
        out == degree_of_adaptation_spec(f, adapting_luminance, discounting_illuminant),
{
    proof {
        reveal(degree_of_adaptation_spec);
    }
    if discounting_illuminant {
        Fixed::from_int(1)
    } else {
        f.times(
            Fixed::from_int(1).minus(
                fx(INVERSE_3_6).times(
                    adapting_luminance.neg().minus(Fixed::from_int(42)).over_int(92).exp(),
                ),
            ),
        ).clamp(Fixed::from_int(0), Fixed::from_int(1))
    }
}

/// The luminance-level adaptation factor of an adapting luminance.
#[verifier::opaque]
pub open spec fn luminance_adaptation_spec(adapting_luminance: Fixed) -> Fixed {
    let k = Fixed::from_int(1).over(adapting_luminance.times_int(5).plus(Fixed::from_int(1)));
    let k4 = k.times(k).times(k).times(k);
    let k4_f = Fixed::from_int(1).minus(k4);
    k4.times(adapting_luminance).plus(
        fx(ONE_TENTH).times(k4_f).times(k4_f).times(
            adapting_luminance.times_int(5).cbrt(),
        ),
    )
}

#[verifier::when_used_as_spec(luminance_adaptation_spec)]
pub fn luminance_adaptation(adapting_luminance: Fixed) -> (out: Fixed)
    ensures
        out == luminance_adaptation_spec(adapting_luminance),
{
    proof {
        reveal(luminance_adaptation_spec);
    }
    let k = Fixed::from_int(1).over(adapting_luminance.times_int(5).plus(Fixed::from_int(1)));
    let k4 = k.times(k).times(k).times(k);
    let k4_f = Fixed::from_int(1).minus(k4);
    k4.times(adapting_luminance).plus(
        fx(ONE_TENTH).times(k4_f).times(k4_f).times(
            adapting_luminance.times_int(5).cbrt(),
        ),
    )
}

impl ViewingConditions {
    /// Viewing conditions from physical parameters: the white point in XYZ,
    /// the adapting luminance, the lightness L* of the background, the
    /// surround (0 dark, 1 dim, 2 average) and whether the eye is taken to
    /// have adapted to the illuminant fully.
    #[verifier::opaque]
    pub open spec fn spec_make(
        white_point: (Fixed, Fixed, Fixed),
        adapting_luminance: Fixed,
        background_lstar: Fixed,
        surround: Fixed,
        discounting_illuminant: bool,
    ) -> ViewingConditions {
        let background = background_lstar.max(fx(MIN_BACKGROUND));
        let white = matrix_multiply(white_point, XYZ_TO_CAM16RGB);
        let f = fx(SURROUND_DARK).plus(surround.over_int(10));
        let c = if f.ge(fx(SURROUND_DIM)) {
            lerp(fx(C_DIM), fx(C_AVERAGE), f.minus(fx(SURROUND_DIM)).times_int(10))
        } else {
            lerp(fx(C_DARK), fx(C_DIM), f.minus(fx(SURROUND_DARK)).times_int(10))
        };
        let d = degree_of_adaptation(f, adapting_luminance, discounting_illuminant);
        let one_less_d = Fixed::from_int(1).minus(d);
        let rgb_d = (
            d.times(Fixed::from_int(100).over(white.0)).plus(one_less_d),
            d.times(Fixed::from_int(100).over(white.1)).plus(one_less_d),
            d.times(Fixed::from_int(100).over(white.2)).plus(one_less_d),
        );
        let fl = luminance_adaptation(adapting_luminance);
        let n = y_from_lstar(background).over(white_point.1);
        let z = fx(Z_BASE).plus(n.sqrt());
        let nbb = fx(NBB_FACTOR).over(n.pow(fx(ONE_FIFTH)));
        let r_a = compressed_response(
            fl.times(rgb_d.0).times(white.0).over_int(100).pow(fx(RESPONSE_EXPONENT)),
        );
        let g_a = compressed_response(
            fl.times(rgb_d.1).times(white.1).over_int(100).pow(fx(RESPONSE_EXPONENT)),
        );
        let b_a = compressed_response(
            fl.times(rgb_d.2).times(white.2).over_int(100).pow(fx(RESPONSE_EXPONENT)),
        );
        let aw = r_a.times_int(2).plus(g_a).plus(fx(BLUE_WEIGHT).times(b_a)).times(nbb);
        ViewingConditions {
            aw,
            nbb,
            ncb: nbb,
            c,
            nc: f,
            n,
            rgb_d,
            fl,
            fl_root: fl.pow(fx(ONE_QUARTER)),
            z,
        }
    }

    #[verifier::when_used_as_spec(spec_make)]
    pub fn make(
        white_point: (Fixed, Fixed, Fixed),
        adapting_luminance: Fixed,
        background_lstar: Fixed,
        surround: Fixed,
        discounting_illuminant: bool,
    ) -> (out: ViewingConditions)
        ensures
            out == Self::spec_make(white_point, adapting_luminance, background_lstar, surround, discounting_illuminant),
    {
        proof {
            reveal(ViewingConditions::spec_make);
        }
        let background = background_lstar.max(fx(MIN_BACKGROUND));
        let white = matrix_multiply(white_point, XYZ_TO_CAM16RGB);
        let f = fx(SURROUND_DARK).plus(surround.over_int(10));
        let c = if f.ge(fx(SURROUND_DIM)) {
            lerp(fx(C_DIM), fx(C_AVERAGE), f.minus(fx(SURROUND_DIM)).times_int(10))
        } else {
            lerp(fx(C_DARK), fx(C_DIM), f.minus(fx(SURROUND_DARK)).times_int(10))
        };
        let d = degree_of_adaptation(f, adapting_luminance, discounting_illuminant);
        let one_less_d = Fixed::from_int(1).minus(d);
        let rgb_d = (
            d.times(Fixed::from_int(100).over(white.0)).plus(one_less_d),
            d.times(Fixed::from_int(100).over(white.1)).plus(one_less_d),
            d.times(Fixed::from_int(100).over(white.2)).plus(one_less_d),
        );
        let fl = luminance_adaptation(adapting_luminance);
        let n = y_from_lstar(background).over(white_point.1);
        let z = fx(Z_BASE).plus(n.sqrt());
        let nbb = fx(NBB_FACTOR).over(n.pow(fx(ONE_FIFTH)));
        let r_a = compressed_response(
            fl.times(rgb_d.0).times(white.0).over_int(100).pow(fx(RESPONSE_EXPONENT)),
        );
        let g_a = compressed_response(
            fl.times(rgb_d.1).times(white.1).over_int(100).pow(fx(RESPONSE_EXPONENT)),
        );
        let b_a = compressed_response(
            fl.times(rgb_d.2).times(white.2).over_int(100).pow(fx(RESPONSE_EXPONENT)),
        );
        let aw = r_a.times_int(2).plus(g_a).plus(fx(BLUE_WEIGHT).times(b_a)).times(nbb);
        ViewingConditions {
            aw,
            nbb,
            ncb: nbb,
            c,
            nc: f,
            n,
            rgb_d,
            fl,
            fl_root: fl.pow(fx(ONE_QUARTER)),
            z,
        }
    }

    /// The viewing conditions of sRGB, with a background of the given
    /// lightness: an average surround, and an adapting luminance of
    /// `200 / pi` of the luminance of L* 50.
    #[verifier::opaque]
    pub open spec fn spec_default_with_background_lstar(lstar: Fixed) -> ViewingConditions {
        Self::make(
            white_point_d65(),
            Fixed::from_int(200).over(fx(PI_FIXED)).times(y_from_lstar(Fixed::from_int(50)))
                .over_int(100),
            lstar,
            Fixed::from_int(2),
            false,
        )
    }

    #[verifier::when_used_as_spec(spec_default_with_background_lstar)]
    pub fn default_with_background_lstar(lstar: Fixed) -> (out: ViewingConditions)
        ensures
            out == Self::spec_default_with_background_lstar(lstar),
    {
        proof {
            reveal(ViewingConditions::spec_default_with_background_lstar);
        }
        Self::make(
            white_point_d65(),
            Fixed::from_int(200).over(fx(PI_FIXED)).times(y_from_lstar(Fixed::from_int(50)))
                .over_int(100),
            lstar,
            Fixed::from_int(2),
            false,
        )
    }

    /// The viewing conditions of sRGB, with a background of L* 50.
    pub open spec fn spec_standard() -> ViewingConditions {
        Self::default_with_background_lstar(Fixed::from_int(50))
    }

    #[verifier::when_used_as_spec(spec_standard)]
    pub fn standard() -> (out: ViewingConditions)
        ensures
            out == Self::spec_standard(),
    {
        Self::default_with_background_lstar(Fixed::from_int(50))
    }

    /// The achromatic response to the white point.
    pub fn aw(&self) -> (out: Fixed)
        ensures
            out == self.aw,
    {
        self.aw
    }

    /// The brightness induction factor of the background.
    pub fn nbb(&self) -> (out: Fixed)
        ensures
            out == self.nbb,
    {
        self.nbb
    }

    /// The chromatic induction factor of the background.
    pub fn ncb(&self) -> (out: Fixed)
        ensures
            out == self.ncb,
    {
        self.ncb
    }

    /// The exponential non-linearity of the surround.
    pub fn c(&self) -> (out: Fixed)
        ensures
            out == self.c,
    {
        self.c
    }

    /// The chromatic induction factor of the surround.
    pub fn nc(&self) -> (out: Fixed)
        ensures
            out == self.nc,
    {
        self.nc
    }

    /// The luminance of the background relative to the white point.
    pub fn n(&self) -> (out: Fixed)
        ensures
            out == self.n,
    {
        self.n
    }

    /// The discounting factors of the three cone responses.
    pub fn rgb_d(&self) -> (out: (Fixed, Fixed, Fixed))
        ensures
            out == self.rgb_d,
    {
        self.rgb_d
    }

    /// The luminance-level adaptation factor.
    pub fn fl(&self) -> (out: Fixed)
        ensures
            out == self.fl,
    {
        self.fl
    }

    /// The fourth root of the luminance-level adaptation factor.
    pub fn fl_root(&self) -> (out: Fixed)
        ensures
            out == self.fl_root,
    {
        self.fl_root
    }

    /// The base exponential non-linearity.
    pub fn z(&self) -> (out: Fixed)
        ensures
            out == self.z,
    {
        self.z
    }
}

impl Default for ViewingConditions {
    /// The viewing conditions of sRGB.
    fn default() -> (out: Self)
        ensures
            out == ViewingConditions::standard(),
    {
        ViewingConditions::standard()
    }
}

} // verus!
