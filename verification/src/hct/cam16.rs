//! CAM16, a colour appearance model: how a colour looks under given
//! viewing conditions.
use vstd::prelude::*;
use crate::fixed::{fx, Fixed};
use crate::hct::viewing_conditions::{
    ViewingConditions, ONE_QUARTER, RESPONSE_EXPONENT, RESPONSE_OFFSET, XYZ_TO_CAM16RGB,
};
use crate::utils::color::{argb_from_xyz, is_opaque, xyz_from_argb};
use crate::utils::math::{matrix_multiply, Matrix};

verus! {

/// The cone responses of CAM16 to XYZ coordinates.
pub const CAM16RGB_TO_XYZ: Matrix = (
    (1_862_067_800_000, -1_011_254_700_000, 149_186_780_000),
    (387_526_540_000, 621_447_440_000, -8_973_980_000),
    (-15_841_500_000, -34_122_940_000, 1_049_964_400_000),
);

/// 20.14 degrees: hues below it count as a turn further on.
pub const HUE_WRAP: i128 = 20_140_000_000_000;

/// 3.8.
pub const ECCENTRICITY_OFFSET: i128 = 3_800_000_000_000;

/// 50000 / 13.
pub const HUE_FACTOR_SCALE: i128 = 3_846_153_846_153_846;

/// 0.305.
pub const T_OFFSET: i128 = 305_000_000_000;

/// 1.64.
pub const ALPHA_BASE: i128 = 1_640_000_000_000;

/// 0.29.
pub const ALPHA_ROOT: i128 = 290_000_000_000;

/// 0.73.
pub const ALPHA_EXPONENT: i128 = 730_000_000_000;

/// 0.9.
pub const T_EXPONENT: i128 = 900_000_000_000;

/// 1 / 0.9.
pub const INVERSE_T_EXPONENT: i128 = 1_111_111_111_111;

/// 1 / 0.42.
pub const INVERSE_RESPONSE_EXPONENT: i128 = 2_380_952_380_952;

/// 1.7, that is 1 + 100 * 0.007.
pub const JSTAR_GAIN: i128 = 1_700_000_000_000;

/// 0.007.
pub const JSTAR_SLOPE: i128 = 7_000_000_000;

/// 0.0228.
pub const MSTAR_SLOPE: i128 = 22_800_000_000;

/// 1 / 0.0228.
pub const INVERSE_MSTAR_SLOPE: i128 = 43_859_649_122_807;

/// 1.41.
pub const DISTANCE_GAIN: i128 = 1_410_000_000_000;

/// 0.63.
pub const DISTANCE_EXPONENT: i128 = 630_000_000_000;

/// A colour in CAM16: its six appearance correlates, and its coordinates
/// in the uniform space CAM16-UCS.
#[derive(Clone, Copy, Debug, PartialEq, Eq, Structural)]
pub struct Cam16 {
    pub hue: Fixed,
    pub chroma: Fixed,
    pub j: Fixed,
    pub q: Fixed,
    pub m: Fixed,
    pub s: Fixed,
    pub jstar: Fixed,
    pub astar: Fixed,
    pub bstar: Fixed,
}

/// The adapted cone response to a discounted stimulus: the power law with
/// exponent 0.42 on its magnitude, compressed, with its sign.
#[verifier::opaque]
pub open spec fn adapted_response_spec(stimulus: Fixed, fl: Fixed) -> Fixed {
    let factor = fl.times(stimulus.abs()).over_int(100).pow(fx(RESPONSE_EXPONENT));
    factor.times_int(400).over(factor.plus(fx(RESPONSE_OFFSET))).with_sign_of(stimulus)
}

#[verifier::when_used_as_spec(adapted_response_spec)]
pub fn adapted_response(stimulus: Fixed, fl: Fixed) -> (out: Fixed)
    ensures
        out == adapted_response_spec(stimulus, fl),
{
    proof {
        reveal(adapted_response_spec);
    }
    let factor = fl.times(stimulus.abs()).over_int(100).pow(fx(RESPONSE_EXPONENT));
    factor.times_int(400).over(factor.plus(fx(RESPONSE_OFFSET))).with_sign_of(stimulus)
}

/// The stimulus, divided by `100 / fl`, that has the adapted response
/// `adapted`: the inverse of the compression, then of the power law.
#[verifier::opaque]
pub open spec fn inverse_adapted_response_spec(adapted: Fixed) -> Fixed {
    let magnitude = adapted.abs();
    let base = fx(RESPONSE_OFFSET).times(magnitude).over(Fixed::from_int(400).minus(magnitude))
        .max(Fixed::from_int(0));
    base.pow(fx(INVERSE_RESPONSE_EXPONENT)).with_sign_of(adapted)
}

#[verifier::when_used_as_spec(inverse_adapted_response_spec)]
pub fn inverse_adapted_response(adapted: Fixed) -> (out: Fixed)
    ensures
        out == inverse_adapted_response_spec(adapted),
{
    proof {
        reveal(inverse_adapted_response_spec);
    }
    let magnitude = adapted.abs();
    let base = fx(RESPONSE_OFFSET).times(magnitude).over(Fixed::from_int(400).minus(magnitude))
        .max(Fixed::from_int(0));
    base.pow(fx(INVERSE_RESPONSE_EXPONENT)).with_sign_of(adapted)
}

/// The eccentricity factor of a hue given in radians.
#[verifier::opaque]
pub open spec fn eccentricity_spec(hue_radians: Fixed) -> Fixed {
    fx(ONE_QUARTER).times(hue_radians.plus(Fixed::from_int(2)).cos().plus(fx(ECCENTRICITY_OFFSET)))
}

#[verifier::when_used_as_spec(eccentricity_spec)]
pub fn eccentricity(hue_radians: Fixed) -> (out: Fixed)
    ensures
        out == eccentricity_spec(hue_radians),
{
    proof {
        reveal(eccentricity_spec);
    }
    fx(ONE_QUARTER).times(hue_radians.plus(Fixed::from_int(2)).cos().plus(fx(ECCENTRICITY_OFFSET)))
}

/// The factor `(1.64 - 0.29^n)^0.73` that relates chroma to the
/// temporary magnitude `t`.
#[verifier::opaque]
pub open spec fn chroma_factor_spec(n: Fixed) -> Fixed {
    fx(ALPHA_BASE).minus(fx(ALPHA_ROOT).pow(n)).pow(fx(ALPHA_EXPONENT))
}

#[verifier::when_used_as_spec(chroma_factor_spec)]
pub fn chroma_factor(n: Fixed) -> (out: Fixed)
    ensures
        out == chroma_factor_spec(n),
{
    proof {
        reveal(chroma_factor_spec);
    }
    fx(ALPHA_BASE).minus(fx(ALPHA_ROOT).pow(n)).pow(fx(ALPHA_EXPONENT))
}

/// An angle in degrees brought into `[0, 360)` from `(-360, 720)`.
pub open spec fn wrap_hue_spec(degrees: Fixed) -> Fixed {
    if degrees.lt(Fixed::from_int(0)) {
        degrees.plus(Fixed::from_int(360))
    } else if degrees.ge(Fixed::from_int(360)) {
        degrees.minus(Fixed::from_int(360))
    } else {
        degrees
    }
}

#[verifier::when_used_as_spec(wrap_hue_spec)]
pub fn wrap_hue(degrees: Fixed) -> (out: Fixed)
    ensures
        out == wrap_hue_spec(degrees),
{
    if degrees.lt(Fixed::from_int(0)) {
        degrees.plus(Fixed::from_int(360))
    } else if degrees.ge(Fixed::from_int(360)) {
        degrees.minus(Fixed::from_int(360))
    } else {
        degrees
    }
}

impl Cam16 {
    /// The colour with lightness `j`, chroma `c` and hue `h` under the
    /// given viewing conditions.
    #[verifier::opaque]
    pub open spec fn spec_from_jch_in_viewing_conditions(
        j: Fixed,
        c: Fixed,
        h: Fixed,
        viewing_conditions: &ViewingConditions,
    ) -> Cam16 {
        let root_j = j.over_int(100).sqrt();
        let q = Fixed::from_int(4).over(viewing_conditions.c).times(root_j).times(
            viewing_conditions.aw.plus(Fixed::from_int(4)),
        ).times(viewing_conditions.fl_root);
        let m = c.times(viewing_conditions.fl_root);
        let alpha = c.over(root_j);
        let s = alpha.times(viewing_conditions.c).over(
            viewing_conditions.aw.plus(Fixed::from_int(4)),
        ).sqrt().times_int(50);
        let hue_radians = h.to_radians();
        let jstar = fx(JSTAR_GAIN).times(j).over(Fixed::from_int(1).plus(fx(JSTAR_SLOPE).times(j)));
        let mstar = fx(INVERSE_MSTAR_SLOPE).times(fx(MSTAR_SLOPE).times(m).ln_1p());
        Cam16 {
            hue: h,
            chroma: c,
            j,
            q,
            m,
            s,
            jstar,
            astar: mstar.times(hue_radians.cos()),
            bstar: mstar.times(hue_radians.sin()),
        }
    }

    #[verifier::when_used_as_spec(spec_from_jch_in_viewing_conditions)]
    pub fn from_jch_in_viewing_conditions(
        j: Fixed,
        c: Fixed,
        h: Fixed,
        viewing_conditions: &ViewingConditions,
    ) -> (out: Cam16)
        ensures
            out == Self::spec_from_jch_in_viewing_conditions(j, c, h, viewing_conditions),
    {
        proof {
            reveal(Cam16::spec_from_jch_in_viewing_conditions);
        }
        let root_j = j.over_int(100).sqrt();
        let q = Fixed::from_int(4).over(viewing_conditions.c).times(root_j).times(
            viewing_conditions.aw.plus(Fixed::from_int(4)),
        ).times(viewing_conditions.fl_root);
        let m = c.times(viewing_conditions.fl_root);
        let alpha = c.over(root_j);
        let s = alpha.times(viewing_conditions.c).over(
            viewing_conditions.aw.plus(Fixed::from_int(4)),
        ).sqrt().times_int(50);
        let hue_radians = h.to_radians();
        let jstar = fx(JSTAR_GAIN).times(j).over(Fixed::from_int(1).plus(fx(JSTAR_SLOPE).times(j)));
        let mstar = fx(INVERSE_MSTAR_SLOPE).times(fx(MSTAR_SLOPE).times(m).ln_1p());
        Cam16 {
            hue: h,
            chroma: c,
            j,
            q,
            m,
            s,
            jstar,
            astar: mstar.times(hue_radians.cos()),
            bstar: mstar.times(hue_radians.sin()),
        }
    }

    /// The colour with lightness `j`, chroma `c` and hue `h` under the
    /// standard viewing conditions.
    #[verifier::opaque]
    pub open spec fn spec_from_jch(j: Fixed, c: Fixed, h: Fixed) -> Cam16 {
        Self::from_jch_in_viewing_conditions(j, c, h, &ViewingConditions::standard())
    }

    #[verifier::when_used_as_spec(spec_from_jch)]
    pub fn from_jch(j: Fixed, c: Fixed, h: Fixed) -> (out: Cam16)
        ensures
            out == Self::spec_from_jch(j, c, h),
    {
        proof {
            reveal(Cam16::spec_from_jch);
        }
        Self::from_jch_in_viewing_conditions(j, c, h, &ViewingConditions::standard())
    }

    /// The colour at the point `(x, y, z)` of XYZ under the given viewing
    /// conditions.
    #[verifier::opaque]
    pub open spec fn spec_from_xyz_in_viewing_conditions(
        x: Fixed,
        y: Fixed,
        z: Fixed,
        viewing_conditions: &ViewingConditions,
    ) -> Cam16 {
        let cone = matrix_multiply((x, y, z), XYZ_TO_CAM16RGB);
        let r_a = adapted_response(viewing_conditions.rgb_d.0.times(cone.0), viewing_conditions.fl);
        let g_a = adapted_response(viewing_conditions.rgb_d.1.times(cone.1), viewing_conditions.fl);
        let b_a = adapted_response(viewing_conditions.rgb_d.2.times(cone.2), viewing_conditions.fl);
        let a = r_a.times_int(11).minus(g_a.times_int(12)).plus(b_a).over_int(11);
        let b = r_a.plus(g_a).minus(b_a.times_int(2)).over_int(9);
        let u = r_a.times_int(20).plus(g_a.times_int(20)).plus(b_a.times_int(21)).over_int(20);
        let lightness_term = r_a.times_int(40).plus(g_a.times_int(20)).plus(b_a).over_int(20);
        let hue = wrap_hue(b.atan2(a).to_degrees());
        let hue_radians = hue.to_radians();
        let ac = lightness_term.times(viewing_conditions.nbb);
        let j = ac.over(viewing_conditions.aw).pow(viewing_conditions.c.times(viewing_conditions.z))
            .times_int(100);
        let root_j = j.over_int(100).sqrt();
        let q = Fixed::from_int(4).over(viewing_conditions.c).times(root_j).times(
            viewing_conditions.aw.plus(Fixed::from_int(4)),
        ).times(viewing_conditions.fl_root);
        let hue_prime = if hue.lt(fx(HUE_WRAP)) {
            hue.plus(Fixed::from_int(360))
        } else {
            hue
        };
        let hue_factor = fx(HUE_FACTOR_SCALE).times(eccentricity(hue_prime.to_radians())).times(
            viewing_conditions.nc,
        ).times(viewing_conditions.ncb);
        let t = hue_factor.times(a.hypot(b)).over(u.plus(fx(T_OFFSET)));
        let alpha = chroma_factor(viewing_conditions.n).times(t.pow(fx(T_EXPONENT)));
        let c = alpha.times(root_j);
        let m = c.times(viewing_conditions.fl_root);
        let s = alpha.times(viewing_conditions.c).over(
            viewing_conditions.aw.plus(Fixed::from_int(4)),
        ).sqrt().times_int(50);
        let jstar = fx(JSTAR_GAIN).times(j).over(Fixed::from_int(1).plus(fx(JSTAR_SLOPE).times(j)));
        let mstar = fx(INVERSE_MSTAR_SLOPE).times(fx(MSTAR_SLOPE).times(m).ln_1p());
        Cam16 {
            hue,
            chroma: c,
            j,
            q,
            m,
            s,
            jstar,
            astar: mstar.times(hue_radians.cos()),
            bstar: mstar.times(hue_radians.sin()),
        }
    }

    #[verifier::when_used_as_spec(spec_from_xyz_in_viewing_conditions)]
    pub fn from_xyz_in_viewing_conditions(
        x: Fixed,
        y: Fixed,
        z: Fixed,
        viewing_conditions: &ViewingConditions,
    ) -> (out: Cam16)
        ensures
            out == Self::spec_from_xyz_in_viewing_conditions(x, y, z, viewing_conditions),
    {
        proof {
            reveal(Cam16::spec_from_xyz_in_viewing_conditions);
        }
        let cone = matrix_multiply((x, y, z), XYZ_TO_CAM16RGB);
        let r_a = adapted_response(viewing_conditions.rgb_d.0.times(cone.0), viewing_conditions.fl);
        let g_a = adapted_response(viewing_conditions.rgb_d.1.times(cone.1), viewing_conditions.fl);
        let b_a = adapted_response(viewing_conditions.rgb_d.2.times(cone.2), viewing_conditions.fl);
        let a = r_a.times_int(11).minus(g_a.times_int(12)).plus(b_a).over_int(11);
        let b = r_a.plus(g_a).minus(b_a.times_int(2)).over_int(9);
        let u = r_a.times_int(20).plus(g_a.times_int(20)).plus(b_a.times_int(21)).over_int(20);
        let lightness_term = r_a.times_int(40).plus(g_a.times_int(20)).plus(b_a).over_int(20);
        let hue = wrap_hue(b.atan2(a).to_degrees());
        let hue_radians = hue.to_radians();
        let ac = lightness_term.times(viewing_conditions.nbb);
        let j = ac.over(viewing_conditions.aw).pow(viewing_conditions.c.times(viewing_conditions.z))
            .times_int(100);
        let root_j = j.over_int(100).sqrt();
        let q = Fixed::from_int(4).over(viewing_conditions.c).times(root_j).times(
            viewing_conditions.aw.plus(Fixed::from_int(4)),
        ).times(viewing_conditions.fl_root);
        let hue_prime = if hue.lt(fx(HUE_WRAP)) {
            hue.plus(Fixed::from_int(360))
        } else {
            hue
        };
        let hue_factor = fx(HUE_FACTOR_SCALE).times(eccentricity(hue_prime.to_radians())).times(
            viewing_conditions.nc,
        ).times(viewing_conditions.ncb);
        let t = hue_factor.times(a.hypot(b)).over(u.plus(fx(T_OFFSET)));
        let alpha = chroma_factor(viewing_conditions.n).times(t.pow(fx(T_EXPONENT)));
        let c = alpha.times(root_j);
        let m = c.times(viewing_conditions.fl_root);
        let s = alpha.times(viewing_conditions.c).over(
            viewing_conditions.aw.plus(Fixed::from_int(4)),
        ).sqrt().times_int(50);
        let jstar = fx(JSTAR_GAIN).times(j).over(Fixed::from_int(1).plus(fx(JSTAR_SLOPE).times(j)));
        let mstar = fx(INVERSE_MSTAR_SLOPE).times(fx(MSTAR_SLOPE).times(m).ln_1p());
        Cam16 {
            hue,
            chroma: c,
            j,
            q,
            m,
            s,
            jstar,
            astar: mstar.times(hue_radians.cos()),
            bstar: mstar.times(hue_radians.sin()),
        }
    }

    /// The colour `argb` seen under the given viewing conditions.
    #[verifier::opaque]
    pub open spec fn spec_from_int_in_viewing_conditions(
        argb: u32,
        viewing_conditions: &ViewingConditions,
    ) -> Cam16 {
        let xyz = xyz_from_argb(argb);
        Self::from_xyz_in_viewing_conditions(xyz.0, xyz.1, xyz.2, viewing_conditions)
    }

    #[verifier::when_used_as_spec(spec_from_int_in_viewing_conditions)]
    pub fn from_int_in_viewing_conditions(
        argb: u32,
        viewing_conditions: &ViewingConditions,
    ) -> (out: Cam16)
        ensures
            out == Self::spec_from_int_in_viewing_conditions(argb, viewing_conditions),
    {
        proof {
            reveal(Cam16::spec_from_int_in_viewing_conditions);
        }
        let xyz = xyz_from_argb(argb);
        Self::from_xyz_in_viewing_conditions(xyz.0, xyz.1, xyz.2, viewing_conditions)
    }

    /// The colour `argb` seen under the standard viewing conditions.
    #[verifier::opaque]
    pub open spec fn spec_from_int(argb: u32) -> Cam16 {
        Self::from_int_in_viewing_conditions(argb, &ViewingConditions::standard())
    }

    #[verifier::when_used_as_spec(spec_from_int)]
    pub fn from_int(argb: u32) -> (out: Cam16)
        ensures
            out == Self::spec_from_int(argb),
    {
        proof {
            reveal(Cam16::spec_from_int);
        }
        Self::from_int_in_viewing_conditions(argb, &ViewingConditions::standard())
    }

    /// The colour at the point `(jstar, astar, bstar)` of CAM16-UCS under
    /// the given viewing conditions.
    #[verifier::opaque]
    pub open spec fn spec_from_ucs_in_viewing_conditions(
        jstar: Fixed,
        astar: Fixed,
        bstar: Fixed,
        viewing_conditions: &ViewingConditions,
    ) -> Cam16 {
        let m = astar.hypot(bstar);
        let m2 = m.times(fx(MSTAR_SLOPE)).exp_m1().over(fx(MSTAR_SLOPE));
        let c = m2.over(viewing_conditions.fl_root);
        let angle = bstar.atan2(astar).to_degrees();
        let h = if angle.lt(Fixed::from_int(0)) {
            angle.plus(Fixed::from_int(360))
        } else {
            angle
        };
        let j = jstar.over(
            Fixed::from_int(1).minus(jstar.minus(Fixed::from_int(100)).times(fx(JSTAR_SLOPE))),
        );
        Self::from_jch_in_viewing_conditions(j, c, h, viewing_conditions)
    }

    #[verifier::when_used_as_spec(spec_from_ucs_in_viewing_conditions)]
    pub fn from_ucs_in_viewing_conditions(
        jstar: Fixed,
        astar: Fixed,
        bstar: Fixed,
        viewing_conditions: &ViewingConditions,
    ) -> (out: Cam16)
        ensures
            out == Self::spec_from_ucs_in_viewing_conditions(jstar, astar, bstar, viewing_conditions),
    {
        proof {
            reveal(Cam16::spec_from_ucs_in_viewing_conditions);
        }
        let m = astar.hypot(bstar);
        let m2 = m.times(fx(MSTAR_SLOPE)).exp_m1().over(fx(MSTAR_SLOPE));
        let c = m2.over(viewing_conditions.fl_root);
        let angle = bstar.atan2(astar).to_degrees();
        let h = if angle.lt(Fixed::from_int(0)) {
            angle.plus(Fixed::from_int(360))
        } else {
            angle
        };
        let j = jstar.over(
            Fixed::from_int(1).minus(jstar.minus(Fixed::from_int(100)).times(fx(JSTAR_SLOPE))),
        );
        Self::from_jch_in_viewing_conditions(j, c, h, viewing_conditions)
    }

    /// The colour at the point `(jstar, astar, bstar)` of CAM16-UCS under
    /// the standard viewing conditions.
    #[verifier::opaque]
    pub open spec fn spec_from_ucs(jstar: Fixed, astar: Fixed, bstar: Fixed) -> Cam16 {
        Self::from_ucs_in_viewing_conditions(jstar, astar, bstar, &ViewingConditions::standard())
    }

    #[verifier::when_used_as_spec(spec_from_ucs)]
    pub fn from_ucs(jstar: Fixed, astar: Fixed, bstar: Fixed) -> (out: Cam16)
        ensures
            out == Self::spec_from_ucs(jstar, astar, bstar),
    {
        proof {
            reveal(Cam16::spec_from_ucs);
        }
        Self::from_ucs_in_viewing_conditions(jstar, astar, bstar, &ViewingConditions::standard())
    }

    /// Hue, in degrees.
    pub fn hue(&self) -> (out: Fixed)
        ensures
            out == self.hue,
    {
        self.hue
    }

    /// Chroma: colourfulness relative to white.
    pub fn chroma(&self) -> (out: Fixed)
        ensures
            out == self.chroma,
    {
        self.chroma
    }

    /// Lightness.
    pub fn j(&self) -> (out: Fixed)
        ensures
            out == self.j,
    {
        self.j
    }

    /// Brightness, the absolute counterpart of lightness.
    pub fn q(&self) -> (out: Fixed)
        ensures
            out == self.q,
    {
        self.q
    }

    /// Colourfulness, the absolute counterpart of chroma.
    pub fn m(&self) -> (out: Fixed)
        ensures
            out == self.m,
    {
        self.m
    }

    /// Saturation: colourfulness in proportion to brightness.
    pub fn s(&self) -> (out: Fixed)
        ensures
            out == self.s,
    {
        self.s
    }

    /// The lightness coordinate of CAM16-UCS.
    pub fn jstar(&self) -> (out: Fixed)
        ensures
            out == self.jstar,
    {
        self.jstar
    }

    /// The red-green coordinate of CAM16-UCS.
    pub fn astar(&self) -> (out: Fixed)
        ensures
            out == self.astar,
    {
        self.astar
    }

    /// The yellow-blue coordinate of CAM16-UCS.
    pub fn bstar(&self) -> (out: Fixed)
        ensures
            out == self.bstar,
    {
        self.bstar
    }

    /// The perceived difference of two colours: `1.41 * d^0.63`, where `d`
    /// is their distance in CAM16-UCS.
    #[verifier::opaque]
    pub open spec fn spec_distance(&self, other: &Cam16) -> Fixed {
        let d_j = self.jstar.minus(other.jstar);
        let d_a = self.astar.minus(other.astar);
        let d_b = self.bstar.minus(other.bstar);
        let d_e_prime = d_j.times(d_j).plus(d_a.times(d_a)).plus(d_b.times(d_b)).sqrt();
        fx(DISTANCE_GAIN).times(d_e_prime.pow(fx(DISTANCE_EXPONENT)))
    }

    #[verifier::when_used_as_spec(spec_distance)]
    pub fn distance(&self, other: &Cam16) -> (out: Fixed)
        ensures
            out == self.spec_distance(other),
    {
        proof {
            reveal(Cam16::spec_distance);
        }
        let d_j = self.jstar.minus(other.jstar);
        let d_a = self.astar.minus(other.astar);
        let d_b = self.bstar.minus(other.bstar);
        let d_e_prime = d_j.times(d_j).plus(d_a.times(d_a)).plus(d_b.times(d_b)).sqrt();
        fx(DISTANCE_GAIN).times(d_e_prime.pow(fx(DISTANCE_EXPONENT)))
    }

    /// The point of XYZ at which this colour is seen under the given
    /// viewing conditions.
    #[verifier::opaque]
    pub open spec fn spec_xyz_in_viewing_conditions(
        &self,
        viewing_conditions: &ViewingConditions,
    ) -> (Fixed, Fixed, Fixed) {
        let alpha = if self.chroma.raw == 0 || self.j.raw == 0 {
            Fixed::from_int(0)
        } else {
            self.chroma.over(self.j.over_int(100).sqrt())
        };
        let t = alpha.over(chroma_factor(viewing_conditions.n)).pow(fx(INVERSE_T_EXPONENT));
        let h_rad = self.hue.to_radians();
        let ac = viewing_conditions.aw.times(
            self.j.over_int(100).pow(
                Fixed::from_int(1).over(viewing_conditions.c).over(viewing_conditions.z),
            ),
        );
        let hue_factor = eccentricity(h_rad).times(fx(HUE_FACTOR_SCALE)).times(viewing_conditions.nc).times(
            viewing_conditions.ncb,
        );
        let lightness_term = ac.over(viewing_conditions.nbb);
        let h_sin = h_rad.sin();
        let h_cos = h_rad.cos();
        let gamma = lightness_term.plus(fx(T_OFFSET)).times_int(23).times(t).over(
            hue_factor.times_int(23).plus(t.times_int(11).times(h_cos)).plus(t.times_int(108).times(h_sin)),
        );
        let a = gamma.times(h_cos);
        let b = gamma.times(h_sin);
        let r_a = lightness_term.times_int(460).plus(a.times_int(451)).plus(b.times_int(288)).over_int(1403);
        let g_a = lightness_term.times_int(460).minus(a.times_int(891)).minus(b.times_int(261)).over_int(1403);
        let b_a = lightness_term.times_int(460).minus(a.times_int(220)).minus(b.times_int(6300)).over_int(1403);
        let scale = Fixed::from_int(100).over(viewing_conditions.fl);
        let r_f = scale.times(inverse_adapted_response(r_a)).over(viewing_conditions.rgb_d.0);
        let g_f = scale.times(inverse_adapted_response(g_a)).over(viewing_conditions.rgb_d.1);
        let b_f = scale.times(inverse_adapted_response(b_a)).over(viewing_conditions.rgb_d.2);
        matrix_multiply((r_f, g_f, b_f), CAM16RGB_TO_XYZ)
    }

    #[verifier::when_used_as_spec(spec_xyz_in_viewing_conditions)]
    pub fn xyz_in_viewing_conditions(
        &self,
        viewing_conditions: &ViewingConditions,
    ) -> (out: (Fixed, Fixed, Fixed))
        ensures
            out == self.spec_xyz_in_viewing_conditions(viewing_conditions),
    {
        proof {
            reveal(Cam16::spec_xyz_in_viewing_conditions);
        }
        let alpha = if self.chroma.raw == 0 || self.j.raw == 0 {
            Fixed::from_int(0)
        } else {
            self.chroma.over(self.j.over_int(100).sqrt())
        };
        let t = alpha.over(chroma_factor(viewing_conditions.n)).pow(fx(INVERSE_T_EXPONENT));
        let h_rad = self.hue.to_radians();
        let ac = viewing_conditions.aw.times(
            self.j.over_int(100).pow(
                Fixed::from_int(1).over(viewing_conditions.c).over(viewing_conditions.z),
            ),
        );
        let hue_factor = eccentricity(h_rad).times(fx(HUE_FACTOR_SCALE)).times(viewing_conditions.nc).times(
            viewing_conditions.ncb,
        );
        let lightness_term = ac.over(viewing_conditions.nbb);
        let h_sin = h_rad.sin();
        let h_cos = h_rad.cos();
        let gamma = lightness_term.plus(fx(T_OFFSET)).times_int(23).times(t).over(
            hue_factor.times_int(23).plus(t.times_int(11).times(h_cos)).plus(t.times_int(108).times(h_sin)),
        );
        let a = gamma.times(h_cos);
        let b = gamma.times(h_sin);
        let r_a = lightness_term.times_int(460).plus(a.times_int(451)).plus(b.times_int(288)).over_int(1403);
        let g_a = lightness_term.times_int(460).minus(a.times_int(891)).minus(b.times_int(261)).over_int(1403);
        let b_a = lightness_term.times_int(460).minus(a.times_int(220)).minus(b.times_int(6300)).over_int(1403);
        let scale = Fixed::from_int(100).over(viewing_conditions.fl);
        let r_f = scale.times(inverse_adapted_response(r_a)).over(viewing_conditions.rgb_d.0);
        let g_f = scale.times(inverse_adapted_response(g_a)).over(viewing_conditions.rgb_d.1);
        let b_f = scale.times(inverse_adapted_response(b_a)).over(viewing_conditions.rgb_d.2);
        matrix_multiply((r_f, g_f, b_f), CAM16RGB_TO_XYZ)
    }

    /// The sRGB colour nearest to this one when seen under the given
    /// viewing conditions.
    #[verifier::opaque]
    pub open spec fn spec_viewed(&self, viewing_conditions: &ViewingConditions) -> u32 {
        let xyz = self.xyz_in_viewing_conditions(viewing_conditions);
        argb_from_xyz(xyz.0, xyz.1, xyz.2)
    }

    #[verifier::when_used_as_spec(spec_viewed)]
    pub fn viewed(&self, viewing_conditions: &ViewingConditions) -> (argb: u32)
        ensures
            argb == self.spec_viewed(viewing_conditions),
            is_opaque(argb),
    {
        proof {
            reveal(Cam16::spec_viewed);
        }
        let xyz = self.xyz_in_viewing_conditions(viewing_conditions);
        argb_from_xyz(xyz.0, xyz.1, xyz.2)
    }

    /// The sRGB colour nearest to this one under the standard viewing
    /// conditions.
    #[verifier::opaque]
    pub open spec fn spec_to_int(&self) -> u32 {
        self.viewed(&ViewingConditions::standard())
    }

    #[verifier::when_used_as_spec(spec_to_int)]
    pub fn to_int(&self) -> (argb: u32)
        ensures
            argb == self.spec_to_int(),
            is_opaque(argb),
    {
        proof {
            reveal(Cam16::spec_to_int);
        }
        self.viewed(&ViewingConditions::standard())
    }
}

} // verus!
