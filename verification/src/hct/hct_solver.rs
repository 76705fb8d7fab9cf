//! The solver of HCT: the sRGB colour with a given hue, chroma and tone, or
//! the colour of that hue and tone with the most chroma that sRGB can show.
//!
//! A colour inside the gamut is found by Newton's method on the CAM16
//! lightness. Outside it, the answer lies on the surface of the RGB cube:
//! the plane of constant luminance cuts the cube in a polygon, and the
//! solver bisects along that polygon for the wanted hue.
use vstd::prelude::*;
use crate::fixed::arith::{div_floor, sat_add, sat_mul, sat_sub};
use crate::fixed::{fx, Fixed, HALF, MINUS_ONE, SCALE};
use crate::hct::cam16::{
    chroma_factor, eccentricity, inverse_adapted_response, Cam16, INVERSE_T_EXPONENT, HUE_FACTOR_SCALE,
    T_OFFSET,
};
use crate::hct::viewing_conditions::{ViewingConditions, RESPONSE_EXPONENT, RESPONSE_OFFSET};
use crate::utils::color::{
    argb_from_linrgb, argb_from_lstar, is_opaque, true_delinearized, y_from_lstar, GAMMA,
    GAMMA_GAIN, GAMMA_KNEE, GAMMA_OFFSET, LINEAR_SLOPE,
};
use crate::utils::math::{matrix_multiply, sanitize_degrees, weighted_sum, Matrix};

verus! {

/// Linear RGB to the cone responses of CAM16, discounted for the standard
/// viewing conditions and scaled for the power law.
pub const SCALED_DISCOUNT_FROM_LINRGB: Matrix = (
    (1_200_833_568, 2_389_694_492, 279_574_288),
    (589_108_665, 2_978_550_257, 327_066_610),
    (101_466_924, 536_421_435, 3_297_940_177),
);

/// The inverse of `SCALED_DISCOUNT_FROM_LINRGB`.
pub const LINRGB_FROM_SCALED_DISCOUNT: Matrix = (
    (1_373_219_870_959_423, -1_100_425_119_075_482, -7_278_681_089_101),
    (-271_815_969_077_903, 559_658_046_594_073, -32_460_474_827_911),
    (1_962_289_959_966, -57_173_814_538_844, 308_723_319_781_238),
);

/// The weight of linear red in the luminance Y.
pub const Y_FROM_RED: i128 = 212_600_000_000;

/// The weight of linear green in the luminance Y.
pub const Y_FROM_GREEN: i128 = 715_200_000_000;

/// The weight of linear blue in the luminance Y.
pub const Y_FROM_BLUE: i128 = 72_200_000_000;

/// A full turn in radians.
pub const TWO_PI: i128 = 6_283_185_307_179;

/// Four full turns in radians.
pub const EIGHT_PI: i128 = 25_132_741_228_716;

/// 0.0001: chroma below it is grey, tone below it is black.
pub const NEAR_ZERO: i128 = 100_000_000;

/// 99.9999: tone above it is white.
pub const NEAR_WHITE: i128 = 99_999_900_000_000;

/// 0.002, the error in Y at which Newton's method has converged.
pub const Y_TOLERANCE: i128 = 2_000_000_000;

/// 100.01, the largest linear component still taken to be in gamut.
pub const GAMUT_LIMIT: i128 = 100_010_000_000_000;

/// The number of rounds of Newton's method.
pub const NEWTON_ROUNDS: u8 = 5;

/// The number of corners that the plane of constant luminance can have on
/// the edges of the RGB cube.
pub const CORNERS: u8 = 12;

/// The number of halvings that bring two sRGB levels next to each other.
pub const PLANE_ROUNDS: u8 = 8;

/// An angle in radians, above minus four turns, brought into one turn
/// from zero.
pub open spec fn sanitize_radians_spec(angle: Fixed) -> Fixed {
    angle.plus(fx(EIGHT_PI)).rem(fx(TWO_PI))
}

#[verifier::when_used_as_spec(sanitize_radians_spec)]
pub fn sanitize_radians(angle: Fixed) -> (out: Fixed)
    ensures
        out == sanitize_radians_spec(angle),
{
    angle.plus(fx(EIGHT_PI)).rem(fx(TWO_PI))
}

/// The adapted cone response to a stimulus of the scaled, discounted
/// space.
#[verifier::opaque]
pub open spec fn chromatic_adaptation_spec(component: Fixed) -> Fixed {
    let af = component.abs().pow(fx(RESPONSE_EXPONENT));
    af.times_int(400).over(af.plus(fx(RESPONSE_OFFSET))).with_sign_of(component)
}

#[verifier::when_used_as_spec(chromatic_adaptation_spec)]
pub fn chromatic_adaptation(component: Fixed) -> (out: Fixed)
    ensures
        out == chromatic_adaptation_spec(component),
{
    proof {
        reveal(chromatic_adaptation_spec);
    }
    let af = component.abs().pow(fx(RESPONSE_EXPONENT));
    af.times_int(400).over(af.plus(fx(RESPONSE_OFFSET))).with_sign_of(component)
}

/// The CAM16 hue, in radians, of a colour in linear RGB.
#[verifier::opaque]
pub open spec fn hue_of_spec(linrgb: (Fixed, Fixed, Fixed)) -> Fixed {
    let scaled_discount = matrix_multiply(linrgb, SCALED_DISCOUNT_FROM_LINRGB);
    let r_a = chromatic_adaptation(scaled_discount.0);
    let g_a = chromatic_adaptation(scaled_discount.1);
    let b_a = chromatic_adaptation(scaled_discount.2);
    let a = r_a.times_int(11).minus(g_a.times_int(12)).plus(b_a).over_int(11);
    let b = r_a.plus(g_a).minus(b_a.times_int(2)).over_int(9);
    b.atan2(a)
}

#[verifier::when_used_as_spec(hue_of_spec)]
pub fn hue_of(linrgb: (Fixed, Fixed, Fixed)) -> (out: Fixed)
    ensures
        out == hue_of_spec(linrgb),
{
    proof {
        reveal(hue_of_spec);
    }
    let scaled_discount = matrix_multiply(linrgb, SCALED_DISCOUNT_FROM_LINRGB);
    let r_a = chromatic_adaptation(scaled_discount.0);
    let g_a = chromatic_adaptation(scaled_discount.1);
    let b_a = chromatic_adaptation(scaled_discount.2);
    let a = r_a.times_int(11).minus(g_a.times_int(12)).plus(b_a).over_int(11);
    let b = r_a.plus(g_a).minus(b_a.times_int(2)).over_int(9);
    b.atan2(a)
}

/// Whether `b` comes before `c` on the way round the circle from `a`.
#[verifier::opaque]
pub open spec fn are_in_cyclic_order_spec(a: Fixed, b: Fixed, c: Fixed) -> bool {
    sanitize_radians(b.minus(a)).lt(sanitize_radians(c.minus(a)))
}

#[verifier::when_used_as_spec(are_in_cyclic_order_spec)]
pub fn are_in_cyclic_order(a: Fixed, b: Fixed, c: Fixed) -> (out: bool)
    ensures
        out == are_in_cyclic_order_spec(a, b, c),
{
    proof {
        reveal(are_in_cyclic_order_spec);
    }
    sanitize_radians(b.minus(a)).lt(sanitize_radians(c.minus(a)))
}

/// The `t` at which the line from `source` to `target` passes `mid`.
#[verifier::opaque]
pub open spec fn intercept_spec(source: Fixed, mid: Fixed, target: Fixed) -> Fixed {
    mid.minus(source).over(target.minus(source))
}

#[verifier::when_used_as_spec(intercept_spec)]
pub fn intercept(source: Fixed, mid: Fixed, target: Fixed) -> (out: Fixed)
    ensures
        out == intercept_spec(source, mid, target),
{
    proof {
        reveal(intercept_spec);
    }
    mid.minus(source).over(target.minus(source))
}

/// The point at `t` of the way from `source` to `target`.
#[verifier::opaque]
pub open spec fn lerp_point_spec(
    source: (Fixed, Fixed, Fixed),
    t: Fixed,
    target: (Fixed, Fixed, Fixed),
) -> (Fixed, Fixed, Fixed) {
    (
        source.0.plus(target.0.minus(source.0).times(t)),
        source.1.plus(target.1.minus(source.1).times(t)),
        source.2.plus(target.2.minus(source.2).times(t)),
    )
}

#[verifier::when_used_as_spec(lerp_point_spec)]
pub fn lerp_point(
    source: (Fixed, Fixed, Fixed),
    t: Fixed,
    target: (Fixed, Fixed, Fixed),
) -> (out: (Fixed, Fixed, Fixed))
    ensures
        out == lerp_point_spec(source, t, target),
{
    proof {
        reveal(lerp_point_spec);
    }
    (
        source.0.plus(target.0.minus(source.0).times(t)),
        source.1.plus(target.1.minus(source.1).times(t)),
        source.2.plus(target.2.minus(source.2).times(t)),
    )
}

/// One coordinate of a point: the first for axis 0, the second for axis
/// 1, the third for any other axis.
pub open spec fn coordinate_spec(point: (Fixed, Fixed, Fixed), axis: u8) -> Fixed {
    if axis == 0 {
        point.0
    } else if axis == 1 {
        point.1
    } else {
        point.2
    }
}

#[verifier::when_used_as_spec(coordinate_spec)]
pub fn coordinate(point: (Fixed, Fixed, Fixed), axis: u8) -> (out: Fixed)
    ensures
        out == coordinate_spec(point, axis),
{
    if axis == 0 {
        point.0
    } else if axis == 1 {
        point.1
    } else {
        point.2
    }
}

/// The point of the segment from `source` to `target` whose coordinate on
/// `axis` is `value`.
#[verifier::opaque]
pub open spec fn set_coordinate_spec(
    source: (Fixed, Fixed, Fixed),
    value: Fixed,
    target: (Fixed, Fixed, Fixed),
    axis: u8,
) -> (Fixed, Fixed, Fixed) {
    lerp_point(
        source,
        intercept(coordinate(source, axis), value, coordinate(target, axis)),
        target,
    )
}

#[verifier::when_used_as_spec(set_coordinate_spec)]
pub fn set_coordinate(
    source: (Fixed, Fixed, Fixed),
    value: Fixed,
    target: (Fixed, Fixed, Fixed),
    axis: u8,
) -> (out: (Fixed, Fixed, Fixed))
    ensures
        out == set_coordinate_spec(source, value, target, axis),
{
    proof {
        reveal(set_coordinate_spec);
    }
    lerp_point(
        source,
        intercept(coordinate(source, axis), value, coordinate(target, axis)),
        target,
    )
}

/// Whether a linear component lies within 0 and 100.
pub open spec fn is_bounded_spec(x: Fixed) -> bool {
    Fixed::from_int(0).le(x) && x.le(Fixed::from_int(100))
}

#[verifier::when_used_as_spec(is_bounded_spec)]
pub fn is_bounded(x: Fixed) -> (out: bool)
    ensures
        out == is_bounded_spec(x),
{
    Fixed::from_int(0).le(x) && x.le(Fixed::from_int(100))
}

/// The point that stands for "no corner here".
pub open spec fn no_corner_spec() -> (Fixed, Fixed, Fixed) {
    (fx(MINUS_ONE), fx(MINUS_ONE), fx(MINUS_ONE))
}

#[verifier::when_used_as_spec(no_corner_spec)]
pub fn no_corner() -> (out: (Fixed, Fixed, Fixed))
    ensures
        out == no_corner_spec(),
{
    (fx(MINUS_ONE), fx(MINUS_ONE), fx(MINUS_ONE))
}

/// The `n`-th of the twelve places where the plane of luminance `y` can
/// meet an edge of the RGB cube, or `no_corner()` where it misses that
/// edge. Edges 0 to 3 run along red, 4 to 7 along green, 8 to 11 along
/// blue.
#[verifier::opaque]
pub open spec fn nth_vertex_spec(y: Fixed, n: u8) -> (Fixed, Fixed, Fixed) {
    let coord_a = if n % 4 <= 1 {
        Fixed::from_int(0)
    } else {
        Fixed::from_int(100)
    };
    let coord_b = if n % 2 == 0 {
        Fixed::from_int(0)
    } else {
        Fixed::from_int(100)
    };
    if n < 4 {
        let r = y.minus(coord_a.times(fx(Y_FROM_GREEN))).minus(coord_b.times(fx(Y_FROM_BLUE)))
            .over(fx(Y_FROM_RED));
        if is_bounded(r) {
            (r, coord_a, coord_b)
        } else {
            no_corner()
        }
    } else if n < 8 {
        let g = y.minus(coord_b.times(fx(Y_FROM_RED))).minus(coord_a.times(fx(Y_FROM_BLUE)))
            .over(fx(Y_FROM_GREEN));
        if is_bounded(g) {
            (coord_b, g, coord_a)
        } else {
            no_corner()
        }
    } else {
        let b = y.minus(coord_a.times(fx(Y_FROM_RED))).minus(coord_b.times(fx(Y_FROM_GREEN)))
            .over(fx(Y_FROM_BLUE));
        if is_bounded(b) {
            (coord_a, coord_b, b)
        } else {
            no_corner()
        }
    }
}

#[verifier::when_used_as_spec(nth_vertex_spec)]
pub fn nth_vertex(y: Fixed, n: u8) -> (out: (Fixed, Fixed, Fixed))
    ensures
        out == nth_vertex_spec(y, n),
{
    proof {
        reveal(nth_vertex_spec);
    }
    let coord_a = if n % 4 <= 1 {
        Fixed::from_int(0)
    } else {
        Fixed::from_int(100)
    };
    let coord_b = if n % 2 == 0 {
        Fixed::from_int(0)
    } else {
        Fixed::from_int(100)
    };
    if n < 4 {
        let r = y.minus(coord_a.times(fx(Y_FROM_GREEN))).minus(coord_b.times(fx(Y_FROM_BLUE)))
            .over(fx(Y_FROM_RED));
        if is_bounded(r) {
            (r, coord_a, coord_b)
        } else {
            no_corner()
        }
    } else if n < 8 {
        let g = y.minus(coord_b.times(fx(Y_FROM_RED))).minus(coord_a.times(fx(Y_FROM_BLUE)))
            .over(fx(Y_FROM_GREEN));
        if is_bounded(g) {
            (coord_b, g, coord_a)
        } else {
            no_corner()
        }
    } else {
        let b = y.minus(coord_a.times(fx(Y_FROM_RED))).minus(coord_b.times(fx(Y_FROM_GREEN)))
            .over(fx(Y_FROM_BLUE));
        if is_bounded(b) {
            (coord_a, coord_b, b)
        } else {
            no_corner()
        }
    }
}

/// Two corners of the polygon, with their hues, between which the wanted
/// hue is being enclosed.
#[derive(Clone, Copy, Debug, PartialEq, Eq)]
pub struct Segment {
    pub left: (Fixed, Fixed, Fixed),
    pub right: (Fixed, Fixed, Fixed),
    pub left_hue: Fixed,
    pub right_hue: Fixed,
    pub initialized: bool,
    pub uncut: bool,
}

/// The segment before any corner has been seen.
pub open spec fn empty_segment_spec() -> Segment {
    Segment {
        left: no_corner(),
        right: no_corner(),
        left_hue: Fixed::from_int(0),
        right_hue: Fixed::from_int(0),
        initialized: false,
        uncut: true,
    }
}

#[verifier::when_used_as_spec(empty_segment_spec)]
pub fn empty_segment() -> (out: Segment)
    ensures
        out == empty_segment_spec(),
{
    Segment {
        left: no_corner(),
        right: no_corner(),
        left_hue: Fixed::from_int(0),
        right_hue: Fixed::from_int(0),
        initialized: false,
        uncut: true,
    }
}

/// The segment after the `n`-th corner has been looked at: the first
/// corner found becomes both ends; a later corner that lies between the
/// ends replaces the end that keeps the target hue enclosed.
#[verifier::opaque]
pub open spec fn segment_step_spec(state: Segment, y: Fixed, target_hue: Fixed, n: u8) -> Segment {
    let mid = nth_vertex(y, n);
    if mid.0.lt(Fixed::from_int(0)) {
        state
    } else {
        let mid_hue = hue_of(mid);
        if !state.initialized {
            Segment {
                left: mid,
                right: mid,
                left_hue: mid_hue,
                right_hue: mid_hue,
                initialized: true,
                uncut: state.uncut,
            }
        } else if state.uncut || are_in_cyclic_order(state.left_hue, mid_hue, state.right_hue) {
            if are_in_cyclic_order(state.left_hue, target_hue, mid_hue) {
                Segment {
                    left: state.left,
                    right: mid,
                    left_hue: state.left_hue,
                    right_hue: mid_hue,
                    initialized: true,
                    uncut: false,
                }
            } else {
                Segment {
                    left: mid,
                    right: state.right,
                    left_hue: mid_hue,
                    right_hue: state.right_hue,
                    initialized: true,
                    uncut: false,
                }
            }
        } else {
            state
        }
    }
}

#[verifier::when_used_as_spec(segment_step_spec)]
pub fn segment_step(state: Segment, y: Fixed, target_hue: Fixed, n: u8) -> (out: Segment)
    ensures
        out == segment_step_spec(state, y, target_hue, n),
{
    proof {
        reveal(segment_step_spec);
    }
    let mid = nth_vertex(y, n);
    if mid.0.lt(Fixed::from_int(0)) {
        state
    } else {
        let mid_hue = hue_of(mid);
        if !state.initialized {
            Segment {
                left: mid,
                right: mid,
                left_hue: mid_hue,
                right_hue: mid_hue,
                initialized: true,
                uncut: state.uncut,
            }
        } else if state.uncut || are_in_cyclic_order(state.left_hue, mid_hue, state.right_hue) {
            if are_in_cyclic_order(state.left_hue, target_hue, mid_hue) {
                Segment {
                    left: state.left,
                    right: mid,
                    left_hue: state.left_hue,
                    right_hue: mid_hue,
                    initialized: true,
                    uncut: false,
                }
            } else {
                Segment {
                    left: mid,
                    right: state.right,
                    left_hue: mid_hue,
                    right_hue: state.right_hue,
                    initialized: true,
                    uncut: false,
                }
            }
        } else {
            state
        }
    }
}

/// The segment after the corners from the `n`-th on have been looked at.
pub open spec fn segment_from(state: Segment, y: Fixed, target_hue: Fixed, n: u8) -> Segment
    decreases CORNERS - n,
{
    if n < CORNERS {
        segment_from(segment_step(state, y, target_hue, n), y, target_hue, (n + 1) as u8)
    } else {
        state
    }
}

/// The two corners of the polygon of luminance `y` that enclose the
/// target hue.
pub open spec fn bisect_to_segment_spec(y: Fixed, target_hue: Fixed) -> Segment {
    segment_from(empty_segment(), y, target_hue, 0)
}

#[verifier::when_used_as_spec(bisect_to_segment_spec)]
pub fn bisect_to_segment(y: Fixed, target_hue: Fixed) -> (out: Segment)
    ensures
        out == bisect_to_segment_spec(y, target_hue),
{
    let mut state = empty_segment();
    let mut n: u8 = 0;
    while n < CORNERS
        invariant
            n <= CORNERS,
            segment_from(state, y, target_hue, n) == bisect_to_segment_spec(y, target_hue),
        decreases CORNERS - n,
    {
        state = segment_step(state, y, target_hue, n);
        n = n + 1;
    }
    state
}

/// The point half way between two points.
#[verifier::opaque]
pub open spec fn midpoint_spec(
    a: (Fixed, Fixed, Fixed),
    b: (Fixed, Fixed, Fixed),
) -> (Fixed, Fixed, Fixed) {
    (a.0.plus(b.0).over_int(2), a.1.plus(b.1).over_int(2), a.2.plus(b.2).over_int(2))
}

#[verifier::when_used_as_spec(midpoint_spec)]
pub fn midpoint(a: (Fixed, Fixed, Fixed), b: (Fixed, Fixed, Fixed)) -> (out: (Fixed, Fixed, Fixed))
    ensures
        out == midpoint_spec(a, b),
{
    proof {
        reveal(midpoint_spec);
    }
    (a.0.plus(b.0).over_int(2), a.1.plus(b.1).over_int(2), a.2.plus(b.2).over_int(2))
}

/// The sRGB level, taken at its upper edge, at or below the level `x`.
#[verifier::opaque]
pub open spec fn critical_plane_below_spec(x: Fixed) -> i128 {
    x.minus(fx(HALF)).floor().floor_int()
}

#[verifier::when_used_as_spec(critical_plane_below_spec)]
pub fn critical_plane_below(x: Fixed) -> (out: i128)
    ensures
        out == critical_plane_below_spec(x),
{
    proof {
        reveal(critical_plane_below_spec);
    }
    x.minus(fx(HALF)).floor().floor_int()
}

/// The sRGB level, taken at its upper edge, at or above the level `x`.
#[verifier::opaque]
pub open spec fn critical_plane_above_spec(x: Fixed) -> i128 {
    x.minus(fx(HALF)).ceil().floor_int()
}

#[verifier::when_used_as_spec(critical_plane_above_spec)]
pub fn critical_plane_above(x: Fixed) -> (out: i128)
    ensures
        out == critical_plane_above_spec(x),
{
    proof {
        reveal(critical_plane_above_spec);
    }
    x.minus(fx(HALF)).ceil().floor_int()
}

/// The linear value of an sRGB level that need not be whole.
#[verifier::opaque]
pub open spec fn true_linearized_spec(level: Fixed) -> Fixed {
    let normalized = level.over_int(255);
    if normalized.le(fx(GAMMA_KNEE)) {
        normalized.over(fx(LINEAR_SLOPE)).times_int(100)
    } else {
        normalized.plus(fx(GAMMA_OFFSET)).over(fx(GAMMA_GAIN)).pow(fx(GAMMA)).times_int(100)
    }
}

#[verifier::when_used_as_spec(true_linearized_spec)]
pub fn true_linearized(level: Fixed) -> (out: Fixed)
    ensures
        out == true_linearized_spec(level),
{
    proof {
        reveal(true_linearized_spec);
    }
    let normalized = level.over_int(255);
    if normalized.le(fx(GAMMA_KNEE)) {
        normalized.over(fx(LINEAR_SLOPE)).times_int(100)
    } else {
        normalized.plus(fx(GAMMA_OFFSET)).over(fx(GAMMA_GAIN)).pow(fx(GAMMA)).times_int(100)
    }
}

/// The linear value at which sRGB rounds from level `index` to the next:
/// that of the level `index + 1/2`.
#[verifier::opaque]
pub open spec fn critical_plane_spec(index: i128) -> Fixed {
    true_linearized(fx(sat_add(sat_mul(index, SCALE), HALF)))
}

#[verifier::when_used_as_spec(critical_plane_spec)]
pub fn critical_plane(index: i128) -> (out: Fixed)
    ensures
        out == critical_plane_spec(index),
{
    proof {
        reveal(critical_plane_spec);
    }
    true_linearized(fx(sat_add(sat_mul(index, SCALE), HALF)))
}

/// Two points of one edge of the polygon that enclose the target hue,
/// and the sRGB levels, on the axis being bisected, that enclose them.
#[derive(Clone, Copy, Debug, PartialEq, Eq)]
pub struct Bracket {
    pub left: (Fixed, Fixed, Fixed),
    pub left_hue: Fixed,
    pub right: (Fixed, Fixed, Fixed),
    pub l_plane: i128,
    pub r_plane: i128,
}

/// The bracket after one halving on `axis`; unchanged once its levels are
/// next to each other.
#[verifier::opaque]
pub open spec fn plane_step_spec(b: Bracket, axis: u8, target_hue: Fixed) -> Bracket {
    let gap = sat_sub(b.r_plane, b.l_plane);
    if -1 <= gap && gap <= 1 {
        b
    } else {
        let m_plane = div_floor(sat_add(b.l_plane, b.r_plane), 2);
        let mid = set_coordinate(b.left, critical_plane(m_plane), b.right, axis);
        let mid_hue = hue_of(mid);
        if are_in_cyclic_order(b.left_hue, target_hue, mid_hue) {
            Bracket {
                left: b.left,
                left_hue: b.left_hue,
                right: mid,
                l_plane: b.l_plane,
                r_plane: m_plane,
            }
        } else {
            Bracket {
                left: mid,
                left_hue: mid_hue,
                right: b.right,
                l_plane: m_plane,
                r_plane: b.r_plane,
            }
        }
    }
}

#[verifier::when_used_as_spec(plane_step_spec)]
pub fn plane_step(b: Bracket, axis: u8, target_hue: Fixed) -> (out: Bracket)
    ensures
        out == plane_step_spec(b, axis, target_hue),
{
    proof {
        reveal(plane_step_spec);
    }
    let gap = sat_sub(b.r_plane, b.l_plane);
    if -1 <= gap && gap <= 1 {
        b
    } else {
        let m_plane = div_floor(sat_add(b.l_plane, b.r_plane), 2);
        let mid = set_coordinate(b.left, critical_plane(m_plane), b.right, axis);
        let mid_hue = hue_of(mid);
        if are_in_cyclic_order(b.left_hue, target_hue, mid_hue) {
            Bracket {
                left: b.left,
                left_hue: b.left_hue,
                right: mid,
                l_plane: b.l_plane,
                r_plane: m_plane,
            }
        } else {
            Bracket {
                left: mid,
                left_hue: mid_hue,
                right: b.right,
                l_plane: m_plane,
                r_plane: b.r_plane,
            }
        }
    }
}

/// The bracket after `rounds` more halvings on `axis`.
pub open spec fn narrow_spec(b: Bracket, axis: u8, target_hue: Fixed, rounds: u8) -> Bracket
    decreases rounds,
{
    if rounds > 0 {
        narrow_spec(plane_step(b, axis, target_hue), axis, target_hue, (rounds - 1) as u8)
    } else {
        b
    }
}

#[verifier::when_used_as_spec(narrow_spec)]
pub fn narrow(b: Bracket, axis: u8, target_hue: Fixed, rounds: u8) -> (out: Bracket)
    ensures
        out == narrow_spec(b, axis, target_hue, rounds),
{
    let mut state = b;
    let mut left: u8 = rounds;
    while left > 0
        invariant
            narrow_spec(state, axis, target_hue, left) == narrow_spec(b, axis, target_hue, rounds),
        decreases left,
    {
        state = plane_step(state, axis, target_hue);
        left = left - 1;
    }
    state
}

/// The bracket narrowed on `axis` until its two points round to
/// neighbouring sRGB levels there; unchanged where they agree on that
/// axis.
#[verifier::opaque]
pub open spec fn bisect_axis_spec(b: Bracket, axis: u8, target_hue: Fixed) -> Bracket {
    let from = coordinate(b.left, axis);
    let to = coordinate(b.right, axis);
    if from == to {
        b
    } else if from.lt(to) {
        narrow(
            Bracket {
                left: b.left,
                left_hue: b.left_hue,
                right: b.right,
                l_plane: critical_plane_below(true_delinearized(from)),
                r_plane: critical_plane_above(true_delinearized(to)),
            },
            axis,
            target_hue,
            PLANE_ROUNDS,
        )
    } else {
        narrow(
            Bracket {
                left: b.left,
                left_hue: b.left_hue,
                right: b.right,
                l_plane: critical_plane_above(true_delinearized(from)),
                r_plane: critical_plane_below(true_delinearized(to)),
            },
            axis,
            target_hue,
            PLANE_ROUNDS,
        )
    }
}

#[verifier::when_used_as_spec(bisect_axis_spec)]
pub fn bisect_axis(b: Bracket, axis: u8, target_hue: Fixed) -> (out: Bracket)
    ensures
        out == bisect_axis_spec(b, axis, target_hue),
{
    proof {
        reveal(bisect_axis_spec);
    }
    let from = coordinate(b.left, axis);
    let to = coordinate(b.right, axis);
    if from == to {
        b
    } else if from.lt(to) {
        narrow(
            Bracket {
                left: b.left,
                left_hue: b.left_hue,
                right: b.right,
                l_plane: critical_plane_below(true_delinearized(from)),
                r_plane: critical_plane_above(true_delinearized(to)),
            },
            axis,
            target_hue,
            PLANE_ROUNDS,
        )
    } else {
        narrow(
            Bracket {
                left: b.left,
                left_hue: b.left_hue,
                right: b.right,
                l_plane: critical_plane_above(true_delinearized(from)),
                r_plane: critical_plane_below(true_delinearized(to)),
            },
            axis,
            target_hue,
            PLANE_ROUNDS,
        )
    }
}

/// The colour, in linear RGB, of luminance `y` and hue `target_hue` on the
/// surface of the RGB cube.
#[verifier::opaque]
pub open spec fn bisect_to_limit_spec(y: Fixed, target_hue: Fixed) -> (Fixed, Fixed, Fixed) {
    let segment = bisect_to_segment(y, target_hue);
    let start = Bracket {
        left: segment.left,
        left_hue: hue_of(segment.left),
        right: segment.right,
        l_plane: 0,
        r_plane: 0,
    };
    let end = bisect_axis(
        bisect_axis(bisect_axis(start, 0, target_hue), 1, target_hue),
        2,
        target_hue,
    );
    midpoint(end.left, end.right)
}

#[verifier::when_used_as_spec(bisect_to_limit_spec)]
pub fn bisect_to_limit(y: Fixed, target_hue: Fixed) -> (out: (Fixed, Fixed, Fixed))
    ensures
        out == bisect_to_limit_spec(y, target_hue),
{
    proof {
        reveal(bisect_to_limit_spec);
    }
    let segment = bisect_to_segment(y, target_hue);
    let start = Bracket {
        left: segment.left,
        left_hue: hue_of(segment.left),
        right: segment.right,
        l_plane: 0,
        r_plane: 0,
    };
    let end = bisect_axis(
        bisect_axis(bisect_axis(start, 0, target_hue), 1, target_hue),
        2,
        target_hue,
    );
    midpoint(end.left, end.right)
}

/// What does not change from one round of Newton's method to the next.
#[derive(Clone, Copy, Debug, PartialEq, Eq)]
pub struct NewtonFrame {
    pub chroma: Fixed,
    pub y: Fixed,
    pub h_sin: Fixed,
    pub h_cos: Fixed,
    pub hue_factor: Fixed,
    pub t_inner_coeff: Fixed,
    pub aw: Fixed,
    pub nbb: Fixed,
    pub inverse_cz: Fixed,
}

/// How one round of Newton's method ends.
#[derive(Clone, Copy, Debug, PartialEq, Eq)]
pub enum NewtonStep {
    /// The colour is found.
    Found(u32),
    /// The wanted colour is outside the gamut.
    OutOfGamut,
    /// The next estimate of the lightness.
    Next(Fixed),
}

/// The frame for the hue, in radians, the chroma and the luminance
/// wanted, under the standard viewing conditions.
#[verifier::opaque]
pub open spec fn newton_frame_spec(hue_radians: Fixed, chroma: Fixed, y: Fixed) -> NewtonFrame {
    let viewing_conditions = ViewingConditions::standard();
    NewtonFrame {
        chroma,
        y,
        h_sin: hue_radians.sin(),
        h_cos: hue_radians.cos(),
        hue_factor: eccentricity(hue_radians).times(fx(HUE_FACTOR_SCALE)).times(viewing_conditions.nc).times(
            viewing_conditions.ncb,
        ),
        t_inner_coeff: Fixed::from_int(1).over(chroma_factor(viewing_conditions.n)),
        aw: viewing_conditions.aw,
        nbb: viewing_conditions.nbb,
        inverse_cz: Fixed::from_int(1).over(viewing_conditions.c).over(viewing_conditions.z),
    }
}

#[verifier::when_used_as_spec(newton_frame_spec)]
pub fn newton_frame(hue_radians: Fixed, chroma: Fixed, y: Fixed) -> (out: NewtonFrame)
    ensures
        out == newton_frame_spec(hue_radians, chroma, y),
{
    proof {
        reveal(newton_frame_spec);
    }
    let viewing_conditions = ViewingConditions::standard();
    NewtonFrame {
        chroma,
        y,
        h_sin: hue_radians.sin(),
        h_cos: hue_radians.cos(),
        hue_factor: eccentricity(hue_radians).times(fx(HUE_FACTOR_SCALE)).times(viewing_conditions.nc).times(
            viewing_conditions.ncb,
        ),
        t_inner_coeff: Fixed::from_int(1).over(chroma_factor(viewing_conditions.n)),
        aw: viewing_conditions.aw,
        nbb: viewing_conditions.nbb,
        inverse_cz: Fixed::from_int(1).over(viewing_conditions.c).over(viewing_conditions.z),
    }
}

/// The colour, in linear RGB, that has the lightness `j` and the hue and
/// chroma of the frame: CAM16 inverted.
#[verifier::opaque]
pub open spec fn linrgb_for_lightness_spec(j: Fixed, frame: NewtonFrame) -> (Fixed, Fixed, Fixed) {
    let j_normalized = j.over_int(100);
    let alpha = if frame.chroma.raw == 0 || j.raw == 0 {
        Fixed::from_int(0)
    } else {
        frame.chroma.over(j_normalized.sqrt())
    };
    let t = alpha.times(frame.t_inner_coeff).pow(fx(INVERSE_T_EXPONENT));
    let ac = frame.aw.times(j_normalized.pow(frame.inverse_cz));
    let lightness_term = ac.over(frame.nbb);
    let gamma = lightness_term.plus(fx(T_OFFSET)).times_int(23).times(t).over(
        frame.hue_factor.times_int(23).plus(t.times_int(11).times(frame.h_cos)).plus(
            t.times_int(108).times(frame.h_sin),
        ),
    );
    let a = gamma.times(frame.h_cos);
    let b = gamma.times(frame.h_sin);
    let r_a = lightness_term.times_int(460).plus(a.times_int(451)).plus(b.times_int(288)).over_int(1403);
    let g_a = lightness_term.times_int(460).minus(a.times_int(891)).minus(b.times_int(261)).over_int(1403);
    let b_a = lightness_term.times_int(460).minus(a.times_int(220)).minus(b.times_int(6300)).over_int(1403);
    matrix_multiply(
        (
            inverse_adapted_response(r_a),
            inverse_adapted_response(g_a),
            inverse_adapted_response(b_a),
        ),
        LINRGB_FROM_SCALED_DISCOUNT,
    )
}

#[verifier::when_used_as_spec(linrgb_for_lightness_spec)]
pub fn linrgb_for_lightness(j: Fixed, frame: NewtonFrame) -> (out: (Fixed, Fixed, Fixed))
    ensures
        out == linrgb_for_lightness_spec(j, frame),
{
    proof {
        reveal(linrgb_for_lightness_spec);
    }
    let j_normalized = j.over_int(100);
    let alpha = if frame.chroma.raw == 0 || j.raw == 0 {
        Fixed::from_int(0)
    } else {
        frame.chroma.over(j_normalized.sqrt())
    };
    let t = alpha.times(frame.t_inner_coeff).pow(fx(INVERSE_T_EXPONENT));
    let ac = frame.aw.times(j_normalized.pow(frame.inverse_cz));
    let lightness_term = ac.over(frame.nbb);
    let gamma = lightness_term.plus(fx(T_OFFSET)).times_int(23).times(t).over(
        frame.hue_factor.times_int(23).plus(t.times_int(11).times(frame.h_cos)).plus(
            t.times_int(108).times(frame.h_sin),
        ),
    );
    let a = gamma.times(frame.h_cos);
    let b = gamma.times(frame.h_sin);
    let r_a = lightness_term.times_int(460).plus(a.times_int(451)).plus(b.times_int(288)).over_int(1403);
    let g_a = lightness_term.times_int(460).minus(a.times_int(891)).minus(b.times_int(261)).over_int(1403);
    let b_a = lightness_term.times_int(460).minus(a.times_int(220)).minus(b.times_int(6300)).over_int(1403);
    matrix_multiply(
        (
            inverse_adapted_response(r_a),
            inverse_adapted_response(g_a),
            inverse_adapted_response(b_a),
        ),
        LINRGB_FROM_SCALED_DISCOUNT,
    )
}

/// One round of Newton's method from the estimate `j`. A negative
/// component, or one beyond the gamut once the luminance has converged or
/// the rounds are spent, means that the colour cannot be shown; else the
/// estimate moves by `-(Y(j) - y) * j / (2 * Y(j))`.
#[verifier::opaque]
pub open spec fn newton_step_spec(j: Fixed, last_round: bool, frame: NewtonFrame) -> NewtonStep {
    let linrgb = linrgb_for_lightness(j, frame);
    if linrgb.0.raw < 0 || linrgb.1.raw < 0 || linrgb.2.raw < 0 {
        NewtonStep::OutOfGamut
    } else {
        let fnj = weighted_sum(linrgb, Y_FROM_RED, Y_FROM_GREEN, Y_FROM_BLUE);
        if fnj.raw <= 0 {
            NewtonStep::OutOfGamut
        } else if last_round || fnj.minus(frame.y).abs().lt(fx(Y_TOLERANCE)) {
            if linrgb.0.gt(fx(GAMUT_LIMIT)) || linrgb.1.gt(fx(GAMUT_LIMIT)) || linrgb.2.gt(
                fx(GAMUT_LIMIT),
            ) {
                NewtonStep::OutOfGamut
            } else {
                NewtonStep::Found(argb_from_linrgb(linrgb))
            }
        } else {
            NewtonStep::Next(j.minus(fnj.minus(frame.y).times(j).over(fnj.times_int(2))))
        }
    }
}

#[verifier::when_used_as_spec(newton_step_spec)]
pub fn newton_step(j: Fixed, last_round: bool, frame: NewtonFrame) -> (out: NewtonStep)
    ensures
        out == newton_step_spec(j, last_round, frame),
        out matches NewtonStep::Found(argb) ==> is_opaque(argb),
{
    proof {
        reveal(newton_step_spec);
    }
    let linrgb = linrgb_for_lightness(j, frame);
    if linrgb.0.raw < 0 || linrgb.1.raw < 0 || linrgb.2.raw < 0 {
        NewtonStep::OutOfGamut
    } else {
        let fnj = weighted_sum(linrgb, Y_FROM_RED, Y_FROM_GREEN, Y_FROM_BLUE);
        if fnj.raw <= 0 {
            NewtonStep::OutOfGamut
        } else if last_round || fnj.minus(frame.y).abs().lt(fx(Y_TOLERANCE)) {
            if linrgb.0.gt(fx(GAMUT_LIMIT)) || linrgb.1.gt(fx(GAMUT_LIMIT)) || linrgb.2.gt(
                fx(GAMUT_LIMIT),
            ) {
                NewtonStep::OutOfGamut
            } else {
                NewtonStep::Found(argb_from_linrgb(linrgb))
            }
        } else {
            NewtonStep::Next(j.minus(fnj.minus(frame.y).times(j).over(fnj.times_int(2))))
        }
    }
}

/// The outcome of Newton's method from its round `round` and the estimate
/// `j` on.
pub open spec fn newton_from(round: u8, j: Fixed, frame: NewtonFrame) -> Option<u32>
    decreases NEWTON_ROUNDS - round,
{
    if round < NEWTON_ROUNDS {
        match newton_step(j, round == NEWTON_ROUNDS - 1, frame) {
            NewtonStep::Found(argb) => Some(argb),
            NewtonStep::OutOfGamut => None,
            NewtonStep::Next(next) => newton_from((round + 1) as u8, next, frame),
        }
    } else {
        None
    }
}

/// The sRGB colour with the hue, in radians, the chroma and the luminance
/// given, found by Newton's method from the estimate `11 * sqrt(y)` of its
/// lightness; `None` where that colour is outside the gamut.
pub open spec fn find_result_by_j_spec(hue_radians: Fixed, chroma: Fixed, y: Fixed) -> Option<u32> {
    newton_from(0, y.sqrt().times_int(11), newton_frame(hue_radians, chroma, y))
}

#[verifier::when_used_as_spec(find_result_by_j_spec)]
pub fn find_result_by_j(hue_radians: Fixed, chroma: Fixed, y: Fixed) -> (out: Option<u32>)
    ensures
        out == find_result_by_j_spec(hue_radians, chroma, y),
        out matches Some(argb) ==> is_opaque(argb),
{
    let frame = newton_frame(hue_radians, chroma, y);
    let mut j = y.sqrt().times_int(11);
    let mut round: u8 = 0;
    while round < NEWTON_ROUNDS
        invariant
            round <= NEWTON_ROUNDS,
            newton_from(round, j, frame) == find_result_by_j_spec(hue_radians, chroma, y),
        decreases NEWTON_ROUNDS - round,
    {
        match newton_step(j, round == NEWTON_ROUNDS - 1, frame) {
            NewtonStep::Found(argb) => {
                return Some(argb);
            },
            NewtonStep::OutOfGamut => {
                return None;
            },
            NewtonStep::Next(next) => {
                j = next;
            },
        }
        round = round + 1;
    }
    None
}

/// The sRGB colour with the given hue, in degrees, and tone, and with the
/// given chroma or, where sRGB cannot show that much, the most that it
/// can. Chroma below 0.0001, or a tone outside 0.0001 to 99.9999, gives
/// the grey of that tone.
#[verifier::opaque]
pub open spec fn solve_to_int_spec(hue_degrees: Fixed, chroma: Fixed, lstar: Fixed) -> u32 {
    if chroma.lt(fx(NEAR_ZERO)) || lstar.lt(fx(NEAR_ZERO)) || lstar.gt(fx(NEAR_WHITE)) {
        argb_from_lstar(lstar)
    } else {
        let hue_radians = sanitize_degrees(hue_degrees).to_radians();
        let y = y_from_lstar(lstar);
        match find_result_by_j(hue_radians, chroma, y) {
            Some(exact_answer) => exact_answer,
            None => argb_from_linrgb(bisect_to_limit(y, hue_radians)),
        }
    }
}

#[verifier::when_used_as_spec(solve_to_int_spec)]
pub fn solve_to_int(hue_degrees: Fixed, chroma: Fixed, lstar: Fixed) -> (argb: u32)
    ensures
        argb == solve_to_int_spec(hue_degrees, chroma, lstar),
        is_opaque(argb),
{
    proof {
        reveal(solve_to_int_spec);
    }
    if chroma.lt(fx(NEAR_ZERO)) || lstar.lt(fx(NEAR_ZERO)) || lstar.gt(fx(NEAR_WHITE)) {
        argb_from_lstar(lstar)
    } else {
        let hue_radians = sanitize_degrees(hue_degrees).to_radians();
        let y = y_from_lstar(lstar);
        match find_result_by_j(hue_radians, chroma, y) {
            Some(exact_answer) => exact_answer,
            None => argb_from_linrgb(bisect_to_limit(y, hue_radians)),
        }
    }
}

/// The CAM16 colour of `solve_to_int`.
#[verifier::opaque]
pub open spec fn solve_to_cam_spec(hue_degrees: Fixed, chroma: Fixed, lstar: Fixed) -> Cam16 {
    Cam16::from_int(solve_to_int(hue_degrees, chroma, lstar))
}

#[verifier::when_used_as_spec(solve_to_cam_spec)]
pub fn solve_to_cam(hue_degrees: Fixed, chroma: Fixed, lstar: Fixed) -> (out: Cam16)
    ensures
        out == solve_to_cam_spec(hue_degrees, chroma, lstar),
{
    proof {
        reveal(solve_to_cam_spec);
    }
    Cam16::from_int(solve_to_int(hue_degrees, chroma, lstar))
}

} // verus!
