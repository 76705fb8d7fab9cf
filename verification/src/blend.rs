//! Blending one colour towards another.
use vstd::prelude::*;
use crate::fixed::{fx, Fixed, HALF, MINUS_ONE, SCALE};
use crate::hct::cam16::Cam16;
use crate::hct::hct::Hct;
use crate::utils::color::{is_opaque, lstar_from_argb};
use crate::utils::math::{
    difference_degrees, rotation_direction, sanitize_degrees, FULL_TURN, HALF_TURN,
};

verus! {

/// The most, in degrees, that harmonizing turns a hue.
pub const MAX_ROTATION: i64 = 15;

/// The hue `from` turned towards the hue `to` by half their distance
/// round the circle, and by no more than 15 degrees.
pub open spec fn harmonized_hue_spec(from: Fixed, to: Fixed) -> Fixed {
    let rotation = difference_degrees(from, to).times(fx(HALF)).min(Fixed::from_int(MAX_ROTATION));
    sanitize_degrees(from.plus(rotation.times(rotation_direction(from, to))))
}

#[verifier::when_used_as_spec(harmonized_hue_spec)]
pub fn harmonized_hue(from: Fixed, to: Fixed) -> (out: Fixed)
    ensures
        out == harmonized_hue_spec(from, to),
        0 <= out.raw < crate::utils::math::FULL_TURN,
{
    let rotation = difference_degrees(from, to).times(fx(HALF)).min(Fixed::from_int(MAX_ROTATION));
    sanitize_degrees(from.plus(rotation.times(rotation_direction(from, to))))
}

/// The design colour with its hue turned towards that of the source
/// colour, its chroma and tone kept: recognizably the same colour, and
/// recognizably nearer to the source.
#[verifier::opaque]
pub open spec fn harmonize_spec(design_color: u32, source_color: u32) -> u32 {
    let from_hct = Hct::from_int(design_color);
    let to_hct = Hct::from_int(source_color);
    Hct::from(harmonized_hue(from_hct.hue, to_hct.hue), from_hct.chroma, from_hct.tone).argb
}

#[verifier::when_used_as_spec(harmonize_spec)]
pub fn harmonize(design_color: u32, source_color: u32) -> (argb: u32)
    ensures
        argb == harmonize_spec(design_color, source_color),
        is_opaque(argb),
{
    proof {
        reveal(harmonize_spec);
    }
    let from_hct = Hct::from_int(design_color);
    let to_hct = Hct::from_int(source_color);
    Hct::from(harmonized_hue(from_hct.hue, to_hct.hue), from_hct.chroma, from_hct.tone).argb
}

/// The colour at `amount` of the way from `from` to `to` along the
/// straight line between them in CAM16-UCS.
#[verifier::opaque]
pub open spec fn cam16_ucs_spec(from: u32, to: u32, amount: Fixed) -> u32 {
    let from_cam = Cam16::from_int(from);
    let to_cam = Cam16::from_int(to);
    Cam16::from_ucs(
        from_cam.jstar.plus(to_cam.jstar.minus(from_cam.jstar).times(amount)),
        from_cam.astar.plus(to_cam.astar.minus(from_cam.astar).times(amount)),
        from_cam.bstar.plus(to_cam.bstar.minus(from_cam.bstar).times(amount)),
    ).to_int()
}

#[verifier::when_used_as_spec(cam16_ucs_spec)]
pub fn cam16_ucs(from: u32, to: u32, amount: Fixed) -> (argb: u32)
    ensures
        argb == cam16_ucs_spec(from, to, amount),
        is_opaque(argb),
{
    proof {
        reveal(cam16_ucs_spec);
    }
    let from_cam = Cam16::from_int(from);
    let to_cam = Cam16::from_int(to);
    Cam16::from_ucs(
        from_cam.jstar.plus(to_cam.jstar.minus(from_cam.jstar).times(amount)),
        from_cam.astar.plus(to_cam.astar.minus(from_cam.astar).times(amount)),
        from_cam.bstar.plus(to_cam.bstar.minus(from_cam.bstar).times(amount)),
    ).to_int()
}

/// The colour `from` with its hue moved towards that of `to`: the hue is
/// that of their blend in CAM16-UCS, chroma and tone stay those of
/// `from`.
#[verifier::opaque]
pub open spec fn hct_hue_spec(from: u32, to: u32, amount: Fixed) -> u32 {
    Hct::from(
        Cam16::from_int(cam16_ucs(from, to, amount)).hue,
        Cam16::from_int(from).chroma,
        lstar_from_argb(from),
    ).argb
}

#[verifier::when_used_as_spec(hct_hue_spec)]
pub fn hct_hue(from: u32, to: u32, amount: Fixed) -> (argb: u32)
    ensures
        argb == hct_hue_spec(from, to, amount),
        is_opaque(argb),
{
    proof {
        reveal(hct_hue_spec);
    }
    Hct::from(
        Cam16::from_int(cam16_ucs(from, to, amount)).hue,
        Cam16::from_int(from).chroma,
        lstar_from_argb(from),
    ).argb
}

/// Harmonizing turns a hue by at most 15 degrees, and by at most half of
/// its distance from the hue that it is turned towards.
pub proof fn lemma_harmonized_hue_stays_near(from: Fixed, to: Fixed)
    requires
        0 <= from.raw < FULL_TURN,
        0 <= to.raw < FULL_TURN,
    ensures
        difference_degrees(from, harmonized_hue(from, to)).raw <= MAX_ROTATION * SCALE,
        2 * difference_degrees(from, harmonized_hue(from, to)).raw <= difference_degrees(
            from,
            to,
        ).raw,
{
    let distance = difference_degrees(from, to);
    assert(0 <= distance.raw <= HALF_TURN);
    let half = distance.times(fx(HALF));
    assert(distance.raw * HALF == distance.raw * 500_000_000_000);
    assert(half.raw == (distance.raw * 500_000_000_000) / (SCALE as int));
    assert(0 <= 2 * half.raw <= distance.raw);
    let rotation = half.min(Fixed::from_int(MAX_ROTATION));
    assert(0 <= rotation.raw <= 15 * SCALE);
    let direction = rotation_direction(from, to);
    let turned = from.plus(rotation.times(direction));
    assert(rotation.raw * SCALE / (SCALE as int) == rotation.raw) by (nonlinear_arith)
        requires
            SCALE == 1_000_000_000_000,
    ;
    assert(rotation.raw * MINUS_ONE / (SCALE as int) == -rotation.raw) by (nonlinear_arith)
        requires
            SCALE == 1_000_000_000_000,
            MINUS_ONE == -1_000_000_000_000,
    ;
    assert(rotation.raw * SCALE <= i128::MAX && rotation.raw * MINUS_ONE >= i128::MIN)
        by (nonlinear_arith)
        requires
            0 <= rotation.raw <= 15 * SCALE,
            SCALE == 1_000_000_000_000,
            MINUS_ONE == -1_000_000_000_000,
    ;
    assert(rotation.raw * SCALE >= 0 && rotation.raw * MINUS_ONE <= 0) by (nonlinear_arith)
        requires
            0 <= rotation.raw,
            SCALE == 1_000_000_000_000,
            MINUS_ONE == -1_000_000_000_000,
    ;
    assert(turned.raw == from.raw + rotation.raw || turned.raw == from.raw - rotation.raw);
    let out = sanitize_degrees(turned);
    let whole_turns = (turned.raw - out.raw) / (FULL_TURN as int);
    assert(turned.raw - out.raw == whole_turns * FULL_TURN) by (nonlinear_arith)
        requires
            (turned.raw - out.raw) % (FULL_TURN as int) == 0,
            whole_turns == (turned.raw - out.raw) / (FULL_TURN as int),
            FULL_TURN > 0,
    ;
    assert(-1 <= whole_turns <= 1) by (nonlinear_arith)
        requires
            turned.raw - out.raw == whole_turns * FULL_TURN,
            -2 * FULL_TURN < turned.raw - out.raw < 2 * FULL_TURN,
            FULL_TURN > 0,
    ;
}

} // verus!
