//! Contrast between tones.
//!
//! The contrast ratio of two colours is `(Y1 + 5) / (Y2 + 5)` for their
//! luminances `Y1 >= Y2`: from 1, for equal luminance, to 21, for white on
//! black. Tone, the L* of a colour, determines its luminance, so a ratio
//! can be asked of tones, and the tone that reaches a ratio can be
//! computed.
use vstd::prelude::*;
use crate::fixed::{fx, Fixed, MINUS_ONE};
use crate::utils::color::{lstar_from_y, y_from_lstar};

verus! {

/// The least contrast ratio of two colours, in raw units: 1.
pub const RATIO_MIN: i128 = 1_000_000_000_000;

/// The greatest contrast ratio of two colours, in raw units: 21.
pub const RATIO_MAX: i128 = 21_000_000_000_000;

/// The contrast ratio 3, in raw units.
pub const RATIO_30: i128 = 3_000_000_000_000;

/// The contrast ratio 4.5, in raw units.
pub const RATIO_45: i128 = 4_500_000_000_000;

/// The contrast ratio 7, in raw units.
pub const RATIO_70: i128 = 7_000_000_000_000;

/// 0.04: a computed luminance may miss the wanted ratio by this much and
/// still round to the same tenth.
pub const CONTRAST_RATIO_EPSILON: i128 = 40_000_000_000;

/// 0.4: by this much a returned tone is moved further from the given one,
/// so that the ratio holds although sRGB cannot show every tone exactly.
pub const LUMINANCE_GAMUT_MAP_TOLERANCE: i128 = 400_000_000_000;

/// The contrast ratio of two luminances: `(lighter + 5) / (darker + 5)`.
pub open spec fn ratio_of_ys_spec(y1: Fixed, y2: Fixed) -> Fixed {
    let lighter = y1.max(y2);
    let darker = if lighter == y2 {
        y1
    } else {
        y2
    };
    lighter.plus(Fixed::from_int(5)).over(darker.plus(Fixed::from_int(5)))
}

#[verifier::when_used_as_spec(ratio_of_ys_spec)]
pub fn ratio_of_ys(y1: Fixed, y2: Fixed) -> (out: Fixed)
    ensures
        out == ratio_of_ys_spec(y1, y2),
{
    let lighter = y1.max(y2);
    let darker = if lighter == y2 {
        y1
    } else {
        y2
    };
    lighter.plus(Fixed::from_int(5)).over(darker.plus(Fixed::from_int(5)))
}

/// The contrast ratio of two tones; each is first held within 0 and 100.
pub open spec fn ratio_of_tones_spec(t1: Fixed, t2: Fixed) -> Fixed {
    ratio_of_ys(
        y_from_lstar(t1.clamp(Fixed::from_int(0), Fixed::from_int(100))),
        y_from_lstar(t2.clamp(Fixed::from_int(0), Fixed::from_int(100))),
    )
}

#[verifier::when_used_as_spec(ratio_of_tones_spec)]
pub fn ratio_of_tones(t1: Fixed, t2: Fixed) -> (out: Fixed)
    ensures
        out == ratio_of_tones_spec(t1, t2),
{
    ratio_of_ys(
        y_from_lstar(t1.clamp(Fixed::from_int(0), Fixed::from_int(100))),
        y_from_lstar(t2.clamp(Fixed::from_int(0), Fixed::from_int(100))),
    )
}

/// Whether a number lies within 0 and 100.
pub open spec fn in_percent_range_spec(value: Fixed) -> bool {
    Fixed::from_int(0).le(value) && value.le(Fixed::from_int(100))
}

#[verifier::when_used_as_spec(in_percent_range_spec)]
pub fn in_percent_range(value: Fixed) -> (out: bool)
    ensures
        out == in_percent_range_spec(value),
{
    Fixed::from_int(0).le(value) && value.le(Fixed::from_int(100))
}

/// The luminance that has the contrast `ratio` to the luminance of `tone`
/// from above: `ratio * (Y + 5) - 5`.
pub open spec fn lighter_y_spec(tone: Fixed, ratio: Fixed) -> Fixed {
    ratio.times(y_from_lstar(tone).plus(Fixed::from_int(5))).minus(Fixed::from_int(5))
}

#[verifier::when_used_as_spec(lighter_y_spec)]
pub fn lighter_y(tone: Fixed, ratio: Fixed) -> (out: Fixed)
    ensures
        out == lighter_y_spec(tone, ratio),
{
    ratio.times(y_from_lstar(tone).plus(Fixed::from_int(5))).minus(Fixed::from_int(5))
}

/// The luminance that has the contrast `ratio` to the luminance of `tone`
/// from below: `(Y + 5) / ratio - 5`.
pub open spec fn darker_y_spec(tone: Fixed, ratio: Fixed) -> Fixed {
    y_from_lstar(tone).plus(Fixed::from_int(5)).over(ratio).minus(Fixed::from_int(5))
}

#[verifier::when_used_as_spec(darker_y_spec)]
pub fn darker_y(tone: Fixed, ratio: Fixed) -> (out: Fixed)
    ensures
        out == darker_y_spec(tone, ratio),
{
    y_from_lstar(tone).plus(Fixed::from_int(5)).over(ratio).minus(Fixed::from_int(5))
}

/// Whether a contrast that was reached falls short of the wanted ratio by
/// more than 0.04.
pub open spec fn misses_ratio_spec(real_contrast: Fixed, ratio: Fixed) -> bool {
    real_contrast.lt(ratio) && real_contrast.minus(ratio).abs().gt(fx(CONTRAST_RATIO_EPSILON))
}

#[verifier::when_used_as_spec(misses_ratio_spec)]
pub fn misses_ratio(real_contrast: Fixed, ratio: Fixed) -> (out: bool)
    ensures
        out == misses_ratio_spec(real_contrast, ratio),
{
    real_contrast.lt(ratio) && real_contrast.minus(ratio).abs().gt(fx(CONTRAST_RATIO_EPSILON))
}

/// The tone, at or above `tone`, that has the contrast `ratio` to it, or
/// -1 where there is none: where `tone` is outside 0 to 100, where the
/// luminance wanted is, where that luminance misses the ratio, or where
/// its tone, raised by 0.4, is above 100.
pub open spec fn lighter_spec(tone: Fixed, ratio: Fixed) -> Fixed {
    if !in_percent_range(tone) {
        fx(MINUS_ONE)
    } else {
        let light_y = lighter_y(tone, ratio);
        if !in_percent_range(light_y) {
            fx(MINUS_ONE)
        } else if misses_ratio(ratio_of_ys(light_y, y_from_lstar(tone)), ratio) {
            fx(MINUS_ONE)
        } else {
            let return_value = lstar_from_y(light_y).plus(fx(LUMINANCE_GAMUT_MAP_TOLERANCE));
            if !in_percent_range(return_value) {
                fx(MINUS_ONE)
            } else {
                return_value
            }
        }
    }
}

#[verifier::when_used_as_spec(lighter_spec)]
pub fn lighter(tone: Fixed, ratio: Fixed) -> (out: Fixed)
    ensures
        out == lighter_spec(tone, ratio),
        out == fx(MINUS_ONE) || in_percent_range(out),
        out != fx(MINUS_ONE) ==> in_percent_range(tone) && in_percent_range(lighter_y(tone, ratio))
            && !misses_ratio(ratio_of_ys(lighter_y(tone, ratio), y_from_lstar(tone)), ratio),
{
    if !in_percent_range(tone) {
        fx(MINUS_ONE)
    } else {
        let light_y = lighter_y(tone, ratio);
        if !in_percent_range(light_y) {
            fx(MINUS_ONE)
        } else if misses_ratio(ratio_of_ys(light_y, y_from_lstar(tone)), ratio) {
            fx(MINUS_ONE)
        } else {
            let return_value = lstar_from_y(light_y).plus(fx(LUMINANCE_GAMUT_MAP_TOLERANCE));
            if !in_percent_range(return_value) {
                fx(MINUS_ONE)
            } else {
                return_value
            }
        }
    }
}

/// The tone of `lighter`, or 100 where there is none: a tone within 0 and
/// 100 that may not reach the ratio.
pub open spec fn lighter_unsafe_spec(tone: Fixed, ratio: Fixed) -> Fixed {
    let lighter_safe = lighter(tone, ratio);
    if lighter_safe.lt(Fixed::from_int(0)) {
        Fixed::from_int(100)
    } else {
        lighter_safe
    }
}

#[verifier::when_used_as_spec(lighter_unsafe_spec)]
pub fn lighter_unsafe(tone: Fixed, ratio: Fixed) -> (out: Fixed)
    ensures
        out == lighter_unsafe_spec(tone, ratio),
        in_percent_range(out),
{
    let lighter_safe = lighter(tone, ratio);
    if lighter_safe.lt(Fixed::from_int(0)) {
        Fixed::from_int(100)
    } else {
        lighter_safe
    }
}

/// The tone, at or below `tone`, that has the contrast `ratio` to it, or
/// -1 where there is none: where `tone` is outside 0 to 100, where the
/// luminance wanted is, where that luminance misses the ratio, or where
/// its tone, lowered by 0.4, is below 0.
pub open spec fn darker_spec(tone: Fixed, ratio: Fixed) -> Fixed {
    if !in_percent_range(tone) {
        fx(MINUS_ONE)
    } else {
        let dark_y = darker_y(tone, ratio);
        if !in_percent_range(dark_y) {
            fx(MINUS_ONE)
        } else if misses_ratio(ratio_of_ys(y_from_lstar(tone), dark_y), ratio) {
            fx(MINUS_ONE)
        } else {
            let return_value = lstar_from_y(dark_y).minus(fx(LUMINANCE_GAMUT_MAP_TOLERANCE));
            if !in_percent_range(return_value) {
                fx(MINUS_ONE)
            } else {
                return_value
            }
        }
    }
}

#[verifier::when_used_as_spec(darker_spec)]
pub fn darker(tone: Fixed, ratio: Fixed) -> (out: Fixed)
    ensures
        out == darker_spec(tone, ratio),
        out == fx(MINUS_ONE) || in_percent_range(out),
        out != fx(MINUS_ONE) ==> in_percent_range(tone) && in_percent_range(darker_y(tone, ratio))
            && !misses_ratio(ratio_of_ys(y_from_lstar(tone), darker_y(tone, ratio)), ratio),
{
    if !in_percent_range(tone) {
        fx(MINUS_ONE)
    } else {
        let dark_y = darker_y(tone, ratio);
        if !in_percent_range(dark_y) {
            fx(MINUS_ONE)
        } else if misses_ratio(ratio_of_ys(y_from_lstar(tone), dark_y), ratio) {
            fx(MINUS_ONE)
        } else {
            let return_value = lstar_from_y(dark_y).minus(fx(LUMINANCE_GAMUT_MAP_TOLERANCE));
            if !in_percent_range(return_value) {
                fx(MINUS_ONE)
            } else {
                return_value
            }
        }
    }
}

/// The tone of `darker`, or 0 where there is none: a tone within 0 and
/// 100 that may not reach the ratio.
pub open spec fn darker_unsafe_spec(tone: Fixed, ratio: Fixed) -> Fixed {
    darker(tone, ratio).max(Fixed::from_int(0))
}

#[verifier::when_used_as_spec(darker_unsafe_spec)]
pub fn darker_unsafe(tone: Fixed, ratio: Fixed) -> (out: Fixed)
    ensures
        out == darker_unsafe_spec(tone, ratio),
        in_percent_range(out),
{
    darker(tone, ratio).max(Fixed::from_int(0))
}

/// The contrast ratio of two luminances does not depend on their order.
pub proof fn lemma_ratio_of_ys_is_symmetric(y1: Fixed, y2: Fixed)
    ensures
        ratio_of_ys(y1, y2) == ratio_of_ys(y2, y1),
{
}

/// The contrast ratio of two tones does not depend on their order.
pub proof fn lemma_ratio_of_tones_is_symmetric(t1: Fixed, t2: Fixed)
    ensures
        ratio_of_tones(t1, t2) == ratio_of_tones(t2, t1),
{
    lemma_ratio_of_ys_is_symmetric(
        y_from_lstar(t1.clamp(Fixed::from_int(0), Fixed::from_int(100))),
        y_from_lstar(t2.clamp(Fixed::from_int(0), Fixed::from_int(100))),
    );
}

/// Tones outside 0 to 100 count as the nearest of the two.
pub proof fn lemma_ratio_of_tones_clamps(t1: Fixed, t2: Fixed)
    ensures
        ratio_of_tones(t1, t2) == ratio_of_tones(
            t1.clamp(Fixed::from_int(0), Fixed::from_int(100)),
            t2.clamp(Fixed::from_int(0), Fixed::from_int(100)),
        ),
{
}

/// Where a tone is outside 0 to 100, no tone is lighter or darker by any
/// ratio.
pub proof fn lemma_out_of_range_tone_has_no_answer(tone: Fixed, ratio: Fixed)
    requires
        !in_percent_range(tone),
    ensures
        lighter(tone, ratio) == fx(MINUS_ONE),
        darker(tone, ratio) == fx(MINUS_ONE),
        lighter_unsafe(tone, ratio) == Fixed::from_int(100),
        darker_unsafe(tone, ratio) == Fixed::from_int(0),
{
}

} // verus!
