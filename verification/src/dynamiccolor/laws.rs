//! What the rules for resolving tones keep: distances between the roles of
//! a pair, and backgrounds out of the awkward middle tones.
use vstd::prelude::*;
use crate::dynamiccolor::color_calculation_spec::ToneInputs;
use crate::dynamiccolor::color_calculation_spec_2021::{
    clamp_tone, is_awkward, ColorCalculationSpec2021, PairTones,
};
use crate::dynamiccolor::color_calculation_spec_2025::ColorCalculationSpec2025;
use crate::dynamiccolor::dynamic_color::RoleDefinition;
use crate::dynamiccolor::dynamic_scheme::DynamicScheme;
use crate::dynamiccolor::tone_delta_pair::DeltaConstraint;
use crate::fixed::{Fixed, SCALE};

verus! {

/// Whether a tone lies within 0 and 100.
pub open spec fn is_tone(tone: Fixed) -> bool {
    0 <= tone.raw <= 100 * SCALE
}

/// Under the rules of 2025 a tone at an exact distance is at that
/// distance from its reference, where the range of tones has room for it.
pub proof fn lemma_exact_distance_is_kept(self_tone: Fixed, reference_tone: Fixed, relative_delta: Fixed)
    requires
        is_tone(reference_tone),
        is_tone(reference_tone.plus(relative_delta)),
        -100 * SCALE <= relative_delta.raw <= 100 * SCALE,
    ensures
        ColorCalculationSpec2025::at_distance(
            self_tone,
            reference_tone,
            relative_delta,
            DeltaConstraint::Exact,
        ).raw == reference_tone.raw + relative_delta.raw,
{
}

/// Under the rules of 2025 a tone that is to be farther from its
/// reference than a distance is at least that far from it, on the side
/// that the sign of the distance names, where the range of tones has room
/// for it.
pub proof fn lemma_farther_distance_is_kept(self_tone: Fixed, reference_tone: Fixed, relative_delta: Fixed)
    requires
        is_tone(reference_tone),
        is_tone(reference_tone.plus(relative_delta)),
        -100 * SCALE <= relative_delta.raw <= 100 * SCALE,
    ensures
        relative_delta.raw > 0 ==> reference_tone.raw + relative_delta.raw
            <= ColorCalculationSpec2025::at_distance(
            self_tone,
            reference_tone,
            relative_delta,
            DeltaConstraint::Farther,
        ).raw <= 100 * SCALE,
        relative_delta.raw <= 0 ==> 0 <= ColorCalculationSpec2025::at_distance(
            self_tone,
            reference_tone,
            relative_delta,
            DeltaConstraint::Farther,
        ).raw <= reference_tone.raw + relative_delta.raw,
{
}

/// Under the rules of 2025 a tone that is to be nearer to its reference
/// than a distance lies between the reference and the reference moved by
/// the distance.
pub proof fn lemma_nearer_distance_is_kept(self_tone: Fixed, reference_tone: Fixed, relative_delta: Fixed)
    requires
        is_tone(reference_tone),
        is_tone(reference_tone.plus(relative_delta)),
        -100 * SCALE <= relative_delta.raw <= 100 * SCALE,
    ensures
        relative_delta.raw > 0 ==> reference_tone.raw <= ColorCalculationSpec2025::at_distance(
            self_tone,
            reference_tone,
            relative_delta,
            DeltaConstraint::Nearer,
        ).raw <= reference_tone.raw + relative_delta.raw,
        relative_delta.raw <= 0 ==> reference_tone.raw + relative_delta.raw
            <= ColorCalculationSpec2025::at_distance(
            self_tone,
            reference_tone,
            relative_delta,
            DeltaConstraint::Nearer,
        ).raw <= reference_tone.raw,
{
}

/// Under the rules of 2025 no background lies among the awkward tones:
/// a background role that is not one of the dimmer fixed accents is
/// resolved to a tone of at most 49 or at least 65.
pub proof fn lemma_backgrounds_of_2025_avoid_the_middle(tone: Fixed, definition: &RoleDefinition)
    requires
        definition.is_background,
        !definition.role.is_fixed_dim(),
    ensures
        ColorCalculationSpec2025::out_of_the_middle(tone, definition).raw <= 49 * SCALE
            || ColorCalculationSpec2025::out_of_the_middle(tone, definition).raw >= 65 * SCALE,
        is_tone(ColorCalculationSpec2025::out_of_the_middle(tone, definition)),
{
}

/// Under the rules of 2021 no background with a contrast to keep lies
/// among the awkward tones: a background role with one background, a
/// contrast curve and no pair is resolved to a tone that is not from 50
/// up to 60.
pub proof fn lemma_backgrounds_of_2021_avoid_the_middle(scheme: &DynamicScheme, definition: &RoleDefinition, inputs: &ToneInputs)
    requires
        definition.is_background,
        inputs.background.is_some(),
        inputs.second_background.is_none(),
        definition.contrast_curve.is_some(),
    ensures
        !is_awkward(ColorCalculationSpec2021::single_tone(scheme, definition, inputs)),
{
}

/// Under the rules of 2021 the roles of a pair keep their distance after
/// they have been moved apart, unless the range of tones ends first: the
/// farther tone is at least the distance beyond the nearer one, or the
/// nearer tone has been moved back to the end of the range.
pub proof fn lemma_pairs_of_2021_are_moved_apart(tones: PairTones, delta: Fixed, expansion_dir: i64)
    requires
        is_tone(tones.nearer),
        is_tone(tones.farther),
        0 <= delta.raw <= 100 * SCALE,
        expansion_dir == 1 || expansion_dir == -1,
    ensures
        ({
            let moved = ColorCalculationSpec2021::moved_apart(tones, delta, expansion_dir);
            &&& is_tone(moved.nearer)
            &&& is_tone(moved.farther)
            &&& (moved.farther.raw - moved.nearer.raw) * expansion_dir >= delta.raw
                || moved.nearer == clamp_tone(
                moved.farther.minus(delta.times_int(expansion_dir)),
            )
        }),
{
    assert(delta.times_int(expansion_dir).raw == delta.raw * expansion_dir) by {
        if expansion_dir == 1 {
            assert(delta.raw * 1 == delta.raw);
        } else {
            assert(delta.raw * -1 == -delta.raw);
        }
    }
}

/// Under the rules of 2021 the nearer role of a pair leaves the awkward
/// tones: after the last round its tone is not from 50 up to 60.
pub proof fn lemma_nearer_of_2021_avoids_the_middle(tones: PairTones, delta: Fixed, expansion_dir: i64, stay_together: bool)
    ensures
        !is_awkward(
            ColorCalculationSpec2021::out_of_the_middle(
                tones,
                delta,
                expansion_dir,
                stay_together,
            ).nearer,
        ),
{
}

} // verus!
