//! Contrast curves: the contrast wanted at each contrast level.
use vstd::prelude::*;
use crate::fixed::laws::{is_moderate, lemma_times_one, lemma_times_zero};
use crate::fixed::{fx, Fixed, HALF, MINUS_ONE};
use crate::utils::math::lerp;

verus! {

/// The contrast wanted at the contrast levels -1, 0, 0.5 and 1; between
/// them it changes in straight lines.
#[derive(Clone, Copy, Debug, PartialEq, Eq, Structural)]
pub struct ContrastCurve {
    pub low: Fixed,
    pub normal: Fixed,
    pub medium: Fixed,
    pub high: Fixed,
}

impl ContrastCurve {
    /// The curve with the given values at the levels -1, 0, 0.5 and 1.
    pub open spec fn spec_new(
        low: Fixed,
        normal: Fixed,
        medium: Fixed,
        high: Fixed,
    ) -> ContrastCurve {
        ContrastCurve { low, normal, medium, high }
    }

    #[verifier::when_used_as_spec(spec_new)]
    pub fn new(low: Fixed, normal: Fixed, medium: Fixed, high: Fixed) -> (out: ContrastCurve)
        ensures
            out == Self::spec_new(low, normal, medium, high),
    {
        ContrastCurve { low, normal, medium, high }
    }

    /// The value of the curve at a contrast level: `low` at -1 and below,
    /// `high` at 1 and above.
    pub open spec fn spec_get(&self, contrast_level: Fixed) -> Fixed {
        if contrast_level.le(fx(MINUS_ONE)) {
            self.low
        } else if contrast_level.lt(Fixed::from_int(0)) {
            lerp(self.low, self.normal, contrast_level.minus(fx(MINUS_ONE)))
        } else if contrast_level.lt(fx(HALF)) {
            lerp(self.normal, self.medium, contrast_level.times_int(2))
        } else if contrast_level.lt(Fixed::from_int(1)) {
            lerp(self.medium, self.high, contrast_level.minus(fx(HALF)).times_int(2))
        } else {
            self.high
        }
    }

    #[verifier::when_used_as_spec(spec_get)]
    pub fn get(&self, contrast_level: Fixed) -> (out: Fixed)
        ensures
            out == self.spec_get(contrast_level),
    {
        if contrast_level.le(fx(MINUS_ONE)) {
            self.low
        } else if contrast_level.lt(Fixed::from_int(0)) {
            lerp(self.low, self.normal, contrast_level.minus(fx(MINUS_ONE)))
        } else if contrast_level.lt(fx(HALF)) {
            lerp(self.normal, self.medium, contrast_level.times_int(2))
        } else if contrast_level.lt(Fixed::from_int(1)) {
            lerp(self.medium, self.high, contrast_level.minus(fx(HALF)).times_int(2))
        } else {
            self.high
        }
    }
}

/// At the levels -1, 0, 0.5 and 1 a curve has exactly its four values.
pub proof fn lemma_curve_passes_through_its_values(curve: ContrastCurve)
    requires
        is_moderate(curve.normal),
        is_moderate(curve.medium),
    ensures
        curve.get(fx(MINUS_ONE)) == curve.low,
        curve.get(Fixed::from_int(0)) == curve.normal,
        curve.get(fx(HALF)) == curve.medium,
        curve.get(Fixed::from_int(1)) == curve.high,
{
    lemma_times_one(curve.normal);
    lemma_times_one(curve.medium);
    lemma_times_zero(curve.medium);
    lemma_times_zero(curve.high);
}

} // verus!
