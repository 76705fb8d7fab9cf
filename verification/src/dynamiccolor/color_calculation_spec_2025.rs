//! The rules of 2025 for resolving the tone of a role.
use vstd::prelude::*;
use crate::contrast::ratio_of_tones;
use crate::dynamiccolor::color_calculation_spec::{ColorCalculationSpec, PairInputs, ToneInputs};
use crate::dynamiccolor::color_calculation_spec_2021::{clamp_tone, ColorCalculationSpec2021};
use crate::dynamiccolor::contrast_curve::ContrastCurve;
use crate::dynamiccolor::dynamic_color::{DynamicColor, RoleDefinition};
use crate::dynamiccolor::dynamic_scheme::DynamicScheme;
use crate::dynamiccolor::tone_delta_pair::{DeltaConstraint, ToneDeltaPair, TonePolarity};
use crate::fixed::Fixed;
use crate::hct::hct::Hct;
use crate::utils::color::is_opaque;

verus! {

/// The rules of 2025 for resolving tones.
///
/// A role of a pair first takes its distance from the resolved tone of
/// its partner, then either kind of role is given the contrast that it
/// needs against its background, and a background role is moved out of
/// the tones from 50 to 65.
#[derive(Clone, Copy, Debug, Default, PartialEq, Eq, Structural)]
pub struct ColorCalculationSpec2025;

impl ColorCalculationSpec2025 {
    /// The rule set.
    pub fn new() -> (out: Self)
        ensures
            out == ColorCalculationSpec2025,
    {
        ColorCalculationSpec2025
    }

    /// The distance of a pair with its sign: negative where the first
    /// role is to be the darker one.
    pub open spec fn spec_absolute_delta(pair: &ToneDeltaPair, is_dark: bool) -> Fixed {
        if pair.polarity == TonePolarity::Darker || (pair.polarity == TonePolarity::RelativeLighter
            && is_dark) || (pair.polarity == TonePolarity::RelativeDarker && !is_dark) {
            pair.delta.neg()
        } else {
            pair.delta
        }
    }

    #[verifier::when_used_as_spec(spec_absolute_delta)]
    pub fn absolute_delta(pair: &ToneDeltaPair, is_dark: bool) -> (out: Fixed)
        ensures
            out == Self::spec_absolute_delta(pair, is_dark),
    {
        if pair.polarity == TonePolarity::Darker || (pair.polarity == TonePolarity::RelativeLighter
            && is_dark) || (pair.polarity == TonePolarity::RelativeDarker && !is_dark) {
            pair.delta.neg()
        } else {
            pair.delta
        }
    }

    /// A tone brought to its distance from a reference tone.
    /// `relative_delta` is the distance wanted, positive where the tone is
    /// to be the lighter one.
    pub open spec fn spec_at_distance(
        self_tone: Fixed,
        reference_tone: Fixed,
        relative_delta: Fixed,
        constraint: DeltaConstraint,
    ) -> Fixed {
        match constraint {
            DeltaConstraint::Exact => clamp_tone(reference_tone.plus(relative_delta)),
            DeltaConstraint::Nearer => if relative_delta.gt(Fixed::from_int(0)) {
                clamp_tone(self_tone.clamp(reference_tone, reference_tone.plus(relative_delta)))
            } else {
                clamp_tone(self_tone.clamp(reference_tone.plus(relative_delta), reference_tone))
            },
            DeltaConstraint::Farther => if relative_delta.gt(Fixed::from_int(0)) {
                self_tone.clamp(reference_tone.plus(relative_delta), Fixed::from_int(100))
            } else {
                self_tone.clamp(Fixed::from_int(0), reference_tone.plus(relative_delta))
            },
        }
    }

    #[verifier::when_used_as_spec(spec_at_distance)]
    pub fn at_distance(
        self_tone: Fixed,
        reference_tone: Fixed,
        relative_delta: Fixed,
        constraint: DeltaConstraint,
    ) -> (out: Fixed)
        ensures
            out == Self::spec_at_distance(self_tone, reference_tone, relative_delta, constraint),
    {
        match constraint {
            DeltaConstraint::Exact => clamp_tone(reference_tone.plus(relative_delta)),
            DeltaConstraint::Nearer => if relative_delta.gt(Fixed::from_int(0)) {
                clamp_tone(self_tone.clamp(reference_tone, reference_tone.plus(relative_delta)))
            } else {
                clamp_tone(self_tone.clamp(reference_tone.plus(relative_delta), reference_tone))
            },
            DeltaConstraint::Farther => if relative_delta.gt(Fixed::from_int(0)) {
                self_tone.clamp(reference_tone.plus(relative_delta), Fixed::from_int(100))
            } else {
                self_tone.clamp(Fixed::from_int(0), reference_tone.plus(relative_delta))
            },
        }
    }

    /// A tone with the contrast of a curve to a background: the tone
    /// itself where it has that contrast and the contrast level is not
    /// negative, else the foreground tone that just has it.
    pub open spec fn spec_with_contrast(
        tone: Fixed,
        bg_tone: Fixed,
        curve: &ContrastCurve,
        contrast_level: Fixed,
    ) -> Fixed {
        if ratio_of_tones(bg_tone, tone).ge(curve.get(contrast_level)) && contrast_level.ge(
            Fixed::from_int(0),
        ) {
            tone
        } else {
            DynamicColor::foreground_tone(bg_tone, curve.get(contrast_level))
        }
    }

    #[verifier::when_used_as_spec(spec_with_contrast)]
    pub fn with_contrast(
        tone: Fixed,
        bg_tone: Fixed,
        curve: &ContrastCurve,
        contrast_level: Fixed,
    ) -> (out: Fixed)
        ensures
            out == Self::spec_with_contrast(tone, bg_tone, curve, contrast_level),
    {
        if ratio_of_tones(bg_tone, tone).ge(curve.get(contrast_level)) && contrast_level.ge(
            Fixed::from_int(0),
        ) {
            tone
        } else {
            DynamicColor::foreground_tone(bg_tone, curve.get(contrast_level))
        }
    }

    /// The tone of a background role moved out of the awkward tones:
    /// tones from 57 on become at least 65, lower ones at most 49. The
    /// dimmer fixed accents stay where they are, and so do roles that are
    /// no background.
    pub open spec fn spec_out_of_the_middle(tone: Fixed, definition: &RoleDefinition) -> Fixed {
        if definition.is_background && !definition.role.is_fixed_dim() {
            if tone.ge(Fixed::from_int(57)) {
                tone.clamp(Fixed::from_int(65), Fixed::from_int(100))
            } else {
                tone.clamp(Fixed::from_int(0), Fixed::from_int(49))
            }
        } else {
            tone
        }
    }

    #[verifier::when_used_as_spec(spec_out_of_the_middle)]
    pub fn out_of_the_middle(tone: Fixed, definition: &RoleDefinition) -> (out: Fixed)
        ensures
            out == Self::spec_out_of_the_middle(tone, definition),
    {
        if definition.is_background && !definition.role.is_fixed_dim() {
            if tone.ge(Fixed::from_int(57)) {
                tone.clamp(Fixed::from_int(65), Fixed::from_int(100))
            } else {
                tone.clamp(Fixed::from_int(0), Fixed::from_int(49))
            }
        } else {
            tone
        }
    }

    /// The tone of a role of a pair.
    pub open spec fn spec_pair_tone(
        scheme: &DynamicScheme,
        definition: &RoleDefinition,
        pair: &ToneDeltaPair,
        inputs: &ToneInputs,
        of_pair: &PairInputs,
    ) -> Fixed {
        let am_role_a = definition.role == pair.role_a;
        let placed = Self::at_distance(
            if am_role_a {
                of_pair.a_nominal
            } else {
                of_pair.b_nominal
            },
            of_pair.reference_tone,
            if am_role_a {
                Self::absolute_delta(pair, scheme.is_dark)
            } else {
                Self::absolute_delta(pair, scheme.is_dark).neg()
            },
            pair.constraint,
        );
        let solved = match (inputs.background, definition.contrast_curve) {
            (Some(bg_tone), Some(curve)) => Self::with_contrast(
                placed,
                bg_tone,
                &curve,
                scheme.contrast_level,
            ),
            _ => placed,
        };
        Self::out_of_the_middle(solved, definition)
    }

    #[verifier::when_used_as_spec(spec_pair_tone)]
    pub fn pair_tone(
        scheme: &DynamicScheme,
        definition: &RoleDefinition,
        pair: &ToneDeltaPair,
        inputs: &ToneInputs,
        of_pair: &PairInputs,
    ) -> (out: Fixed)
        ensures
            out == Self::spec_pair_tone(scheme, definition, pair, inputs, of_pair),
    {
        let am_role_a = definition.role == pair.role_a;
        let placed = Self::at_distance(
            if am_role_a {
                of_pair.a_nominal
            } else {
                of_pair.b_nominal
            },
            of_pair.reference_tone,
            if am_role_a {
                Self::absolute_delta(pair, scheme.is_dark)
            } else {
                Self::absolute_delta(pair, scheme.is_dark).neg()
            },
            pair.constraint,
        );
        let solved = match (inputs.background, definition.contrast_curve) {
            (Some(bg_tone), Some(curve)) => Self::with_contrast(
                placed,
                bg_tone,
                &curve,
                scheme.contrast_level,
            ),
            _ => placed,
        };
        Self::out_of_the_middle(solved, definition)
    }

    /// The tone of a role that belongs to no pair, against its
    /// background or both of its backgrounds.
    pub open spec fn spec_single_tone(
        scheme: &DynamicScheme,
        definition: &RoleDefinition,
        inputs: &ToneInputs,
    ) -> Fixed {
        match (inputs.background, definition.contrast_curve) {
            (Some(bg_tone), Some(curve)) => {
                let answer = Self::out_of_the_middle(
                    Self::with_contrast(inputs.nominal, bg_tone, &curve, scheme.contrast_level),
                    definition,
                );
                match inputs.second_background {
                    Some(bg_tone_2) => ColorCalculationSpec2021::dual_background_tone(
                        answer,
                        bg_tone,
                        bg_tone_2,
                        curve.get(scheme.contrast_level),
                    ),
                    None => answer,
                }
            },
            _ => inputs.nominal,
        }
    }

    #[verifier::when_used_as_spec(spec_single_tone)]
    pub fn single_tone(
        scheme: &DynamicScheme,
        definition: &RoleDefinition,
        inputs: &ToneInputs,
    ) -> (out: Fixed)
        ensures
            out == Self::spec_single_tone(scheme, definition, inputs),
    {
        match (inputs.background, definition.contrast_curve) {
            (Some(bg_tone), Some(curve)) => {
                let answer = Self::out_of_the_middle(
                    Self::with_contrast(inputs.nominal, bg_tone, &curve, scheme.contrast_level),
                    definition,
                );
                match inputs.second_background {
                    Some(bg_tone_2) => ColorCalculationSpec2021::dual_background_tone(
                        answer,
                        bg_tone,
                        bg_tone_2,
                        curve.get(scheme.contrast_level),
                    ),
                    None => answer,
                }
            },
            _ => inputs.nominal,
        }
    }

    /// The resolved tone of a role, from its definition and the tones of
    /// the roles that it refers to.
    pub open spec fn spec_tone(
        scheme: &DynamicScheme,
        definition: &RoleDefinition,
        inputs: &ToneInputs,
    ) -> Fixed {
        match (definition.tone_delta_pair, inputs.pair) {
            (Some(pair), Some(of_pair)) => Self::pair_tone(
                scheme,
                definition,
                &pair,
                inputs,
                &of_pair,
            ),
            _ => Self::single_tone(scheme, definition, inputs),
        }
    }

    #[verifier::when_used_as_spec(spec_tone)]
    pub fn tone(
        scheme: &DynamicScheme,
        definition: &RoleDefinition,
        inputs: &ToneInputs,
    ) -> (out: Fixed)
        ensures
            out == Self::spec_tone(scheme, definition, inputs),
    {
        match (definition.tone_delta_pair, inputs.pair) {
            (Some(pair), Some(of_pair)) => Self::pair_tone(
                scheme,
                definition,
                &pair,
                inputs,
                &of_pair,
            ),
            _ => Self::single_tone(scheme, definition, inputs),
        }
    }

    /// The colour of a role at a tone: the hue of its palette, the chroma
    /// of its palette times the role's factor.
    pub open spec fn spec_hct(
        scheme: &DynamicScheme,
        definition: &RoleDefinition,
        tone: Fixed,
    ) -> Hct {
        Hct::from(
            scheme.palette(definition.palette).hue,
            scheme.palette(definition.palette).chroma.times(definition.chroma_multiplier),
            tone,
        )
    }

    #[verifier::when_used_as_spec(spec_hct)]
    pub fn hct(scheme: &DynamicScheme, definition: &RoleDefinition, tone: Fixed) -> (out: Hct)
        ensures
            out == Self::spec_hct(scheme, definition, tone),
            out.wf(),
            is_opaque(out.argb),
    {
        Hct::from(
            scheme.palette(definition.palette).hue,
            scheme.palette(definition.palette).chroma.times(definition.chroma_multiplier),
            tone,
        )
    }
}

impl ColorCalculationSpec for ColorCalculationSpec2025 {
    fn get_hct(&self, scheme: &DynamicScheme, definition: &RoleDefinition, tone: Fixed) -> (out: Hct)
        ensures
            out == ColorCalculationSpec2025::hct(scheme, definition, tone),
    {
        ColorCalculationSpec2025::hct(scheme, definition, tone)
    }

    fn get_tone(&self, scheme: &DynamicScheme, definition: &RoleDefinition, inputs: &ToneInputs) -> (out: Fixed)
        ensures
            out == ColorCalculationSpec2025::tone(scheme, definition, inputs),
    {
        ColorCalculationSpec2025::tone(scheme, definition, inputs)
    }
}

} // verus!
