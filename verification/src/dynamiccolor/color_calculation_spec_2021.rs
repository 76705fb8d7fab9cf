//! The rules of 2021 for resolving the tone of a role.
use vstd::prelude::*;
use crate::contrast::{darker, lighter, ratio_of_tones};
use crate::dynamiccolor::color_calculation_spec::{ColorCalculationSpec, PairInputs, ToneInputs};
use crate::dynamiccolor::contrast_curve::ContrastCurve;
use crate::dynamiccolor::dynamic_color::{DynamicColor, RoleDefinition};
use crate::dynamiccolor::dynamic_scheme::DynamicScheme;
use crate::dynamiccolor::tone_delta_pair::{DeltaConstraint, ToneDeltaPair, TonePolarity};
use crate::fixed::{fx, Fixed, MINUS_ONE};
use crate::hct::hct::Hct;
use crate::utils::color::is_opaque;

verus! {

/// The rules of 2021 for resolving tones.
///
/// A role of a pair is resolved together with its partner: each is first
/// given the contrast that it needs, then the two are moved apart until
/// they keep their distance, then both are moved out of the tones from 50
/// to 60, where neither light nor dark text reads well. Any other role is
/// given the contrast that it needs against its background, or against
/// both of its backgrounds.
#[derive(Clone, Copy, Debug, Default, PartialEq, Eq, Structural)]
pub struct ColorCalculationSpec2021;

/// The tones of the nearer and the farther role of a pair.
#[derive(Clone, Copy, Debug, PartialEq, Eq, Structural)]
pub struct PairTones {
    pub nearer: Fixed,
    pub farther: Fixed,
}

/// Whether a tone is one of the awkward middle tones, from 50 up to, not
/// including, 60.
pub open spec fn is_awkward_spec(tone: Fixed) -> bool {
    tone.ge(Fixed::from_int(50)) && tone.lt(Fixed::from_int(60))
}

#[verifier::when_used_as_spec(is_awkward_spec)]
pub fn is_awkward(tone: Fixed) -> (out: bool)
    ensures
        out == is_awkward_spec(tone),
{
    tone.ge(Fixed::from_int(50)) && tone.lt(Fixed::from_int(60))
}

/// A number held within 0 and 100.
pub open spec fn clamp_tone_spec(tone: Fixed) -> Fixed {
    tone.clamp(Fixed::from_int(0), Fixed::from_int(100))
}

#[verifier::when_used_as_spec(clamp_tone_spec)]
pub fn clamp_tone(tone: Fixed) -> (out: Fixed)
    ensures
        out == clamp_tone_spec(tone),
        0 <= out.raw <= 100_000_000_000_000,
{
    tone.clamp(Fixed::from_int(0), Fixed::from_int(100))
}

impl ColorCalculationSpec2021 {
    /// The rule set.
    pub fn new() -> (out: Self)
        ensures
            out == ColorCalculationSpec2021,
    {
        ColorCalculationSpec2021
    }

    /// Whether the first role of a pair is the one nearer to the surface.
    pub open spec fn spec_a_is_nearer(pair: &ToneDeltaPair, is_dark: bool) -> bool {
        pair.constraint == DeltaConstraint::Nearer || (pair.polarity == TonePolarity::Ligher
            && !is_dark) || (pair.polarity == TonePolarity::Darker && !is_dark)
    }

    #[verifier::when_used_as_spec(spec_a_is_nearer)]
    pub fn a_is_nearer(pair: &ToneDeltaPair, is_dark: bool) -> (out: bool)
        ensures
            out == Self::spec_a_is_nearer(pair, is_dark),
    {
        pair.constraint == DeltaConstraint::Nearer || (pair.polarity == TonePolarity::Ligher
            && !is_dark) || (pair.polarity == TonePolarity::Darker && !is_dark)
    }

    /// A tone with the contrast `wanted` to a background: the tone itself
    /// where it has that contrast and contrast is not being lowered, else
    /// the foreground tone that just has it.
    pub open spec fn spec_with_contrast(
        tone: Fixed,
        bg_tone: Fixed,
        wanted: Fixed,
        decreasing_contrast: bool,
    ) -> Fixed {
        if decreasing_contrast || ratio_of_tones(bg_tone, tone).lt(wanted) {
            DynamicColor::foreground_tone(bg_tone, wanted)
        } else {
            tone
        }
    }

    #[verifier::when_used_as_spec(spec_with_contrast)]
    pub fn with_contrast(
        tone: Fixed,
        bg_tone: Fixed,
        wanted: Fixed,
        decreasing_contrast: bool,
    ) -> (out: Fixed)
        ensures
            out == Self::spec_with_contrast(tone, bg_tone, wanted, decreasing_contrast),
    {
        if decreasing_contrast || ratio_of_tones(bg_tone, tone).lt(wanted) {
            DynamicColor::foreground_tone(bg_tone, wanted)
        } else {
            tone
        }
    }

    /// The first round for a pair: each of the two is given its contrast
    /// to the background, where there is a background and both have a
    /// contrast curve.
    pub open spec fn spec_solved_to_contrast(
        tones: PairTones,
        bg_tone: Option<Fixed>,
        nearer_curve: Option<ContrastCurve>,
        farther_curve: Option<ContrastCurve>,
        contrast_level: Fixed,
    ) -> PairTones {
        match (bg_tone, nearer_curve, farther_curve) {
            (Some(bg), Some(n_curve), Some(f_curve)) => PairTones {
                nearer: Self::with_contrast(
                    tones.nearer,
                    bg,
                    n_curve.get(contrast_level),
                    contrast_level.lt(Fixed::from_int(0)),
                ),
                farther: Self::with_contrast(
                    tones.farther,
                    bg,
                    f_curve.get(contrast_level),
                    contrast_level.lt(Fixed::from_int(0)),
                ),
            },
            _ => tones,
        }
    }

    #[verifier::when_used_as_spec(spec_solved_to_contrast)]
    pub fn solved_to_contrast(
        tones: PairTones,
        bg_tone: Option<Fixed>,
        nearer_curve: Option<ContrastCurve>,
        farther_curve: Option<ContrastCurve>,
        contrast_level: Fixed,
    ) -> (out: PairTones)
        ensures
            out == Self::spec_solved_to_contrast(tones, bg_tone, nearer_curve, farther_curve, contrast_level),
    {
        match (bg_tone, nearer_curve, farther_curve) {
            (Some(bg), Some(n_curve), Some(f_curve)) => PairTones {
                nearer: Self::with_contrast(
                    tones.nearer,
                    bg,
                    n_curve.get(contrast_level),
                    contrast_level.lt(Fixed::from_int(0)),
                ),
                farther: Self::with_contrast(
                    tones.farther,
                    bg,
                    f_curve.get(contrast_level),
                    contrast_level.lt(Fixed::from_int(0)),
                ),
            },
            _ => tones,
        }
    }

    /// The second and third round for a pair: where the two are nearer
    /// than `delta`, the farther one is moved away from the nearer, and
    /// where the range of tones does not allow that, the nearer one is
    /// moved back. `expansion_dir` is 1 where farther means lighter, and
    /// -1 where it means darker.
    pub open spec fn spec_moved_apart(
        tones: PairTones,
        delta: Fixed,
        expansion_dir: i64,
    ) -> PairTones {
        if tones.farther.minus(tones.nearer).times_int(expansion_dir).lt(delta) {
            let farther = clamp_tone(tones.nearer.plus(delta.times_int(expansion_dir)));
            if farther.minus(tones.nearer).times_int(expansion_dir).lt(delta) {
                PairTones {
                    nearer: clamp_tone(farther.minus(delta.times_int(expansion_dir))),
                    farther,
                }
            } else {
                PairTones { nearer: tones.nearer, farther }
            }
        } else {
            tones
        }
    }

    #[verifier::when_used_as_spec(spec_moved_apart)]
    pub fn moved_apart(tones: PairTones, delta: Fixed, expansion_dir: i64) -> (out: PairTones)
        ensures
            out == Self::spec_moved_apart(tones, delta, expansion_dir),
    {
        if tones.farther.minus(tones.nearer).times_int(expansion_dir).lt(delta) {
            let farther = clamp_tone(tones.nearer.plus(delta.times_int(expansion_dir)));
            if farther.minus(tones.nearer).times_int(expansion_dir).lt(delta) {
                PairTones {
                    nearer: clamp_tone(farther.minus(delta.times_int(expansion_dir))),
                    farther,
                }
            } else {
                PairTones { nearer: tones.nearer, farther }
            }
        } else {
            tones
        }
    }

    /// Both tones with the nearer one at the edge of the awkward tones,
    /// and the farther one at least `delta` beyond it.
    pub open spec fn spec_both_out_of_the_middle(
        tones: PairTones,
        delta: Fixed,
        expansion_dir: i64,
    ) -> PairTones {
        if expansion_dir > 0 {
            PairTones {
                nearer: Fixed::from_int(60),
                farther: tones.farther.max(
                    Fixed::from_int(60).plus(delta.times_int(expansion_dir)),
                ),
            }
        } else {
            PairTones {
                nearer: Fixed::from_int(49),
                farther: tones.farther.min(
                    Fixed::from_int(49).plus(delta.times_int(expansion_dir)),
                ),
            }
        }
    }

    #[verifier::when_used_as_spec(spec_both_out_of_the_middle)]
    pub fn both_out_of_the_middle(
        tones: PairTones,
        delta: Fixed,
        expansion_dir: i64,
    ) -> (out: PairTones)
        ensures
            out == Self::spec_both_out_of_the_middle(tones, delta, expansion_dir),
    {
        if expansion_dir > 0 {
            PairTones {
                nearer: Fixed::from_int(60),
                farther: tones.farther.max(
                    Fixed::from_int(60).plus(delta.times_int(expansion_dir)),
                ),
            }
        } else {
            PairTones {
                nearer: Fixed::from_int(49),
                farther: tones.farther.min(
                    Fixed::from_int(49).plus(delta.times_int(expansion_dir)),
                ),
            }
        }
    }

    /// The last round for a pair: no tone stays among the awkward ones.
    /// Where the nearer one is there, both move; where only the farther
    /// one is, both move if they must stay together, else it alone.
    pub open spec fn spec_out_of_the_middle(
        tones: PairTones,
        delta: Fixed,
        expansion_dir: i64,
        stay_together: bool,
    ) -> PairTones {
        if is_awkward(tones.nearer) {
            Self::both_out_of_the_middle(tones, delta, expansion_dir)
        } else if is_awkward(tones.farther) {
            if stay_together {
                Self::both_out_of_the_middle(tones, delta, expansion_dir)
            } else if expansion_dir > 0 {
                PairTones { nearer: tones.nearer, farther: Fixed::from_int(60) }
            } else {
                PairTones { nearer: tones.nearer, farther: Fixed::from_int(49) }
            }
        } else {
            tones
        }
    }

    #[verifier::when_used_as_spec(spec_out_of_the_middle)]
    pub fn out_of_the_middle(
        tones: PairTones,
        delta: Fixed,
        expansion_dir: i64,
        stay_together: bool,
    ) -> (out: PairTones)
        ensures
            out == Self::spec_out_of_the_middle(tones, delta, expansion_dir, stay_together),
    {
        if is_awkward(tones.nearer) {
            Self::both_out_of_the_middle(tones, delta, expansion_dir)
        } else if is_awkward(tones.farther) {
            if stay_together {
                Self::both_out_of_the_middle(tones, delta, expansion_dir)
            } else if expansion_dir > 0 {
                PairTones { nearer: tones.nearer, farther: Fixed::from_int(60) }
            } else {
                PairTones { nearer: tones.nearer, farther: Fixed::from_int(49) }
            }
        } else {
            tones
        }
    }

    /// The tone of a role of a pair.
    pub open spec fn spec_pair_tone(
        scheme: &DynamicScheme,
        definition: &RoleDefinition,
        pair: &ToneDeltaPair,
        inputs: &ToneInputs,
        of_pair: &PairInputs,
    ) -> Fixed {
        let expansion_dir: i64 = if scheme.is_dark {
            1
        } else {
            -1i64
        };
        let start = if Self::a_is_nearer(pair, scheme.is_dark) {
            PairTones { nearer: of_pair.a_nominal, farther: of_pair.b_nominal }
        } else {
            PairTones { nearer: of_pair.b_nominal, farther: of_pair.a_nominal }
        };
        let solved = if Self::a_is_nearer(pair, scheme.is_dark) {
            Self::solved_to_contrast(
                start,
                inputs.background,
                of_pair.a_curve,
                of_pair.b_curve,
                scheme.contrast_level,
            )
        } else {
            Self::solved_to_contrast(
                start,
                inputs.background,
                of_pair.b_curve,
                of_pair.a_curve,
                scheme.contrast_level,
            )
        };
        let tones = Self::out_of_the_middle(
            Self::moved_apart(solved, pair.delta, expansion_dir),
            pair.delta,
            expansion_dir,
            pair.stay_together,
        );
        if (definition.role == pair.role_a) == Self::a_is_nearer(pair, scheme.is_dark) {
            tones.nearer
        } else {
            tones.farther
        }
    }

    #[verifier::when_used_as_spec(spec_pair_tone)]
    pub fn pair_tone(
        scheme: &DynamicScheme,
        definition: &RoleDefinition,
        pair: &ToneDeltaPair,
        inputs: &ToneInputs,
        of_pair: &PairInputs,
    ) -> (out: Fixed)
        ensures
            out == Self::spec_pair_tone(scheme, definition, pair, inputs, of_pair),
    {
        let expansion_dir: i64 = if scheme.is_dark {
            1
        } else {
            -1i64
        };
        let start = if Self::a_is_nearer(pair, scheme.is_dark) {
            PairTones { nearer: of_pair.a_nominal, farther: of_pair.b_nominal }
        } else {
            PairTones { nearer: of_pair.b_nominal, farther: of_pair.a_nominal }
        };
        let solved = if Self::a_is_nearer(pair, scheme.is_dark) {
            Self::solved_to_contrast(
                start,
                inputs.background,
                of_pair.a_curve,
                of_pair.b_curve,
                scheme.contrast_level,
            )
        } else {
            Self::solved_to_contrast(
                start,
                inputs.background,
                of_pair.b_curve,
                of_pair.a_curve,
                scheme.contrast_level,
            )
        };
        let tones = Self::out_of_the_middle(
            Self::moved_apart(solved, pair.delta, expansion_dir),
            pair.delta,
            expansion_dir,
            pair.stay_together,
        );
        if (definition.role == pair.role_a) == Self::a_is_nearer(pair, scheme.is_dark) {
            tones.nearer
        } else {
            tones.farther
        }
    }

    /// The tone of a foreground on two backgrounds, where `answer` does
    /// not have the contrast wanted to both: the lighter answer where one
    /// of the backgrounds prefers light, else the darker one, or the one
    /// of the two that there is.
    pub open spec fn spec_dual_background_tone(
        answer: Fixed,
        bg_tone_1: Fixed,
        bg_tone_2: Fixed,
        desired_ratio: Fixed,
    ) -> Fixed {
        let upper = bg_tone_1.max(bg_tone_2);
        let lower = bg_tone_1.min(bg_tone_2);
        if ratio_of_tones(upper, answer).ge(desired_ratio) && ratio_of_tones(lower, answer).ge(
            desired_ratio,
        ) {
            answer
        } else {
            let light_option = lighter(upper, desired_ratio);
            let dark_option = darker(lower, desired_ratio);
            if DynamicColor::tone_prefers_light_foreground(bg_tone_1)
                || DynamicColor::tone_prefers_light_foreground(bg_tone_2) {
                if light_option == fx(MINUS_ONE) {
                    Fixed::from_int(100)
                } else {
                    light_option
                }
            } else if light_option != fx(MINUS_ONE) && dark_option == fx(MINUS_ONE) {
                light_option
            } else if dark_option == fx(MINUS_ONE) {
                Fixed::from_int(0)
            } else {
                dark_option
            }
        }
    }

    #[verifier::when_used_as_spec(spec_dual_background_tone)]
    pub fn dual_background_tone(
        answer: Fixed,
        bg_tone_1: Fixed,
        bg_tone_2: Fixed,
        desired_ratio: Fixed,
    ) -> (out: Fixed)
        ensures
            out == Self::spec_dual_background_tone(answer, bg_tone_1, bg_tone_2, desired_ratio),
    {
        let upper = bg_tone_1.max(bg_tone_2);
        let lower = bg_tone_1.min(bg_tone_2);
        if ratio_of_tones(upper, answer).ge(desired_ratio) && ratio_of_tones(lower, answer).ge(
            desired_ratio,
        ) {
            answer
        } else {
            let light_option = lighter(upper, desired_ratio);
            let dark_option = darker(lower, desired_ratio);
            if DynamicColor::tone_prefers_light_foreground(bg_tone_1)
                || DynamicColor::tone_prefers_light_foreground(bg_tone_2) {
                if light_option == fx(MINUS_ONE) {
                    Fixed::from_int(100)
                } else {
                    light_option
                }
            } else if light_option != fx(MINUS_ONE) && dark_option == fx(MINUS_ONE) {
                light_option
            } else if dark_option == fx(MINUS_ONE) {
                Fixed::from_int(0)
            } else {
                dark_option
            }
        }
    }

    /// The tone of a role that belongs to no pair, against its
    /// background. A background role that would come to lie among the
    /// awkward tones becomes 49 where that still has the contrast, else
    /// 60.
    pub open spec fn spec_single_tone(
        scheme: &DynamicScheme,
        definition: &RoleDefinition,
        inputs: &ToneInputs,
    ) -> Fixed {
        match (inputs.background, definition.contrast_curve) {
            (Some(bg_tone), Some(curve)) => {
                let desired_ratio = curve.get(scheme.contrast_level);
                let solved = Self::with_contrast(
                    inputs.nominal,
                    bg_tone,
                    desired_ratio,
                    scheme.contrast_level.lt(Fixed::from_int(0)),
                );
                let answer = if definition.is_background && is_awkward(solved) {
                    if ratio_of_tones(Fixed::from_int(49), bg_tone).ge(desired_ratio) {
                        Fixed::from_int(49)
                    } else {
                        Fixed::from_int(60)
                    }
                } else {
                    solved
                };
                match inputs.second_background {
                    Some(bg_tone_2) => Self::dual_background_tone(
                        answer,
                        bg_tone,
                        bg_tone_2,
                        desired_ratio,
                    ),
                    None => answer,
                }
            },
            _ => inputs.nominal,
        }
    }

    #[verifier::when_used_as_spec(spec_single_tone)]
    pub fn single_tone(
        scheme: &DynamicScheme,
        definition: &RoleDefinition,
        inputs: &ToneInputs,
    ) -> (out: Fixed)
        ensures
            out == Self::spec_single_tone(scheme, definition, inputs),
    {
        match (inputs.background, definition.contrast_curve) {
            (Some(bg_tone), Some(curve)) => {
                let desired_ratio = curve.get(scheme.contrast_level);
                let solved = Self::with_contrast(
                    inputs.nominal,
                    bg_tone,
                    desired_ratio,
                    scheme.contrast_level.lt(Fixed::from_int(0)),
                );
                let answer = if definition.is_background && is_awkward(solved) {
                    if ratio_of_tones(Fixed::from_int(49), bg_tone).ge(desired_ratio) {
                        Fixed::from_int(49)
                    } else {
                        Fixed::from_int(60)
                    }
                } else {
                    solved
                };
                match inputs.second_background {
                    Some(bg_tone_2) => Self::dual_background_tone(
                        answer,
                        bg_tone,
                        bg_tone_2,
                        desired_ratio,
                    ),
                    None => answer,
                }
            },
            _ => inputs.nominal,
        }
    }

    /// The resolved tone of a role, from its definition and the tones of
    /// the roles that it refers to.
    pub open spec fn spec_tone(
        scheme: &DynamicScheme,
        definition: &RoleDefinition,
        inputs: &ToneInputs,
    ) -> Fixed {
        match (definition.tone_delta_pair, inputs.pair) {
            (Some(pair), Some(of_pair)) => Self::pair_tone(
                scheme,
                definition,
                &pair,
                inputs,
                &of_pair,
            ),
            _ => Self::single_tone(scheme, definition, inputs),
        }
    }

    #[verifier::when_used_as_spec(spec_tone)]
    pub fn tone(
        scheme: &DynamicScheme,
        definition: &RoleDefinition,
        inputs: &ToneInputs,
    ) -> (out: Fixed)
        ensures
            out == Self::spec_tone(scheme, definition, inputs),
    {
        match (definition.tone_delta_pair, inputs.pair) {
            (Some(pair), Some(of_pair)) => Self::pair_tone(
                scheme,
                definition,
                &pair,
                inputs,
                &of_pair,
            ),
            _ => Self::single_tone(scheme, definition, inputs),
        }
    }

    /// The colour of a role at a tone: that of its palette.
    pub open spec fn spec_hct(
        scheme: &DynamicScheme,
        definition: &RoleDefinition,
        tone: Fixed,
    ) -> Hct {
        scheme.palette(definition.palette).hct(tone)
    }

    #[verifier::when_used_as_spec(spec_hct)]
    pub fn hct(scheme: &DynamicScheme, definition: &RoleDefinition, tone: Fixed) -> (out: Hct)
        ensures
            out == Self::spec_hct(scheme, definition, tone),
            out.wf(),
            is_opaque(out.argb),
    {
        scheme.palette(definition.palette).hct(tone)
    }
}

impl ColorCalculationSpec for ColorCalculationSpec2021 {
    fn get_hct(&self, scheme: &DynamicScheme, definition: &RoleDefinition, tone: Fixed) -> (out: Hct)
        ensures
            out == ColorCalculationSpec2021::hct(scheme, definition, tone),
    {
        ColorCalculationSpec2021::hct(scheme, definition, tone)
    }

    fn get_tone(&self, scheme: &DynamicScheme, definition: &RoleDefinition, inputs: &ToneInputs) -> (out: Fixed)
        ensures
            out == ColorCalculationSpec2021::tone(scheme, definition, inputs),
    {
        ColorCalculationSpec2021::tone(scheme, definition, inputs)
    }
}

} // verus!
