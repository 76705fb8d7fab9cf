//! The roles as the rules of 2021 define them.
use vstd::prelude::*;
use crate::dislike_analyzer::fix_if_disliked;
use crate::dynamiccolor::contrast_curve::ContrastCurve;
use crate::dynamiccolor::dynamic_color::{DynamicColor, RoleDefinition, ToneRule};
use crate::dynamiccolor::dynamic_scheme::DynamicScheme;
use crate::dynamiccolor::role::{PaletteKind, Role};
use crate::dynamiccolor::tone_delta_pair::{DeltaConstraint, ToneDeltaPair, TonePolarity};
use crate::dynamiccolor::variant::Variant;
use crate::fixed::Fixed;
use crate::hct::hct::Hct;

verus! {

/// The rules of 2021: what every role is under a scheme.
#[derive(Clone, Copy, Debug, Default, PartialEq, Eq, Structural)]
pub struct ColorSpec2021;

/// The most steps that the search for a tone of enough chroma takes.
pub const CHROMA_SEARCH_STEPS: u8 = 101;

/// The tone found by the search for a tone of enough chroma, from the
/// tone `answer` on: the search steps on by one tone at a time while the
/// chroma reached is short of the wanted one, and stops at the tone at
/// which the chroma falls below its peak or comes within 0.4 of the wanted
/// one.
pub open spec fn desired_tone_from(hue: Fixed, chroma: Fixed, answer: i64, closest: Fixed, peak: Fixed, by_decreasing_tone: bool, steps_left: u8) -> i64
    decreases steps_left,
{
    if steps_left > 0 && closest.lt(chroma) && -1000 < answer < 1000 {
        let next = if by_decreasing_tone {
            (answer - 1) as i64
        } else {
            (answer + 1) as i64
        };
        let potential = Hct::from(hue, chroma, Fixed::from_int(next)).chroma;
        if peak.gt(potential) {
            next
        } else if potential.minus(chroma).abs().lt(Fixed::from_tenths(4)) {
            next
        } else {
            desired_tone_from(
                hue,
                chroma,
                next,
                if potential.minus(chroma).abs().lt(closest.minus(chroma).abs()) {
                    potential
                } else {
                    closest
                },
                peak.max(potential),
                by_decreasing_tone,
                (steps_left - 1) as u8,
            )
        }
    } else {
        answer
    }
}

impl ColorSpec2021 {
    /// The rule set.
    pub fn new() -> (out: Self)
        ensures
            out == ColorSpec2021,
    {
        ColorSpec2021
    }

    /// Whether a scheme keeps the source colour as it is: the variants
    /// fidelity and content.
    pub open spec fn spec_is_fidelity(scheme: &DynamicScheme) -> bool {
        scheme.variant == Variant::Fidelity || scheme.variant == Variant::Content
    }

    #[verifier::when_used_as_spec(spec_is_fidelity)]
    pub fn is_fidelity(scheme: &DynamicScheme) -> (out: bool)
        ensures
            out == Self::spec_is_fidelity(scheme),
    {
        scheme.variant == Variant::Fidelity || scheme.variant == Variant::Content
    }

    /// Whether a scheme is monochrome.
    pub open spec fn spec_is_monochrome(scheme: &DynamicScheme) -> bool {
        scheme.variant == Variant::Monochrome
    }

    #[verifier::when_used_as_spec(spec_is_monochrome)]
    pub fn is_monochrome(scheme: &DynamicScheme) -> (out: bool)
        ensures
            out == Self::spec_is_monochrome(scheme),
    {
        scheme.variant == Variant::Monochrome
    }

    /// The tone, from `tone` on in the direction given, at which a hue
    /// shows the chroma wanted or comes nearest to it.
    pub open spec fn spec_find_desired_chroma_by_tone(hue: Fixed, chroma: Fixed, tone: i64, by_decreasing_tone: bool) -> Fixed {
        let first = Hct::from(hue, chroma, Fixed::from_int(tone)).chroma;
        Fixed::from_int(
            desired_tone_from(
                hue,
                chroma,
                tone,
                first,
                first,
                by_decreasing_tone,
                CHROMA_SEARCH_STEPS,
            ),
        )
    }

    #[verifier::when_used_as_spec(spec_find_desired_chroma_by_tone)]
    pub fn find_desired_chroma_by_tone(hue: Fixed, chroma: Fixed, tone: i64, by_decreasing_tone: bool) -> (out: Fixed)
        ensures
            out == Self::spec_find_desired_chroma_by_tone(hue, chroma, tone, by_decreasing_tone),
    {
        let first = Hct::from(hue, chroma, Fixed::from_int(tone)).chroma;
        let mut answer: i64 = tone;
        let mut closest = first;
        let mut peak = first;
        let mut steps_left: u8 = CHROMA_SEARCH_STEPS;
        while steps_left > 0 && closest.lt(chroma) && -1000 < answer && answer < 1000
            invariant
                answer == tone || -1000 <= answer <= 1000,
                first == Hct::from(hue, chroma, Fixed::from_int(tone)).chroma,
                desired_tone_from(hue, chroma, answer, closest, peak, by_decreasing_tone, steps_left)
                    == desired_tone_from(
                    hue,
                    chroma,
                    tone,
                    first,
                    first,
                    by_decreasing_tone,
                    CHROMA_SEARCH_STEPS,
                ),
            decreases steps_left,
        {
            let next: i64 = if by_decreasing_tone {
                answer - 1
            } else {
                answer + 1
            };
            let potential = Hct::from(hue, chroma, Fixed::from_int(next)).chroma;
            if peak.gt(potential) {
                return Fixed::from_int(next);
            }
            if potential.minus(chroma).abs().lt(Fixed::from_tenths(4)) {
                return Fixed::from_int(next);
            }
            if potential.minus(chroma).abs().lt(closest.minus(chroma).abs()) {
                closest = potential;
            }
            peak = peak.max(potential);
            answer = next;
            steps_left = steps_left - 1;
        }
        Fixed::from_int(answer)
    }

    /// The tone of the secondary container of a scheme that keeps the
    /// source colour: the tone, from 30 upwards in a dark scheme and from
    /// 90 downwards in a light one, at which the secondary palette shows
    /// its chroma.
    #[verifier::opaque]
    pub open spec fn spec_fidelity_secondary_container_tone(scheme: &DynamicScheme) -> Fixed {
        Self::find_desired_chroma_by_tone(
            scheme.secondary_palette.hue,
            scheme.secondary_palette.chroma,
            if scheme.is_dark {
                30
            } else {
                90
            },
            !scheme.is_dark,
        )
    }

    #[verifier::when_used_as_spec(spec_fidelity_secondary_container_tone)]
    pub fn fidelity_secondary_container_tone(scheme: &DynamicScheme) -> (out: Fixed)
        ensures
            out == Self::spec_fidelity_secondary_container_tone(scheme),
    {
        proof {
            reveal(ColorSpec2021::spec_fidelity_secondary_container_tone);
        }
        Self::find_desired_chroma_by_tone(
            scheme.secondary_palette.hue,
            scheme.secondary_palette.chroma,
            if scheme.is_dark {
                30
            } else {
                90
            },
            !scheme.is_dark,
        )
    }

    /// The tone of the tertiary container of a scheme that keeps the
    /// source colour: that of the tertiary palette at the tone of the
    /// source colour, made likable.
    #[verifier::opaque]
    pub open spec fn spec_fidelity_tertiary_container_tone(scheme: &DynamicScheme) -> Fixed {
        fix_if_disliked(scheme.tertiary_palette.hct(scheme.source_color_hct.tone)).tone
    }

    #[verifier::when_used_as_spec(spec_fidelity_tertiary_container_tone)]
    pub fn fidelity_tertiary_container_tone(scheme: &DynamicScheme) -> (out: Fixed)
        ensures
            out == Self::spec_fidelity_tertiary_container_tone(scheme),
    {
        proof {
            reveal(ColorSpec2021::spec_fidelity_tertiary_container_tone);
        }
        fix_if_disliked(scheme.tertiary_palette.hct(scheme.source_color_hct.tone)).tone
    }

    /// The surface on which accents are drawn: the brightest surface in
    /// a dark scheme, the dimmest in a light one.
    pub open spec fn spec_highest_surface(scheme: &DynamicScheme) -> Role {
        if scheme.is_dark {
            Role::SurfaceBright
        } else {
            Role::SurfaceDim
        }
    }

    #[verifier::when_used_as_spec(spec_highest_surface)]
    pub fn highest_surface(scheme: &DynamicScheme) -> (out: Role)
        ensures
            out == Self::spec_highest_surface(scheme),
    {
        if scheme.is_dark {
            Role::SurfaceBright
        } else {
            Role::SurfaceDim
        }
    }

    /// The key colour of the primary palette, at its own tone.
    pub open spec fn spec_primary_palette_key_color(scheme: &DynamicScheme) -> RoleDefinition {
        RoleDefinition {
            role: Role::PrimaryPaletteKeyColor,
            palette: PaletteKind::Primary,
            tone: ToneRule::Value(scheme.primary_palette.key_color.tone),
            is_background: false,
            chroma_multiplier: Fixed::from_int(1),
            background: None,
            second_background: None,
            contrast_curve: None,
            tone_delta_pair: None,
            opacity: None,
        }
    }

    #[verifier::when_used_as_spec(spec_primary_palette_key_color)]
    pub fn primary_palette_key_color(scheme: &DynamicScheme) -> (out: RoleDefinition)
        ensures
            out == Self::spec_primary_palette_key_color(scheme),
    {
        RoleDefinition {
            role: Role::PrimaryPaletteKeyColor,
            palette: PaletteKind::Primary,
            tone: ToneRule::Value(scheme.primary_palette.key_color.tone),
            is_background: false,
            chroma_multiplier: Fixed::from_int(1),
            background: None,
            second_background: None,
            contrast_curve: None,
            tone_delta_pair: None,
            opacity: None,
        }
    }

    /// The key colour of the secondary palette, at its own tone.
    pub open spec fn spec_secondary_palette_key_color(scheme: &DynamicScheme) -> RoleDefinition {
        RoleDefinition {
            role: Role::SecondaryPaletteKeyColor,
            palette: PaletteKind::Secondary,
            tone: ToneRule::Value(scheme.secondary_palette.key_color.tone),
            is_background: false,
            chroma_multiplier: Fixed::from_int(1),
            background: None,
            second_background: None,
            contrast_curve: None,
            tone_delta_pair: None,
            opacity: None,
        }
    }

    #[verifier::when_used_as_spec(spec_secondary_palette_key_color)]
    pub fn secondary_palette_key_color(scheme: &DynamicScheme) -> (out: RoleDefinition)
        ensures
            out == Self::spec_secondary_palette_key_color(scheme),
    {
        RoleDefinition {
            role: Role::SecondaryPaletteKeyColor,
            palette: PaletteKind::Secondary,
            tone: ToneRule::Value(scheme.secondary_palette.key_color.tone),
            is_background: false,
            chroma_multiplier: Fixed::from_int(1),
            background: None,
            second_background: None,
            contrast_curve: None,
            tone_delta_pair: None,
            opacity: None,
        }
    }

    /// The key colour of the tertiary palette, at its own tone.
    pub open spec fn spec_tertiary_palette_key_color(scheme: &DynamicScheme) -> RoleDefinition {
        RoleDefinition {
            role: Role::TertiaryPaletteKeyColor,
            palette: PaletteKind::Tertiary,
            tone: ToneRule::Value(scheme.tertiary_palette.key_color.tone),
            is_background: false,
            chroma_multiplier: Fixed::from_int(1),
            background: None,
            second_background: None,
            contrast_curve: None,
            tone_delta_pair: None,
            opacity: None,
        }
    }

    #[verifier::when_used_as_spec(spec_tertiary_palette_key_color)]
    pub fn tertiary_palette_key_color(scheme: &DynamicScheme) -> (out: RoleDefinition)
        ensures
            out == Self::spec_tertiary_palette_key_color(scheme),
    {
        RoleDefinition {
            role: Role::TertiaryPaletteKeyColor,
            palette: PaletteKind::Tertiary,
            tone: ToneRule::Value(scheme.tertiary_palette.key_color.tone),
            is_background: false,
            chroma_multiplier: Fixed::from_int(1),
            background: None,
            second_background: None,
            contrast_curve: None,
            tone_delta_pair: None,
            opacity: None,
        }
    }

    /// The key colour of the neutral palette, at its own tone.
    pub open spec fn spec_neutral_palette_key_color(scheme: &DynamicScheme) -> RoleDefinition {
        RoleDefinition {
            role: Role::NeutralPaletteKeyColor,
            palette: PaletteKind::Neutral,
            tone: ToneRule::Value(scheme.neutral_palette.key_color.tone),
            is_background: false,
            chroma_multiplier: Fixed::from_int(1),
            background: None,
            second_background: None,
            contrast_curve: None,
            tone_delta_pair: None,
            opacity: None,
        }
    }

    #[verifier::when_used_as_spec(spec_neutral_palette_key_color)]
    pub fn neutral_palette_key_color(scheme: &DynamicScheme) -> (out: RoleDefinition)
        ensures
            out == Self::spec_neutral_palette_key_color(scheme),
    {
        RoleDefinition {
            role: Role::NeutralPaletteKeyColor,
            palette: PaletteKind::Neutral,
            tone: ToneRule::Value(scheme.neutral_palette.key_color.tone),
            is_background: false,
            chroma_multiplier: Fixed::from_int(1),
            background: None,
            second_background: None,
            contrast_curve: None,
            tone_delta_pair: None,
            opacity: None,
        }
    }

    /// The key colour of the neutral variant palette, at its own tone.
    pub open spec fn spec_neutral_variant_palette_key_color(
        scheme: &DynamicScheme,
    ) -> RoleDefinition {
        RoleDefinition {
            role: Role::NeutralVariantPaletteKeyColor,
            palette: PaletteKind::NeutralVariant,
            tone: ToneRule::Value(scheme.neutral_variant_palette.key_color.tone),
            is_background: false,
            chroma_multiplier: Fixed::from_int(1),
            background: None,
            second_background: None,
            contrast_curve: None,
            tone_delta_pair: None,
            opacity: None,
        }
    }

    #[verifier::when_used_as_spec(spec_neutral_variant_palette_key_color)]
    pub fn neutral_variant_palette_key_color(scheme: &DynamicScheme) -> (out: RoleDefinition)
        ensures
            out == Self::spec_neutral_variant_palette_key_color(scheme),
    {
        RoleDefinition {
            role: Role::NeutralVariantPaletteKeyColor,
            palette: PaletteKind::NeutralVariant,
            tone: ToneRule::Value(scheme.neutral_variant_palette.key_color.tone),
            is_background: false,
            chroma_multiplier: Fixed::from_int(1),
            background: None,
            second_background: None,
            contrast_curve: None,
            tone_delta_pair: None,
            opacity: None,
        }
    }

    /// The key colour of the error palette, at its own tone.
    pub open spec fn spec_error_palette_key_color(scheme: &DynamicScheme) -> RoleDefinition {
        RoleDefinition {
            role: Role::ErrorPaletteKeyColor,
            palette: PaletteKind::Error,
            tone: ToneRule::Value(scheme.error_palette.key_color.tone),
            is_background: false,
            chroma_multiplier: Fixed::from_int(1),
            background: None,
            second_background: None,
            contrast_curve: None,
            tone_delta_pair: None,
            opacity: None,
        }
    }

    #[verifier::when_used_as_spec(spec_error_palette_key_color)]
    pub fn error_palette_key_color(scheme: &DynamicScheme) -> (out: RoleDefinition)
        ensures
            out == Self::spec_error_palette_key_color(scheme),
    {
        RoleDefinition {
            role: Role::ErrorPaletteKeyColor,
            palette: PaletteKind::Error,
            tone: ToneRule::Value(scheme.error_palette.key_color.tone),
            is_background: false,
            chroma_multiplier: Fixed::from_int(1),
            background: None,
            second_background: None,
            contrast_curve: None,
            tone_delta_pair: None,
            opacity: None,
        }
    }

    /// The background of the whole interface.
    pub open spec fn spec_background(scheme: &DynamicScheme) -> RoleDefinition {
        RoleDefinition {
            role: Role::Background,
            palette: PaletteKind::Neutral,
            tone:
                ToneRule::Value(
                    if scheme.is_dark { Fixed::from_int(6) } else { Fixed::from_int(98) },
                ),
            is_background: true,
            chroma_multiplier: Fixed::from_int(1),
            background: None,
            second_background: None,
            contrast_curve: None,
            tone_delta_pair: None,
            opacity: None,
        }
    }

    #[verifier::when_used_as_spec(spec_background)]
    pub fn background(scheme: &DynamicScheme) -> (out: RoleDefinition)
        ensures
            out == Self::spec_background(scheme),
    {
        RoleDefinition {
            role: Role::Background,
            palette: PaletteKind::Neutral,
            tone:
                ToneRule::Value(
                    if scheme.is_dark { Fixed::from_int(6) } else { Fixed::from_int(98) },
                ),
            is_background: true,
            chroma_multiplier: Fixed::from_int(1),
            background: None,
            second_background: None,
            contrast_curve: None,
            tone_delta_pair: None,
            opacity: None,
        }
    }

    /// Text and icons on the background.
    pub open spec fn spec_on_background(scheme: &DynamicScheme) -> RoleDefinition {
        RoleDefinition {
            role: Role::OnBackground,
            palette: PaletteKind::Neutral,
            tone:
                ToneRule::Value(
                    if scheme.is_dark { Fixed::from_int(90) } else { Fixed::from_int(10) },
                ),
            is_background: false,
            chroma_multiplier: Fixed::from_int(1),
            background: Some(Role::Background),
            second_background: None,
            contrast_curve: Some(
                ContrastCurve::new(
                    Fixed::from_int(3),
                    Fixed::from_int(3),
                    Fixed::from_tenths(45),
                    Fixed::from_int(7),
                ),
            ),
            tone_delta_pair: None,
            opacity: None,
        }
    }

    #[verifier::when_used_as_spec(spec_on_background)]
    pub fn on_background(scheme: &DynamicScheme) -> (out: RoleDefinition)
        ensures
            out == Self::spec_on_background(scheme),
    {
        RoleDefinition {
            role: Role::OnBackground,
            palette: PaletteKind::Neutral,
            tone:
                ToneRule::Value(
                    if scheme.is_dark { Fixed::from_int(90) } else { Fixed::from_int(10) },
                ),
            is_background: false,
            chroma_multiplier: Fixed::from_int(1),
            background: Some(Role::Background),
            second_background: None,
            contrast_curve: Some(
                ContrastCurve::new(
                    Fixed::from_int(3),
                    Fixed::from_int(3),
                    Fixed::from_tenths(45),
                    Fixed::from_int(7),
                ),
            ),
            tone_delta_pair: None,
            opacity: None,
        }
    }

    /// The surface of the interface.
    pub open spec fn spec_surface(scheme: &DynamicScheme) -> RoleDefinition {
        RoleDefinition {
            role: Role::Surface,
            palette: PaletteKind::Neutral,
            tone:
                ToneRule::Value(
                    if scheme.is_dark { Fixed::from_int(6) } else { Fixed::from_int(98) },
                ),
            is_background: true,
            chroma_multiplier: Fixed::from_int(1),
            background: None,
            second_background: None,
            contrast_curve: None,
            tone_delta_pair: None,
            opacity: None,
        }
    }

    #[verifier::when_used_as_spec(spec_surface)]
    pub fn surface(scheme: &DynamicScheme) -> (out: RoleDefinition)
        ensures
            out == Self::spec_surface(scheme),
    {
        RoleDefinition {
            role: Role::Surface,
            palette: PaletteKind::Neutral,
            tone:
                ToneRule::Value(
                    if scheme.is_dark { Fixed::from_int(6) } else { Fixed::from_int(98) },
                ),
            is_background: true,
            chroma_multiplier: Fixed::from_int(1),
            background: None,
            second_background: None,
            contrast_curve: None,
            tone_delta_pair: None,
            opacity: None,
        }
    }

    /// The dimmest surface.
    pub open spec fn spec_surface_dim(scheme: &DynamicScheme) -> RoleDefinition {
        RoleDefinition {
            role: Role::SurfaceDim,
            palette: PaletteKind::Neutral,
            tone: ToneRule::Value(
                if scheme.is_dark {
                    Fixed::from_int(6)
                } else {
                    ContrastCurve::new(
                        Fixed::from_int(87),
                        Fixed::from_int(87),
                        Fixed::from_int(80),
                        Fixed::from_int(75),
                    ).get(scheme.contrast_level)
                },
            ),
            is_background: true,
            chroma_multiplier: Fixed::from_int(1),
            background: None,
            second_background: None,
            contrast_curve: None,
            tone_delta_pair: None,
            opacity: None,
        }
    }

    #[verifier::when_used_as_spec(spec_surface_dim)]
    pub fn surface_dim(scheme: &DynamicScheme) -> (out: RoleDefinition)
        ensures
            out == Self::spec_surface_dim(scheme),
    {
        RoleDefinition {
            role: Role::SurfaceDim,
            palette: PaletteKind::Neutral,
            tone: ToneRule::Value(
                if scheme.is_dark {
                    Fixed::from_int(6)
                } else {
                    ContrastCurve::new(
                        Fixed::from_int(87),
                        Fixed::from_int(87),
                        Fixed::from_int(80),
                        Fixed::from_int(75),
                    ).get(scheme.contrast_level)
                },
            ),
            is_background: true,
            chroma_multiplier: Fixed::from_int(1),
            background: None,
            second_background: None,
            contrast_curve: None,
            tone_delta_pair: None,
            opacity: None,
        }
    }

    /// The brightest surface.
    pub open spec fn spec_surface_bright(scheme: &DynamicScheme) -> RoleDefinition {
        RoleDefinition {
            role: Role::SurfaceBright,
            palette: PaletteKind::Neutral,
            tone: ToneRule::Value(
                if scheme.is_dark {
                    ContrastCurve::new(
                        Fixed::from_int(24),
                        Fixed::from_int(24),
                        Fixed::from_int(29),
                        Fixed::from_int(34),
                    ).get(scheme.contrast_level)
                } else {
                    Fixed::from_int(98)
                },
            ),
            is_background: true,
            chroma_multiplier: Fixed::from_int(1),
            background: None,
            second_background: None,
            contrast_curve: None,
            tone_delta_pair: None,
            opacity: None,
        }
    }

    #[verifier::when_used_as_spec(spec_surface_bright)]
    pub fn surface_bright(scheme: &DynamicScheme) -> (out: RoleDefinition)
        ensures
            out == Self::spec_surface_bright(scheme),
    {
        RoleDefinition {
            role: Role::SurfaceBright,
            palette: PaletteKind::Neutral,
            tone: ToneRule::Value(
                if scheme.is_dark {
                    ContrastCurve::new(
                        Fixed::from_int(24),
                        Fixed::from_int(24),
                        Fixed::from_int(29),
                        Fixed::from_int(34),
                    ).get(scheme.contrast_level)
                } else {
                    Fixed::from_int(98)
                },
            ),
            is_background: true,
            chroma_multiplier: Fixed::from_int(1),
            background: None,
            second_background: None,
            contrast_curve: None,
            tone_delta_pair: None,
            opacity: None,
        }
    }

    /// The container of least emphasis.
    pub open spec fn spec_surface_container_lowest(scheme: &DynamicScheme) -> RoleDefinition {
        RoleDefinition {
            role: Role::SurfaceContainerLowest,
            palette: PaletteKind::Neutral,
            tone: ToneRule::Value(
                if scheme.is_dark {
                    ContrastCurve::new(
                        Fixed::from_int(4),
                        Fixed::from_int(4),
                        Fixed::from_int(2),
                        Fixed::from_int(0),
                    ).get(scheme.contrast_level)
                } else {
                    Fixed::from_int(100)
                },
            ),
            is_background: true,
            chroma_multiplier: Fixed::from_int(1),
            background: None,
            second_background: None,
            contrast_curve: None,
            tone_delta_pair: None,
            opacity: None,
        }
    }

    #[verifier::when_used_as_spec(spec_surface_container_lowest)]
    pub fn surface_container_lowest(scheme: &DynamicScheme) -> (out: RoleDefinition)
        ensures
            out == Self::spec_surface_container_lowest(scheme),
    {
        RoleDefinition {
            role: Role::SurfaceContainerLowest,
            palette: PaletteKind::Neutral,
            tone: ToneRule::Value(
                if scheme.is_dark {
                    ContrastCurve::new(
                        Fixed::from_int(4),
                        Fixed::from_int(4),
                        Fixed::from_int(2),
                        Fixed::from_int(0),
                    ).get(scheme.contrast_level)
                } else {
                    Fixed::from_int(100)
                },
            ),
            is_background: true,
            chroma_multiplier: Fixed::from_int(1),
            background: None,
            second_background: None,
            contrast_curve: None,
            tone_delta_pair: None,
            opacity: None,
        }
    }

    /// The container of low emphasis.
    pub open spec fn spec_surface_container_low(scheme: &DynamicScheme) -> RoleDefinition {
        RoleDefinition {
            role: Role::SurfaceContainerLow,
            palette: PaletteKind::Neutral,
            tone: ToneRule::Value(
                if scheme.is_dark {
                    ContrastCurve::new(
                        Fixed::from_int(10),
                        Fixed::from_int(10),
                        Fixed::from_int(11),
                        Fixed::from_int(12),
                    ).get(scheme.contrast_level)
                } else {
                    ContrastCurve::new(
                        Fixed::from_int(96),
                        Fixed::from_int(96),
                        Fixed::from_int(96),
                        Fixed::from_int(95),
                    ).get(scheme.contrast_level)
                },
            ),
            is_background: true,
            chroma_multiplier: Fixed::from_int(1),
            background: None,
            second_background: None,
            contrast_curve: None,
            tone_delta_pair: None,
            opacity: None,
        }
    }

    #[verifier::when_used_as_spec(spec_surface_container_low)]
    pub fn surface_container_low(scheme: &DynamicScheme) -> (out: RoleDefinition)
        ensures
            out == Self::spec_surface_container_low(scheme),
    {
        RoleDefinition {
            role: Role::SurfaceContainerLow,
            palette: PaletteKind::Neutral,
            tone: ToneRule::Value(
                if scheme.is_dark {
                    ContrastCurve::new(
                        Fixed::from_int(10),
                        Fixed::from_int(10),
                        Fixed::from_int(11),
                        Fixed::from_int(12),
                    ).get(scheme.contrast_level)
                } else {
                    ContrastCurve::new(
                        Fixed::from_int(96),
                        Fixed::from_int(96),
                        Fixed::from_int(96),
                        Fixed::from_int(95),
                    ).get(scheme.contrast_level)
                },
            ),
            is_background: true,
            chroma_multiplier: Fixed::from_int(1),
            background: None,
            second_background: None,
            contrast_curve: None,
            tone_delta_pair: None,
            opacity: None,
        }
    }

    /// The container of usual emphasis.
    pub open spec fn spec_surface_container(scheme: &DynamicScheme) -> RoleDefinition {
        RoleDefinition {
            role: Role::SurfaceContainer,
            palette: PaletteKind::Neutral,
            tone: ToneRule::Value(
                if scheme.is_dark {
                    ContrastCurve::new(
                        Fixed::from_int(12),
                        Fixed::from_int(12),
                        Fixed::from_int(16),
                        Fixed::from_int(20),
                    ).get(scheme.contrast_level)
                } else {
                    ContrastCurve::new(
                        Fixed::from_int(94),
                        Fixed::from_int(94),
                        Fixed::from_int(92),
                        Fixed::from_int(90),
                    ).get(scheme.contrast_level)
                },
            ),
            is_background: true,
            chroma_multiplier: Fixed::from_int(1),
            background: None,
            second_background: None,
            contrast_curve: None,
            tone_delta_pair: None,
            opacity: None,
        }
    }

    #[verifier::when_used_as_spec(spec_surface_container)]
    pub fn surface_container(scheme: &DynamicScheme) -> (out: RoleDefinition)
        ensures
            out == Self::spec_surface_container(scheme),
    {
        RoleDefinition {
            role: Role::SurfaceContainer,
            palette: PaletteKind::Neutral,
            tone: ToneRule::Value(
                if scheme.is_dark {
                    ContrastCurve::new(
                        Fixed::from_int(12),
                        Fixed::from_int(12),
                        Fixed::from_int(16),
                        Fixed::from_int(20),
                    ).get(scheme.contrast_level)
                } else {
                    ContrastCurve::new(
                        Fixed::from_int(94),
                        Fixed::from_int(94),
                        Fixed::from_int(92),
                        Fixed::from_int(90),
                    ).get(scheme.contrast_level)
                },
            ),
            is_background: true,
            chroma_multiplier: Fixed::from_int(1),
            background: None,
            second_background: None,
            contrast_curve: None,
            tone_delta_pair: None,
            opacity: None,
        }
    }

    /// The container of high emphasis.
    pub open spec fn spec_surface_container_high(scheme: &DynamicScheme) -> RoleDefinition {
        RoleDefinition {
            role: Role::SurfaceContainerHigh,
            palette: PaletteKind::Neutral,
            tone: ToneRule::Value(
                if scheme.is_dark {
                    ContrastCurve::new(
                        Fixed::from_int(17),
                        Fixed::from_int(17),
                        Fixed::from_int(21),
                        Fixed::from_int(25),
                    ).get(scheme.contrast_level)
                } else {
                    ContrastCurve::new(
                        Fixed::from_int(92),
                        Fixed::from_int(92),
                        Fixed::from_int(88),
                        Fixed::from_int(85),
                    ).get(scheme.contrast_level)
                },
            ),
            is_background: true,
            chroma_multiplier: Fixed::from_int(1),
            background: None,
            second_background: None,
            contrast_curve: None,
            tone_delta_pair: None,
            opacity: None,
        }
    }

    #[verifier::when_used_as_spec(spec_surface_container_high)]
    pub fn surface_container_high(scheme: &DynamicScheme) -> (out: RoleDefinition)
        ensures
            out == Self::spec_surface_container_high(scheme),
    {
        RoleDefinition {
            role: Role::SurfaceContainerHigh,
            palette: PaletteKind::Neutral,
            tone: ToneRule::Value(
                if scheme.is_dark {
                    ContrastCurve::new(
                        Fixed::from_int(17),
                        Fixed::from_int(17),
                        Fixed::from_int(21),
                        Fixed::from_int(25),
                    ).get(scheme.contrast_level)
                } else {
                    ContrastCurve::new(
                        Fixed::from_int(92),
                        Fixed::from_int(92),
                        Fixed::from_int(88),
                        Fixed::from_int(85),
                    ).get(scheme.contrast_level)
                },
            ),
            is_background: true,
            chroma_multiplier: Fixed::from_int(1),
            background: None,
            second_background: None,
            contrast_curve: None,
            tone_delta_pair: None,
            opacity: None,
        }
    }

    /// The container of most emphasis.
    pub open spec fn spec_surface_container_highest(scheme: &DynamicScheme) -> RoleDefinition {
        RoleDefinition {
            role: Role::SurfaceContainerHighest,
            palette: PaletteKind::Neutral,
            tone: ToneRule::Value(
                if scheme.is_dark {
                    ContrastCurve::new(
                        Fixed::from_int(22),
                        Fixed::from_int(22),
                        Fixed::from_int(26),
                        Fixed::from_int(30),
                    ).get(scheme.contrast_level)
                } else {
                    ContrastCurve::new(
                        Fixed::from_int(90),
                        Fixed::from_int(90),
                        Fixed::from_int(84),
                        Fixed::from_int(80),
                    ).get(scheme.contrast_level)
                },
            ),
            is_background: true,
            chroma_multiplier: Fixed::from_int(1),
            background: None,
            second_background: None,
            contrast_curve: None,
            tone_delta_pair: None,
            opacity: None,
        }
    }

    #[verifier::when_used_as_spec(spec_surface_container_highest)]
    pub fn surface_container_highest(scheme: &DynamicScheme) -> (out: RoleDefinition)
        ensures
            out == Self::spec_surface_container_highest(scheme),
    {
        RoleDefinition {
            role: Role::SurfaceContainerHighest,
            palette: PaletteKind::Neutral,
            tone: ToneRule::Value(
                if scheme.is_dark {
                    ContrastCurve::new(
                        Fixed::from_int(22),
                        Fixed::from_int(22),
                        Fixed::from_int(26),
                        Fixed::from_int(30),
                    ).get(scheme.contrast_level)
                } else {
                    ContrastCurve::new(
                        Fixed::from_int(90),
                        Fixed::from_int(90),
                        Fixed::from_int(84),
                        Fixed::from_int(80),
                    ).get(scheme.contrast_level)
                },
            ),
            is_background: true,
            chroma_multiplier: Fixed::from_int(1),
            background: None,
            second_background: None,
            contrast_curve: None,
            tone_delta_pair: None,
            opacity: None,
        }
    }

    /// Text and icons on any surface.
    pub open spec fn spec_on_surface(scheme: &DynamicScheme) -> RoleDefinition {
        RoleDefinition {
            role: Role::OnSurface,
            palette: PaletteKind::Neutral,
            tone:
                ToneRule::Value(
                    if scheme.is_dark { Fixed::from_int(90) } else { Fixed::from_int(10) },
                ),
            is_background: false,
            chroma_multiplier: Fixed::from_int(1),
            background: Some(ColorSpec2021::highest_surface(scheme)),
            second_background: None,
            contrast_curve: Some(
                ContrastCurve::new(
                    Fixed::from_tenths(45),
                    Fixed::from_int(7),
                    Fixed::from_int(11),
                    Fixed::from_int(21),
                ),
            ),
            tone_delta_pair: None,
            opacity: None,
        }
    }

    #[verifier::when_used_as_spec(spec_on_surface)]
    pub fn on_surface(scheme: &DynamicScheme) -> (out: RoleDefinition)
        ensures
            out == Self::spec_on_surface(scheme),
    {
        RoleDefinition {
            role: Role::OnSurface,
            palette: PaletteKind::Neutral,
            tone:
                ToneRule::Value(
                    if scheme.is_dark { Fixed::from_int(90) } else { Fixed::from_int(10) },
                ),
            is_background: false,
            chroma_multiplier: Fixed::from_int(1),
            background: Some(ColorSpec2021::highest_surface(scheme)),
            second_background: None,
            contrast_curve: Some(
                ContrastCurve::new(
                    Fixed::from_tenths(45),
                    Fixed::from_int(7),
                    Fixed::from_int(11),
                    Fixed::from_int(21),
                ),
            ),
            tone_delta_pair: None,
            opacity: None,
        }
    }

    /// A surface of another tint.
    pub open spec fn spec_surface_variant(scheme: &DynamicScheme) -> RoleDefinition {
        RoleDefinition {
            role: Role::SurfaceVariant,
            palette: PaletteKind::NeutralVariant,
            tone:
                ToneRule::Value(
                    if scheme.is_dark { Fixed::from_int(30) } else { Fixed::from_int(90) },
                ),
            is_background: true,
            chroma_multiplier: Fixed::from_int(1),
            background: None,
            second_background: None,
            contrast_curve: None,
            tone_delta_pair: None,
            opacity: None,
        }
    }

    #[verifier::when_used_as_spec(spec_surface_variant)]
    pub fn surface_variant(scheme: &DynamicScheme) -> (out: RoleDefinition)
        ensures
            out == Self::spec_surface_variant(scheme),
    {
        RoleDefinition {
            role: Role::SurfaceVariant,
            palette: PaletteKind::NeutralVariant,
            tone:
                ToneRule::Value(
                    if scheme.is_dark { Fixed::from_int(30) } else { Fixed::from_int(90) },
                ),
            is_background: true,
            chroma_multiplier: Fixed::from_int(1),
            background: None,
            second_background: None,
            contrast_curve: None,
            tone_delta_pair: None,
            opacity: None,
        }
    }

    /// Text and icons of lower emphasis on any surface.
    pub open spec fn spec_on_surface_variant(scheme: &DynamicScheme) -> RoleDefinition {
        RoleDefinition {
            role: Role::OnSurfaceVariant,
            palette: PaletteKind::NeutralVariant,
            tone:
                ToneRule::Value(
                    if scheme.is_dark { Fixed::from_int(80) } else { Fixed::from_int(30) },
                ),
            is_background: false,
            chroma_multiplier: Fixed::from_int(1),
            background: Some(ColorSpec2021::highest_surface(scheme)),
            second_background: None,
            contrast_curve: Some(
                ContrastCurve::new(
                    Fixed::from_int(3),
                    Fixed::from_tenths(45),
                    Fixed::from_int(7),
                    Fixed::from_int(11),
                ),
            ),
            tone_delta_pair: None,
            opacity: None,
        }
    }

    #[verifier::when_used_as_spec(spec_on_surface_variant)]
    pub fn on_surface_variant(scheme: &DynamicScheme) -> (out: RoleDefinition)
        ensures
            out == Self::spec_on_surface_variant(scheme),
    {
        RoleDefinition {
            role: Role::OnSurfaceVariant,
            palette: PaletteKind::NeutralVariant,
            tone:
                ToneRule::Value(
                    if scheme.is_dark { Fixed::from_int(80) } else { Fixed::from_int(30) },
                ),
            is_background: false,
            chroma_multiplier: Fixed::from_int(1),
            background: Some(ColorSpec2021::highest_surface(scheme)),
            second_background: None,
            contrast_curve: Some(
                ContrastCurve::new(
                    Fixed::from_int(3),
                    Fixed::from_tenths(45),
                    Fixed::from_int(7),
                    Fixed::from_int(11),
                ),
            ),
            tone_delta_pair: None,
            opacity: None,
        }
    }

    /// A surface that stands out against the others.
    pub open spec fn spec_inverse_surface(scheme: &DynamicScheme) -> RoleDefinition {
        RoleDefinition {
            role: Role::InverseSurface,
            palette: PaletteKind::Neutral,
            tone:
                ToneRule::Value(
                    if scheme.is_dark { Fixed::from_int(90) } else { Fixed::from_int(20) },
                ),
            is_background: true,
            chroma_multiplier: Fixed::from_int(1),
            background: None,
            second_background: None,
            contrast_curve: None,
            tone_delta_pair: None,
            opacity: None,
        }
    }

    #[verifier::when_used_as_spec(spec_inverse_surface)]
    pub fn inverse_surface(scheme: &DynamicScheme) -> (out: RoleDefinition)
        ensures
            out == Self::spec_inverse_surface(scheme),
    {
        RoleDefinition {
            role: Role::InverseSurface,
            palette: PaletteKind::Neutral,
            tone:
                ToneRule::Value(
                    if scheme.is_dark { Fixed::from_int(90) } else { Fixed::from_int(20) },
                ),
            is_background: true,
            chroma_multiplier: Fixed::from_int(1),
            background: None,
            second_background: None,
            contrast_curve: None,
            tone_delta_pair: None,
            opacity: None,
        }
    }

    /// Text and icons on the inverse surface.
    pub open spec fn spec_inverse_on_surface(scheme: &DynamicScheme) -> RoleDefinition {
        RoleDefinition {
            role: Role::InverseOnSurface,
            palette: PaletteKind::Neutral,
            tone:
                ToneRule::Value(
                    if scheme.is_dark { Fixed::from_int(20) } else { Fixed::from_int(95) },
                ),
            is_background: false,
            chroma_multiplier: Fixed::from_int(1),
            background: Some(Role::InverseSurface),
            second_background: None,
            contrast_curve: Some(
                ContrastCurve::new(
                    Fixed::from_tenths(45),
                    Fixed::from_int(7),
                    Fixed::from_int(11),
                    Fixed::from_int(21),
                ),
            ),
            tone_delta_pair: None,
            opacity: None,
        }
    }

    #[verifier::when_used_as_spec(spec_inverse_on_surface)]
    pub fn inverse_on_surface(scheme: &DynamicScheme) -> (out: RoleDefinition)
        ensures
            out == Self::spec_inverse_on_surface(scheme),
    {
        RoleDefinition {
            role: Role::InverseOnSurface,
            palette: PaletteKind::Neutral,
            tone:
                ToneRule::Value(
                    if scheme.is_dark { Fixed::from_int(20) } else { Fixed::from_int(95) },
                ),
            is_background: false,
            chroma_multiplier: Fixed::from_int(1),
            background: Some(Role::InverseSurface),
            second_background: None,
            contrast_curve: Some(
                ContrastCurve::new(
                    Fixed::from_tenths(45),
                    Fixed::from_int(7),
                    Fixed::from_int(11),
                    Fixed::from_int(21),
                ),
            ),
            tone_delta_pair: None,
            opacity: None,
        }
    }

    /// Outlines that matter, such as that of a text field.
    pub open spec fn spec_outline(scheme: &DynamicScheme) -> RoleDefinition {
        RoleDefinition {
            role: Role::Outline,
            palette: PaletteKind::NeutralVariant,
            tone:
                ToneRule::Value(
                    if scheme.is_dark { Fixed::from_int(60) } else { Fixed::from_int(50) },
                ),
            is_background: false,
            chroma_multiplier: Fixed::from_int(1),
            background: Some(ColorSpec2021::highest_surface(scheme)),
            second_background: None,
            contrast_curve: Some(
                ContrastCurve::new(
                    Fixed::from_tenths(15),
                    Fixed::from_int(3),
                    Fixed::from_tenths(45),
                    Fixed::from_int(7),
                ),
            ),
            tone_delta_pair: None,
            opacity: None,
        }
    }

    #[verifier::when_used_as_spec(spec_outline)]
    pub fn outline(scheme: &DynamicScheme) -> (out: RoleDefinition)
        ensures
            out == Self::spec_outline(scheme),
    {
        RoleDefinition {
            role: Role::Outline,
            palette: PaletteKind::NeutralVariant,
            tone:
                ToneRule::Value(
                    if scheme.is_dark { Fixed::from_int(60) } else { Fixed::from_int(50) },
                ),
            is_background: false,
            chroma_multiplier: Fixed::from_int(1),
            background: Some(ColorSpec2021::highest_surface(scheme)),
            second_background: None,
            contrast_curve: Some(
                ContrastCurve::new(
                    Fixed::from_tenths(15),
                    Fixed::from_int(3),
                    Fixed::from_tenths(45),
                    Fixed::from_int(7),
                ),
            ),
            tone_delta_pair: None,
            opacity: None,
        }
    }

    /// Outlines for decoration, such as dividers.
    pub open spec fn spec_outline_variant(scheme: &DynamicScheme) -> RoleDefinition {
        RoleDefinition {
            role: Role::OutlineVariant,
            palette: PaletteKind::NeutralVariant,
            tone:
                ToneRule::Value(
                    if scheme.is_dark { Fixed::from_int(30) } else { Fixed::from_int(80) },
                ),
            is_background: false,
            chroma_multiplier: Fixed::from_int(1),
            background: Some(ColorSpec2021::highest_surface(scheme)),
            second_background: None,
            contrast_curve: Some(
                ContrastCurve::new(
                    Fixed::from_int(1),
                    Fixed::from_int(1),
                    Fixed::from_int(3),
                    Fixed::from_tenths(45),
                ),
            ),
            tone_delta_pair: None,
            opacity: None,
        }
    }

    #[verifier::when_used_as_spec(spec_outline_variant)]
    pub fn outline_variant(scheme: &DynamicScheme) -> (out: RoleDefinition)
        ensures
            out == Self::spec_outline_variant(scheme),
    {
        RoleDefinition {
            role: Role::OutlineVariant,
            palette: PaletteKind::NeutralVariant,
            tone:
                ToneRule::Value(
                    if scheme.is_dark { Fixed::from_int(30) } else { Fixed::from_int(80) },
                ),
            is_background: false,
            chroma_multiplier: Fixed::from_int(1),
            background: Some(ColorSpec2021::highest_surface(scheme)),
            second_background: None,
            contrast_curve: Some(
                ContrastCurve::new(
                    Fixed::from_int(1),
                    Fixed::from_int(1),
                    Fixed::from_int(3),
                    Fixed::from_tenths(45),
                ),
            ),
            tone_delta_pair: None,
            opacity: None,
        }
    }

    /// Shadows.
    pub open spec fn spec_shadow(scheme: &DynamicScheme) -> RoleDefinition {
        RoleDefinition {
            role: Role::Shadow,
            palette: PaletteKind::Neutral,
            tone: ToneRule::Value(Fixed::from_int(0)),
            is_background: false,
            chroma_multiplier: Fixed::from_int(1),
            background: None,
            second_background: None,
            contrast_curve: None,
            tone_delta_pair: None,
            opacity: None,
        }
    }

    #[verifier::when_used_as_spec(spec_shadow)]
    pub fn shadow(scheme: &DynamicScheme) -> (out: RoleDefinition)
        ensures
            out == Self::spec_shadow(scheme),
    {
        RoleDefinition {
            role: Role::Shadow,
            palette: PaletteKind::Neutral,
            tone: ToneRule::Value(Fixed::from_int(0)),
            is_background: false,
            chroma_multiplier: Fixed::from_int(1),
            background: None,
            second_background: None,
            contrast_curve: None,
            tone_delta_pair: None,
            opacity: None,
        }
    }

    /// The veil over what lies behind a dialog.
    pub open spec fn spec_scrim(scheme: &DynamicScheme) -> RoleDefinition {
        RoleDefinition {
            role: Role::Scrim,
            palette: PaletteKind::Neutral,
            tone: ToneRule::Value(Fixed::from_int(0)),
            is_background: false,
            chroma_multiplier: Fixed::from_int(1),
            background: None,
            second_background: None,
            contrast_curve: None,
            tone_delta_pair: None,
            opacity: None,
        }
    }

    #[verifier::when_used_as_spec(spec_scrim)]
    pub fn scrim(scheme: &DynamicScheme) -> (out: RoleDefinition)
        ensures
            out == Self::spec_scrim(scheme),
    {
        RoleDefinition {
            role: Role::Scrim,
            palette: PaletteKind::Neutral,
            tone: ToneRule::Value(Fixed::from_int(0)),
            is_background: false,
            chroma_multiplier: Fixed::from_int(1),
            background: None,
            second_background: None,
            contrast_curve: None,
            tone_delta_pair: None,
            opacity: None,
        }
    }

    /// The tint that elevation gives a surface.
    pub open spec fn spec_surface_tint(scheme: &DynamicScheme) -> RoleDefinition {
        RoleDefinition {
            role: Role::SurfaceTint,
            palette: PaletteKind::Primary,
            tone:
                ToneRule::Value(
                    if scheme.is_dark { Fixed::from_int(80) } else { Fixed::from_int(40) },
                ),
            is_background: true,
            chroma_multiplier: Fixed::from_int(1),
            background: None,
            second_background: None,
            contrast_curve: None,
            tone_delta_pair: None,
            opacity: None,
        }
    }

    #[verifier::when_used_as_spec(spec_surface_tint)]
    pub fn surface_tint(scheme: &DynamicScheme) -> (out: RoleDefinition)
        ensures
            out == Self::spec_surface_tint(scheme),
    {
        RoleDefinition {
            role: Role::SurfaceTint,
            palette: PaletteKind::Primary,
            tone:
                ToneRule::Value(
                    if scheme.is_dark { Fixed::from_int(80) } else { Fixed::from_int(40) },
                ),
            is_background: true,
            chroma_multiplier: Fixed::from_int(1),
            background: None,
            second_background: None,
            contrast_curve: None,
            tone_delta_pair: None,
            opacity: None,
        }
    }

    /// The accent that stands out most.
    pub open spec fn spec_primary(scheme: &DynamicScheme) -> RoleDefinition {
        RoleDefinition {
            role: Role::Primary,
            palette: PaletteKind::Primary,
            tone: ToneRule::Value(
                if scheme.variant == Variant::Monochrome {
                    if scheme.is_dark { Fixed::from_int(100) } else { Fixed::from_int(0) }
                } else {
                    if scheme.is_dark { Fixed::from_int(80) } else { Fixed::from_int(40) }
                },
            ),
            is_background: true,
            chroma_multiplier: Fixed::from_int(1),
            background: Some(ColorSpec2021::highest_surface(scheme)),
            second_background: None,
            contrast_curve: Some(
                ContrastCurve::new(
                    Fixed::from_int(3),
                    Fixed::from_tenths(45),
                    Fixed::from_int(7),
                    Fixed::from_int(7),
                ),
            ),
            tone_delta_pair: Some(
                ToneDeltaPair::new(
                    Role::PrimaryContainer,
                    Role::Primary,
                    Fixed::from_int(10),
                    TonePolarity::RelativeLighter,
                    false,
                    DeltaConstraint::Nearer,
                ),
            ),
            opacity: None,
        }
    }

    #[verifier::when_used_as_spec(spec_primary)]
    pub fn primary(scheme: &DynamicScheme) -> (out: RoleDefinition)
        ensures
            out == Self::spec_primary(scheme),
    {
        RoleDefinition {
            role: Role::Primary,
            palette: PaletteKind::Primary,
            tone: ToneRule::Value(
                if scheme.variant == Variant::Monochrome {
                    if scheme.is_dark { Fixed::from_int(100) } else { Fixed::from_int(0) }
                } else {
                    if scheme.is_dark { Fixed::from_int(80) } else { Fixed::from_int(40) }
                },
            ),
            is_background: true,
            chroma_multiplier: Fixed::from_int(1),
            background: Some(ColorSpec2021::highest_surface(scheme)),
            second_background: None,
            contrast_curve: Some(
                ContrastCurve::new(
                    Fixed::from_int(3),
                    Fixed::from_tenths(45),
                    Fixed::from_int(7),
                    Fixed::from_int(7),
                ),
            ),
            tone_delta_pair: Some(
                ToneDeltaPair::new(
                    Role::PrimaryContainer,
                    Role::Primary,
                    Fixed::from_int(10),
                    TonePolarity::RelativeLighter,
                    false,
                    DeltaConstraint::Nearer,
                ),
            ),
            opacity: None,
        }
    }

    /// Text and icons on primary.
    pub open spec fn spec_on_primary(scheme: &DynamicScheme) -> RoleDefinition {
        RoleDefinition {
            role: Role::OnPrimary,
            palette: PaletteKind::Primary,
            tone: ToneRule::Value(
                if scheme.variant == Variant::Monochrome {
                    if scheme.is_dark { Fixed::from_int(10) } else { Fixed::from_int(90) }
                } else {
                    if scheme.is_dark { Fixed::from_int(20) } else { Fixed::from_int(100) }
                },
            ),
            is_background: false,
            chroma_multiplier: Fixed::from_int(1),
            background: Some(Role::Primary),
            second_background: None,
            contrast_curve: Some(
                ContrastCurve::new(
                    Fixed::from_tenths(45),
                    Fixed::from_int(7),
                    Fixed::from_int(11),
                    Fixed::from_int(21),
                ),
            ),
            tone_delta_pair: None,
            opacity: None,
        }
    }

    #[verifier::when_used_as_spec(spec_on_primary)]
    pub fn on_primary(scheme: &DynamicScheme) -> (out: RoleDefinition)
        ensures
            out == Self::spec_on_primary(scheme),
    {
        RoleDefinition {
            role: Role::OnPrimary,
            palette: PaletteKind::Primary,
            tone: ToneRule::Value(
                if scheme.variant == Variant::Monochrome {
                    if scheme.is_dark { Fixed::from_int(10) } else { Fixed::from_int(90) }
                } else {
                    if scheme.is_dark { Fixed::from_int(20) } else { Fixed::from_int(100) }
                },
            ),
            is_background: false,
            chroma_multiplier: Fixed::from_int(1),
            background: Some(Role::Primary),
            second_background: None,
            contrast_curve: Some(
                ContrastCurve::new(
                    Fixed::from_tenths(45),
                    Fixed::from_int(7),
                    Fixed::from_int(11),
                    Fixed::from_int(21),
                ),
            ),
            tone_delta_pair: None,
            opacity: None,
        }
    }

    /// A container in the primary accent.
    pub open spec fn spec_primary_container(scheme: &DynamicScheme) -> RoleDefinition {
        RoleDefinition {
            role: Role::PrimaryContainer,
            palette: PaletteKind::Primary,
            tone: ToneRule::Value(
                if (scheme.variant == Variant::Fidelity || scheme.variant == Variant::Content) {
                    scheme.source_color_hct.tone
                } else {
                    if scheme.variant == Variant::Monochrome {
                        if scheme.is_dark { Fixed::from_int(85) } else { Fixed::from_int(25) }
                    } else {
                        if scheme.is_dark { Fixed::from_int(30) } else { Fixed::from_int(90) }
                    }
                },
            ),
            is_background: true,
            chroma_multiplier: Fixed::from_int(1),
            background: Some(ColorSpec2021::highest_surface(scheme)),
            second_background: None,
            contrast_curve: Some(
                ContrastCurve::new(
                    Fixed::from_int(1),
                    Fixed::from_int(1),
                    Fixed::from_int(3),
                    Fixed::from_tenths(45),
                ),
            ),
            tone_delta_pair: Some(
                ToneDeltaPair::new(
                    Role::PrimaryContainer,
                    Role::Primary,
                    Fixed::from_int(10),
                    TonePolarity::RelativeLighter,
                    false,
                    DeltaConstraint::Nearer,
                ),
            ),
            opacity: None,
        }
    }

    #[verifier::when_used_as_spec(spec_primary_container)]
    pub fn primary_container(scheme: &DynamicScheme) -> (out: RoleDefinition)
        ensures
            out == Self::spec_primary_container(scheme),
    {
        RoleDefinition {
            role: Role::PrimaryContainer,
            palette: PaletteKind::Primary,
            tone: ToneRule::Value(
                if (scheme.variant == Variant::Fidelity || scheme.variant == Variant::Content) {
                    scheme.source_color_hct.tone
                } else {
                    if scheme.variant == Variant::Monochrome {
                        if scheme.is_dark { Fixed::from_int(85) } else { Fixed::from_int(25) }
                    } else {
                        if scheme.is_dark { Fixed::from_int(30) } else { Fixed::from_int(90) }
                    }
                },
            ),
            is_background: true,
            chroma_multiplier: Fixed::from_int(1),
            background: Some(ColorSpec2021::highest_surface(scheme)),
            second_background: None,
            contrast_curve: Some(
                ContrastCurve::new(
                    Fixed::from_int(1),
                    Fixed::from_int(1),
                    Fixed::from_int(3),
                    Fixed::from_tenths(45),
                ),
            ),
            tone_delta_pair: Some(
                ToneDeltaPair::new(
                    Role::PrimaryContainer,
                    Role::Primary,
                    Fixed::from_int(10),
                    TonePolarity::RelativeLighter,
                    false,
                    DeltaConstraint::Nearer,
                ),
            ),
            opacity: None,
        }
    }

    /// Text and icons on the primary container.
    pub open spec fn spec_on_primary_container(scheme: &DynamicScheme) -> RoleDefinition {
        RoleDefinition {
            role: Role::OnPrimaryContainer,
            palette: PaletteKind::Primary,
            tone: ToneRule::Value(
                if (scheme.variant == Variant::Fidelity || scheme.variant == Variant::Content) {
                    DynamicColor::foreground_tone(
                        scheme.source_color_hct.tone,
                        Fixed::from_tenths(45),
                    )
                } else {
                    if scheme.variant == Variant::Monochrome {
                        if scheme.is_dark { Fixed::from_int(0) } else { Fixed::from_int(100) }
                    } else {
                        if scheme.is_dark { Fixed::from_int(90) } else { Fixed::from_int(30) }
                    }
                },
            ),
            is_background: false,
            chroma_multiplier: Fixed::from_int(1),
            background: Some(Role::PrimaryContainer),
            second_background: None,
            contrast_curve: Some(
                ContrastCurve::new(
                    Fixed::from_int(3),
                    Fixed::from_tenths(45),
                    Fixed::from_int(7),
                    Fixed::from_int(11),
                ),
            ),
            tone_delta_pair: None,
            opacity: None,
        }
    }

    #[verifier::when_used_as_spec(spec_on_primary_container)]
    pub fn on_primary_container(scheme: &DynamicScheme) -> (out: RoleDefinition)
        ensures
            out == Self::spec_on_primary_container(scheme),
    {
        RoleDefinition {
            role: Role::OnPrimaryContainer,
            palette: PaletteKind::Primary,
            tone: ToneRule::Value(
                if (scheme.variant == Variant::Fidelity || scheme.variant == Variant::Content) {
                    DynamicColor::foreground_tone(
                        scheme.source_color_hct.tone,
                        Fixed::from_tenths(45),
                    )
                } else {
                    if scheme.variant == Variant::Monochrome {
                        if scheme.is_dark { Fixed::from_int(0) } else { Fixed::from_int(100) }
                    } else {
                        if scheme.is_dark { Fixed::from_int(90) } else { Fixed::from_int(30) }
                    }
                },
            ),
            is_background: false,
            chroma_multiplier: Fixed::from_int(1),
            background: Some(Role::PrimaryContainer),
            second_background: None,
            contrast_curve: Some(
                ContrastCurve::new(
                    Fixed::from_int(3),
                    Fixed::from_tenths(45),
                    Fixed::from_int(7),
                    Fixed::from_int(11),
                ),
            ),
            tone_delta_pair: None,
            opacity: None,
        }
    }

    /// The primary accent on the inverse surface.
    pub open spec fn spec_inverse_primary(scheme: &DynamicScheme) -> RoleDefinition {
        RoleDefinition {
            role: Role::InversePrimary,
            palette: PaletteKind::Primary,
            tone:
                ToneRule::Value(
                    if scheme.is_dark { Fixed::from_int(40) } else { Fixed::from_int(80) },
                ),
            is_background: false,
            chroma_multiplier: Fixed::from_int(1),
            background: Some(Role::InverseSurface),
            second_background: None,
            contrast_curve: Some(
                ContrastCurve::new(
                    Fixed::from_int(3),
                    Fixed::from_tenths(45),
                    Fixed::from_int(7),
                    Fixed::from_int(7),
                ),
            ),
            tone_delta_pair: None,
            opacity: None,
        }
    }

    #[verifier::when_used_as_spec(spec_inverse_primary)]
    pub fn inverse_primary(scheme: &DynamicScheme) -> (out: RoleDefinition)
        ensures
            out == Self::spec_inverse_primary(scheme),
    {
        RoleDefinition {
            role: Role::InversePrimary,
            palette: PaletteKind::Primary,
            tone:
                ToneRule::Value(
                    if scheme.is_dark { Fixed::from_int(40) } else { Fixed::from_int(80) },
                ),
            is_background: false,
            chroma_multiplier: Fixed::from_int(1),
            background: Some(Role::InverseSurface),
            second_background: None,
            contrast_curve: Some(
                ContrastCurve::new(
                    Fixed::from_int(3),
                    Fixed::from_tenths(45),
                    Fixed::from_int(7),
                    Fixed::from_int(7),
                ),
            ),
            tone_delta_pair: None,
            opacity: None,
        }
    }

    /// The primary accent that is the same in light and dark schemes.
    pub open spec fn spec_primary_fixed(scheme: &DynamicScheme) -> RoleDefinition {
        RoleDefinition {
            role: Role::PrimaryFixed,
            palette: PaletteKind::Primary,
            tone: ToneRule::Value(
                if scheme.variant == Variant::Monochrome {
                    Fixed::from_int(40)
                } else {
                    Fixed::from_int(90)
                },
            ),
            is_background: true,
            chroma_multiplier: Fixed::from_int(1),
            background: Some(ColorSpec2021::highest_surface(scheme)),
            second_background: None,
            contrast_curve: Some(
                ContrastCurve::new(
                    Fixed::from_int(1),
                    Fixed::from_int(1),
                    Fixed::from_int(3),
                    Fixed::from_tenths(45),
                ),
            ),
            tone_delta_pair: Some(
                ToneDeltaPair::new(
                    Role::PrimaryFixed,
                    Role::PrimaryFixedDim,
                    Fixed::from_int(10),
                    TonePolarity::Ligher,
                    true,
                    DeltaConstraint::Exact,
                ),
            ),
            opacity: None,
        }
    }

    #[verifier::when_used_as_spec(spec_primary_fixed)]
    pub fn primary_fixed(scheme: &DynamicScheme) -> (out: RoleDefinition)
        ensures
            out == Self::spec_primary_fixed(scheme),
    {
        RoleDefinition {
            role: Role::PrimaryFixed,
            palette: PaletteKind::Primary,
            tone: ToneRule::Value(
                if scheme.variant == Variant::Monochrome {
                    Fixed::from_int(40)
                } else {
                    Fixed::from_int(90)
                },
            ),
            is_background: true,
            chroma_multiplier: Fixed::from_int(1),
            background: Some(ColorSpec2021::highest_surface(scheme)),
            second_background: None,
            contrast_curve: Some(
                ContrastCurve::new(
                    Fixed::from_int(1),
                    Fixed::from_int(1),
                    Fixed::from_int(3),
                    Fixed::from_tenths(45),
                ),
            ),
            tone_delta_pair: Some(
                ToneDeltaPair::new(
                    Role::PrimaryFixed,
                    Role::PrimaryFixedDim,
                    Fixed::from_int(10),
                    TonePolarity::Ligher,
                    true,
                    DeltaConstraint::Exact,
                ),
            ),
            opacity: None,
        }
    }

    /// The dimmer form of the fixed primary accent.
    pub open spec fn spec_primary_fixed_dim(scheme: &DynamicScheme) -> RoleDefinition {
        RoleDefinition {
            role: Role::PrimaryFixedDim,
            palette: PaletteKind::Primary,
            tone: ToneRule::Value(
                if scheme.variant == Variant::Monochrome {
                    Fixed::from_int(30)
                } else {
                    Fixed::from_int(80)
                },
            ),
            is_background: true,
            chroma_multiplier: Fixed::from_int(1),
            background: Some(ColorSpec2021::highest_surface(scheme)),
            second_background: None,
            contrast_curve: Some(
                ContrastCurve::new(
                    Fixed::from_int(1),
                    Fixed::from_int(1),
                    Fixed::from_int(3),
                    Fixed::from_tenths(45),
                ),
            ),
            tone_delta_pair: Some(
                ToneDeltaPair::new(
                    Role::PrimaryFixed,
                    Role::PrimaryFixedDim,
                    Fixed::from_int(10),
                    TonePolarity::Ligher,
                    true,
                    DeltaConstraint::Exact,
                ),
            ),
            opacity: None,
        }
    }

    #[verifier::when_used_as_spec(spec_primary_fixed_dim)]
    pub fn primary_fixed_dim(scheme: &DynamicScheme) -> (out: RoleDefinition)
        ensures
            out == Self::spec_primary_fixed_dim(scheme),
    {
        RoleDefinition {
            role: Role::PrimaryFixedDim,
            palette: PaletteKind::Primary,
            tone: ToneRule::Value(
                if scheme.variant == Variant::Monochrome {
                    Fixed::from_int(30)
                } else {
                    Fixed::from_int(80)
                },
            ),
            is_background: true,
            chroma_multiplier: Fixed::from_int(1),
            background: Some(ColorSpec2021::highest_surface(scheme)),
            second_background: None,
            contrast_curve: Some(
                ContrastCurve::new(
                    Fixed::from_int(1),
                    Fixed::from_int(1),
                    Fixed::from_int(3),
                    Fixed::from_tenths(45),
                ),
            ),
            tone_delta_pair: Some(
                ToneDeltaPair::new(
                    Role::PrimaryFixed,
                    Role::PrimaryFixedDim,
                    Fixed::from_int(10),
                    TonePolarity::Ligher,
                    true,
                    DeltaConstraint::Exact,
                ),
            ),
            opacity: None,
        }
    }

    /// Text and icons on the fixed primary accent.
    pub open spec fn spec_on_primary_fixed(scheme: &DynamicScheme) -> RoleDefinition {
        RoleDefinition {
            role: Role::OnPrimaryFixed,
            palette: PaletteKind::Primary,
            tone: ToneRule::Value(
                if scheme.variant == Variant::Monochrome {
                    Fixed::from_int(100)
                } else {
                    Fixed::from_int(10)
                },
            ),
            is_background: false,
            chroma_multiplier: Fixed::from_int(1),
            background: Some(Role::PrimaryFixedDim),
            second_background: Some(Role::PrimaryFixed),
            contrast_curve: Some(
                ContrastCurve::new(
                    Fixed::from_tenths(45),
                    Fixed::from_int(7),
                    Fixed::from_int(11),
                    Fixed::from_int(21),
                ),
            ),
            tone_delta_pair: None,
            opacity: None,
        }
    }

    #[verifier::when_used_as_spec(spec_on_primary_fixed)]
    pub fn on_primary_fixed(scheme: &DynamicScheme) -> (out: RoleDefinition)
        ensures
            out == Self::spec_on_primary_fixed(scheme),
    {
        RoleDefinition {
            role: Role::OnPrimaryFixed,
            palette: PaletteKind::Primary,
            tone: ToneRule::Value(
                if scheme.variant == Variant::Monochrome {
                    Fixed::from_int(100)
                } else {
                    Fixed::from_int(10)
                },
            ),
            is_background: false,
            chroma_multiplier: Fixed::from_int(1),
            background: Some(Role::PrimaryFixedDim),
            second_background: Some(Role::PrimaryFixed),
            contrast_curve: Some(
                ContrastCurve::new(
                    Fixed::from_tenths(45),
                    Fixed::from_int(7),
                    Fixed::from_int(11),
                    Fixed::from_int(21),
                ),
            ),
            tone_delta_pair: None,
            opacity: None,
        }
    }

    /// Text and icons of lower emphasis on the fixed primary accent.
    pub open spec fn spec_on_primary_fixed_variant(scheme: &DynamicScheme) -> RoleDefinition {
        RoleDefinition {
            role: Role::OnPrimaryFixedVariant,
            palette: PaletteKind::Primary,
            tone: ToneRule::Value(
                if scheme.variant == Variant::Monochrome {
                    Fixed::from_int(90)
                } else {
                    Fixed::from_int(30)
                },
            ),
            is_background: false,
            chroma_multiplier: Fixed::from_int(1),
            background: Some(Role::PrimaryFixedDim),
            second_background: Some(Role::PrimaryFixed),
            contrast_curve: Some(
                ContrastCurve::new(
                    Fixed::from_int(3),
                    Fixed::from_tenths(45),
                    Fixed::from_int(7),
                    Fixed::from_int(11),
                ),
            ),
            tone_delta_pair: None,
            opacity: None,
        }
    }

    #[verifier::when_used_as_spec(spec_on_primary_fixed_variant)]
    pub fn on_primary_fixed_variant(scheme: &DynamicScheme) -> (out: RoleDefinition)
        ensures
            out == Self::spec_on_primary_fixed_variant(scheme),
    {
        RoleDefinition {
            role: Role::OnPrimaryFixedVariant,
            palette: PaletteKind::Primary,
            tone: ToneRule::Value(
                if scheme.variant == Variant::Monochrome {
                    Fixed::from_int(90)
                } else {
                    Fixed::from_int(30)
                },
            ),
            is_background: false,
            chroma_multiplier: Fixed::from_int(1),
            background: Some(Role::PrimaryFixedDim),
            second_background: Some(Role::PrimaryFixed),
            contrast_curve: Some(
                ContrastCurve::new(
                    Fixed::from_int(3),
                    Fixed::from_tenths(45),
                    Fixed::from_int(7),
                    Fixed::from_int(11),
                ),
            ),
            tone_delta_pair: None,
            opacity: None,
        }
    }

    /// The accent of less weight.
    pub open spec fn spec_secondary(scheme: &DynamicScheme) -> RoleDefinition {
        RoleDefinition {
            role: Role::Secondary,
            palette: PaletteKind::Secondary,
            tone:
                ToneRule::Value(
                    if scheme.is_dark { Fixed::from_int(80) } else { Fixed::from_int(40) },
                ),
            is_background: true,
            chroma_multiplier: Fixed::from_int(1),
            background: Some(ColorSpec2021::highest_surface(scheme)),
            second_background: None,
            contrast_curve: Some(
                ContrastCurve::new(
                    Fixed::from_int(3),
                    Fixed::from_tenths(45),
                    Fixed::from_int(7),
                    Fixed::from_int(7),
                ),
            ),
            tone_delta_pair: Some(
                ToneDeltaPair::new(
                    Role::SecondaryContainer,
                    Role::Secondary,
                    Fixed::from_int(10),
                    TonePolarity::RelativeLighter,
                    false,
                    DeltaConstraint::Nearer,
                ),
            ),
            opacity: None,
        }
    }

    #[verifier::when_used_as_spec(spec_secondary)]
    pub fn secondary(scheme: &DynamicScheme) -> (out: RoleDefinition)
        ensures
            out == Self::spec_secondary(scheme),
    {
        RoleDefinition {
            role: Role::Secondary,
            palette: PaletteKind::Secondary,
            tone:
                ToneRule::Value(
                    if scheme.is_dark { Fixed::from_int(80) } else { Fixed::from_int(40) },
                ),
            is_background: true,
            chroma_multiplier: Fixed::from_int(1),
            background: Some(ColorSpec2021::highest_surface(scheme)),
            second_background: None,
            contrast_curve: Some(
                ContrastCurve::new(
                    Fixed::from_int(3),
                    Fixed::from_tenths(45),
                    Fixed::from_int(7),
                    Fixed::from_int(7),
                ),
            ),
            tone_delta_pair: Some(
                ToneDeltaPair::new(
                    Role::SecondaryContainer,
                    Role::Secondary,
                    Fixed::from_int(10),
                    TonePolarity::RelativeLighter,
                    false,
                    DeltaConstraint::Nearer,
                ),
            ),
            opacity: None,
        }
    }

    /// Text and icons on secondary.
    pub open spec fn spec_on_secondary(scheme: &DynamicScheme) -> RoleDefinition {
        RoleDefinition {
            role: Role::OnSecondary,
            palette: PaletteKind::Secondary,
            tone: ToneRule::Value(
                if scheme.variant == Variant::Monochrome {
                    if scheme.is_dark { Fixed::from_int(10) } else { Fixed::from_int(100) }
                } else {
                    if scheme.is_dark { Fixed::from_int(20) } else { Fixed::from_int(100) }
                },
            ),
            is_background: false,
            chroma_multiplier: Fixed::from_int(1),
            background: Some(Role::Secondary),
            second_background: None,
            contrast_curve: Some(
                ContrastCurve::new(
                    Fixed::from_tenths(45),
                    Fixed::from_int(7),
                    Fixed::from_int(11),
                    Fixed::from_int(21),
                ),
            ),
            tone_delta_pair: None,
            opacity: None,
        }
    }

    #[verifier::when_used_as_spec(spec_on_secondary)]
    pub fn on_secondary(scheme: &DynamicScheme) -> (out: RoleDefinition)
        ensures
            out == Self::spec_on_secondary(scheme),
    {
        RoleDefinition {
            role: Role::OnSecondary,
            palette: PaletteKind::Secondary,
            tone: ToneRule::Value(
                if scheme.variant == Variant::Monochrome {
                    if scheme.is_dark { Fixed::from_int(10) } else { Fixed::from_int(100) }
                } else {
                    if scheme.is_dark { Fixed::from_int(20) } else { Fixed::from_int(100) }
                },
            ),
            is_background: false,
            chroma_multiplier: Fixed::from_int(1),
            background: Some(Role::Secondary),
            second_background: None,
            contrast_curve: Some(
                ContrastCurve::new(
                    Fixed::from_tenths(45),
                    Fixed::from_int(7),
                    Fixed::from_int(11),
                    Fixed::from_int(21),
                ),
            ),
            tone_delta_pair: None,
            opacity: None,
        }
    }

    /// A container in the secondary accent.
    pub open spec fn spec_secondary_container(scheme: &DynamicScheme) -> RoleDefinition {
        RoleDefinition {
            role: Role::SecondaryContainer,
            palette: PaletteKind::Secondary,
            tone: ToneRule::Value(
                if scheme.variant == Variant::Monochrome {
                    if scheme.is_dark { Fixed::from_int(30) } else { Fixed::from_int(85) }
                } else if !(scheme.variant == Variant::Fidelity || scheme.variant == Variant::Content) {
                    if scheme.is_dark { Fixed::from_int(30) } else { Fixed::from_int(90) }
                } else {
                    ColorSpec2021::fidelity_secondary_container_tone(scheme)
                },
            ),
            is_background: true,
            chroma_multiplier: Fixed::from_int(1),
            background: Some(ColorSpec2021::highest_surface(scheme)),
            second_background: None,
            contrast_curve: Some(
                ContrastCurve::new(
                    Fixed::from_int(1),
                    Fixed::from_int(1),
                    Fixed::from_int(3),
                    Fixed::from_tenths(45),
                ),
            ),
            tone_delta_pair: Some(
                ToneDeltaPair::new(
                    Role::SecondaryContainer,
                    Role::Secondary,
                    Fixed::from_int(10),
                    TonePolarity::RelativeLighter,
                    false,
                    DeltaConstraint::Nearer,
                ),
            ),
            opacity: None,
        }
    }

    #[verifier::when_used_as_spec(spec_secondary_container)]
    pub fn secondary_container(scheme: &DynamicScheme) -> (out: RoleDefinition)
        ensures
            out == Self::spec_secondary_container(scheme),
    {
        RoleDefinition {
            role: Role::SecondaryContainer,
            palette: PaletteKind::Secondary,
            tone: ToneRule::Value(
                if scheme.variant == Variant::Monochrome {
                    if scheme.is_dark { Fixed::from_int(30) } else { Fixed::from_int(85) }
                } else if !(scheme.variant == Variant::Fidelity || scheme.variant == Variant::Content) {
                    if scheme.is_dark { Fixed::from_int(30) } else { Fixed::from_int(90) }
                } else {
                    ColorSpec2021::fidelity_secondary_container_tone(scheme)
                },
            ),
            is_background: true,
            chroma_multiplier: Fixed::from_int(1),
            background: Some(ColorSpec2021::highest_surface(scheme)),
            second_background: None,
            contrast_curve: Some(
                ContrastCurve::new(
                    Fixed::from_int(1),
                    Fixed::from_int(1),
                    Fixed::from_int(3),
                    Fixed::from_tenths(45),
                ),
            ),
            tone_delta_pair: Some(
                ToneDeltaPair::new(
                    Role::SecondaryContainer,
                    Role::Secondary,
                    Fixed::from_int(10),
                    TonePolarity::RelativeLighter,
                    false,
                    DeltaConstraint::Nearer,
                ),
            ),
            opacity: None,
        }
    }

    /// Text and icons on the secondary container.
    pub open spec fn spec_on_secondary_container(scheme: &DynamicScheme) -> RoleDefinition {
        RoleDefinition {
            role: Role::OnSecondaryContainer,
            palette: PaletteKind::Secondary,
            tone: ToneRule::Value(
                if scheme.variant == Variant::Monochrome {
                    if scheme.is_dark { Fixed::from_int(10) } else { Fixed::from_int(100) }
                } else if !(scheme.variant == Variant::Fidelity || scheme.variant == Variant::Content) {
                    if scheme.is_dark { Fixed::from_int(90) } else { Fixed::from_int(30) }
                } else {
                    DynamicColor::foreground_tone(
                        ColorSpec2021::fidelity_secondary_container_tone(scheme),
                        Fixed::from_tenths(45),
                    )
                },
            ),
            is_background: false,
            chroma_multiplier: Fixed::from_int(1),
            background: Some(Role::SecondaryContainer),
            second_background: None,
            contrast_curve: Some(
                ContrastCurve::new(
                    Fixed::from_int(3),
                    Fixed::from_tenths(45),
                    Fixed::from_int(7),
                    Fixed::from_int(11),
                ),
            ),
            tone_delta_pair: None,
            opacity: None,
        }
    }

    #[verifier::when_used_as_spec(spec_on_secondary_container)]
    pub fn on_secondary_container(scheme: &DynamicScheme) -> (out: RoleDefinition)
        ensures
            out == Self::spec_on_secondary_container(scheme),
    {
        RoleDefinition {
            role: Role::OnSecondaryContainer,
            palette: PaletteKind::Secondary,
            tone: ToneRule::Value(
                if scheme.variant == Variant::Monochrome {
                    if scheme.is_dark { Fixed::from_int(10) } else { Fixed::from_int(100) }
                } else if !(scheme.variant == Variant::Fidelity || scheme.variant == Variant::Content) {
                    if scheme.is_dark { Fixed::from_int(90) } else { Fixed::from_int(30) }
                } else {
                    DynamicColor::foreground_tone(
                        ColorSpec2021::fidelity_secondary_container_tone(scheme),
                        Fixed::from_tenths(45),
                    )
                },
            ),
            is_background: false,
            chroma_multiplier: Fixed::from_int(1),
            background: Some(Role::SecondaryContainer),
            second_background: None,
            contrast_curve: Some(
                ContrastCurve::new(
                    Fixed::from_int(3),
                    Fixed::from_tenths(45),
                    Fixed::from_int(7),
                    Fixed::from_int(11),
                ),
            ),
            tone_delta_pair: None,
            opacity: None,
        }
    }

    /// The secondary accent that is the same in light and dark schemes.
    pub open spec fn spec_secondary_fixed(scheme: &DynamicScheme) -> RoleDefinition {
        RoleDefinition {
            role: Role::SecondaryFixed,
            palette: PaletteKind::Secondary,
            tone: ToneRule::Value(
                if scheme.variant == Variant::Monochrome {
                    Fixed::from_int(80)
                } else {
                    Fixed::from_int(90)
                },
            ),
            is_background: true,
            chroma_multiplier: Fixed::from_int(1),
            background: Some(ColorSpec2021::highest_surface(scheme)),
            second_background: None,
            contrast_curve: Some(
                ContrastCurve::new(
                    Fixed::from_int(1),
                    Fixed::from_int(1),
                    Fixed::from_int(3),
                    Fixed::from_tenths(45),
                ),
            ),
            tone_delta_pair: Some(
                ToneDeltaPair::new(
                    Role::SecondaryFixed,
                    Role::SecondaryFixedDim,
                    Fixed::from_int(10),
                    TonePolarity::Ligher,
                    true,
                    DeltaConstraint::Exact,
                ),
            ),
            opacity: None,
        }
    }

    #[verifier::when_used_as_spec(spec_secondary_fixed)]
    pub fn secondary_fixed(scheme: &DynamicScheme) -> (out: RoleDefinition)
        ensures
            out == Self::spec_secondary_fixed(scheme),
    {
        RoleDefinition {
            role: Role::SecondaryFixed,
            palette: PaletteKind::Secondary,
            tone: ToneRule::Value(
                if scheme.variant == Variant::Monochrome {
                    Fixed::from_int(80)
                } else {
                    Fixed::from_int(90)
                },
            ),
            is_background: true,
            chroma_multiplier: Fixed::from_int(1),
            background: Some(ColorSpec2021::highest_surface(scheme)),
            second_background: None,
            contrast_curve: Some(
                ContrastCurve::new(
                    Fixed::from_int(1),
                    Fixed::from_int(1),
                    Fixed::from_int(3),
                    Fixed::from_tenths(45),
                ),
            ),
            tone_delta_pair: Some(
                ToneDeltaPair::new(
                    Role::SecondaryFixed,
                    Role::SecondaryFixedDim,
                    Fixed::from_int(10),
                    TonePolarity::Ligher,
                    true,
                    DeltaConstraint::Exact,
                ),
            ),
            opacity: None,
        }
    }

    /// The dimmer form of the fixed secondary accent.
    pub open spec fn spec_secondary_fixed_dim(scheme: &DynamicScheme) -> RoleDefinition {
        RoleDefinition {
            role: Role::SecondaryFixedDim,
            palette: PaletteKind::Secondary,
            tone: ToneRule::Value(
                if scheme.variant == Variant::Monochrome {
                    Fixed::from_int(70)
                } else {
                    Fixed::from_int(80)
                },
            ),
            is_background: true,
            chroma_multiplier: Fixed::from_int(1),
            background: Some(ColorSpec2021::highest_surface(scheme)),
            second_background: None,
            contrast_curve: Some(
                ContrastCurve::new(
                    Fixed::from_int(1),
                    Fixed::from_int(1),
                    Fixed::from_int(3),
                    Fixed::from_tenths(45),
                ),
            ),
            tone_delta_pair: Some(
                ToneDeltaPair::new(
                    Role::SecondaryFixed,
                    Role::SecondaryFixedDim,
                    Fixed::from_int(10),
                    TonePolarity::Ligher,
                    true,
                    DeltaConstraint::Exact,
                ),
            ),
            opacity: None,
        }
    }

    #[verifier::when_used_as_spec(spec_secondary_fixed_dim)]
    pub fn secondary_fixed_dim(scheme: &DynamicScheme) -> (out: RoleDefinition)
        ensures
            out == Self::spec_secondary_fixed_dim(scheme),
    {
        RoleDefinition {
            role: Role::SecondaryFixedDim,
            palette: PaletteKind::Secondary,
            tone: ToneRule::Value(
                if scheme.variant == Variant::Monochrome {
                    Fixed::from_int(70)
                } else {
                    Fixed::from_int(80)
                },
            ),
            is_background: true,
            chroma_multiplier: Fixed::from_int(1),
            background: Some(ColorSpec2021::highest_surface(scheme)),
            second_background: None,
            contrast_curve: Some(
                ContrastCurve::new(
                    Fixed::from_int(1),
                    Fixed::from_int(1),
                    Fixed::from_int(3),
                    Fixed::from_tenths(45),
                ),
            ),
            tone_delta_pair: Some(
                ToneDeltaPair::new(
                    Role::SecondaryFixed,
                    Role::SecondaryFixedDim,
                    Fixed::from_int(10),
                    TonePolarity::Ligher,
                    true,
                    DeltaConstraint::Exact,
                ),
            ),
            opacity: None,
        }
    }

    /// Text and icons on the fixed secondary accent.
    pub open spec fn spec_on_secondary_fixed(scheme: &DynamicScheme) -> RoleDefinition {
        RoleDefinition {
            role: Role::OnSecondaryFixed,
            palette: PaletteKind::Secondary,
            tone: ToneRule::Value(Fixed::from_int(10)),
            is_background: false,
            chroma_multiplier: Fixed::from_int(1),
            background: Some(Role::SecondaryFixedDim),
            second_background: Some(Role::SecondaryFixed),
            contrast_curve: Some(
                ContrastCurve::new(
                    Fixed::from_tenths(45),
                    Fixed::from_int(7),
                    Fixed::from_int(11),
                    Fixed::from_int(21),
                ),
            ),
            tone_delta_pair: None,
            opacity: None,
        }
    }

    #[verifier::when_used_as_spec(spec_on_secondary_fixed)]
    pub fn on_secondary_fixed(scheme: &DynamicScheme) -> (out: RoleDefinition)
        ensures
            out == Self::spec_on_secondary_fixed(scheme),
    {
        RoleDefinition {
            role: Role::OnSecondaryFixed,
            palette: PaletteKind::Secondary,
            tone: ToneRule::Value(Fixed::from_int(10)),
            is_background: false,
            chroma_multiplier: Fixed::from_int(1),
            background: Some(Role::SecondaryFixedDim),
            second_background: Some(Role::SecondaryFixed),
            contrast_curve: Some(
                ContrastCurve::new(
                    Fixed::from_tenths(45),
                    Fixed::from_int(7),
                    Fixed::from_int(11),
                    Fixed::from_int(21),
                ),
            ),
            tone_delta_pair: None,
            opacity: None,
        }
    }

    /// Text and icons of lower emphasis on the fixed secondary accent.
    pub open spec fn spec_on_secondary_fixed_variant(scheme: &DynamicScheme) -> RoleDefinition {
        RoleDefinition {
            role: Role::OnSecondaryFixedVariant,
            palette: PaletteKind::Secondary,
            tone: ToneRule::Value(
                if scheme.variant == Variant::Monochrome {
                    Fixed::from_int(25)
                } else {
                    Fixed::from_int(30)
                },
            ),
            is_background: false,
            chroma_multiplier: Fixed::from_int(1),
            background: Some(Role::SecondaryFixedDim),
            second_background: Some(Role::SecondaryFixed),
            contrast_curve: Some(
                ContrastCurve::new(
                    Fixed::from_int(3),
                    Fixed::from_tenths(45),
                    Fixed::from_int(7),
                    Fixed::from_int(11),
                ),
            ),
            tone_delta_pair: None,
            opacity: None,
        }
    }

    #[verifier::when_used_as_spec(spec_on_secondary_fixed_variant)]
    pub fn on_secondary_fixed_variant(scheme: &DynamicScheme) -> (out: RoleDefinition)
        ensures
            out == Self::spec_on_secondary_fixed_variant(scheme),
    {
        RoleDefinition {
            role: Role::OnSecondaryFixedVariant,
            palette: PaletteKind::Secondary,
            tone: ToneRule::Value(
                if scheme.variant == Variant::Monochrome {
                    Fixed::from_int(25)
                } else {
                    Fixed::from_int(30)
                },
            ),
            is_background: false,
            chroma_multiplier: Fixed::from_int(1),
            background: Some(Role::SecondaryFixedDim),
            second_background: Some(Role::SecondaryFixed),
            contrast_curve: Some(
                ContrastCurve::new(
                    Fixed::from_int(3),
                    Fixed::from_tenths(45),
                    Fixed::from_int(7),
                    Fixed::from_int(11),
                ),
            ),
            tone_delta_pair: None,
            opacity: None,
        }
    }

    /// The accent that balances the other two.
    pub open spec fn spec_tertiary(scheme: &DynamicScheme) -> RoleDefinition {
        RoleDefinition {
            role: Role::Tertiary,
            palette: PaletteKind::Tertiary,
            tone: ToneRule::Value(
                if scheme.variant == Variant::Monochrome {
                    if scheme.is_dark { Fixed::from_int(90) } else { Fixed::from_int(25) }
                } else {
                    if scheme.is_dark { Fixed::from_int(80) } else { Fixed::from_int(40) }
                },
            ),
            is_background: true,
            chroma_multiplier: Fixed::from_int(1),
            background: Some(ColorSpec2021::highest_surface(scheme)),
            second_background: None,
            contrast_curve: Some(
                ContrastCurve::new(
                    Fixed::from_int(3),
                    Fixed::from_tenths(45),
                    Fixed::from_int(7),
                    Fixed::from_int(7),
                ),
            ),
            tone_delta_pair: Some(
                ToneDeltaPair::new(
                    Role::TertiaryContainer,
                    Role::Tertiary,
                    Fixed::from_int(10),
                    TonePolarity::RelativeLighter,
                    false,
                    DeltaConstraint::Nearer,
                ),
            ),
            opacity: None,
        }
    }

    #[verifier::when_used_as_spec(spec_tertiary)]
    pub fn tertiary(scheme: &DynamicScheme) -> (out: RoleDefinition)
        ensures
            out == Self::spec_tertiary(scheme),
    {
        RoleDefinition {
            role: Role::Tertiary,
            palette: PaletteKind::Tertiary,
            tone: ToneRule::Value(
                if scheme.variant == Variant::Monochrome {
                    if scheme.is_dark { Fixed::from_int(90) } else { Fixed::from_int(25) }
                } else {
                    if scheme.is_dark { Fixed::from_int(80) } else { Fixed::from_int(40) }
                },
            ),
            is_background: true,
            chroma_multiplier: Fixed::from_int(1),
            background: Some(ColorSpec2021::highest_surface(scheme)),
            second_background: None,
            contrast_curve: Some(
                ContrastCurve::new(
                    Fixed::from_int(3),
                    Fixed::from_tenths(45),
                    Fixed::from_int(7),
                    Fixed::from_int(7),
                ),
            ),
            tone_delta_pair: Some(
                ToneDeltaPair::new(
                    Role::TertiaryContainer,
                    Role::Tertiary,
                    Fixed::from_int(10),
                    TonePolarity::RelativeLighter,
                    false,
                    DeltaConstraint::Nearer,
                ),
            ),
            opacity: None,
        }
    }

    /// Text and icons on tertiary.
    pub open spec fn spec_on_tertiary(scheme: &DynamicScheme) -> RoleDefinition {
        RoleDefinition {
            role: Role::OnTertiary,
            palette: PaletteKind::Tertiary,
            tone: ToneRule::Value(
                if scheme.variant == Variant::Monochrome {
                    if scheme.is_dark { Fixed::from_int(10) } else { Fixed::from_int(100) }
                } else {
                    if scheme.is_dark { Fixed::from_int(20) } else { Fixed::from_int(100) }
                },
            ),
            is_background: false,
            chroma_multiplier: Fixed::from_int(1),
            background: Some(Role::Tertiary),
            second_background: None,
            contrast_curve: Some(
                ContrastCurve::new(
                    Fixed::from_tenths(45),
                    Fixed::from_int(7),
                    Fixed::from_int(11),
                    Fixed::from_int(21),
                ),
            ),
            tone_delta_pair: None,
            opacity: None,
        }
    }

    #[verifier::when_used_as_spec(spec_on_tertiary)]
    pub fn on_tertiary(scheme: &DynamicScheme) -> (out: RoleDefinition)
        ensures
            out == Self::spec_on_tertiary(scheme),
    {
        RoleDefinition {
            role: Role::OnTertiary,
            palette: PaletteKind::Tertiary,
            tone: ToneRule::Value(
                if scheme.variant == Variant::Monochrome {
                    if scheme.is_dark { Fixed::from_int(10) } else { Fixed::from_int(100) }
                } else {
                    if scheme.is_dark { Fixed::from_int(20) } else { Fixed::from_int(100) }
                },
            ),
            is_background: false,
            chroma_multiplier: Fixed::from_int(1),
            background: Some(Role::Tertiary),
            second_background: None,
            contrast_curve: Some(
                ContrastCurve::new(
                    Fixed::from_tenths(45),
                    Fixed::from_int(7),
                    Fixed::from_int(11),
                    Fixed::from_int(21),
                ),
            ),
            tone_delta_pair: None,
            opacity: None,
        }
    }

    /// A container in the tertiary accent.
    pub open spec fn spec_tertiary_container(scheme: &DynamicScheme) -> RoleDefinition {
        RoleDefinition {
            role: Role::TertiaryContainer,
            palette: PaletteKind::Tertiary,
            tone: ToneRule::Value(
                if scheme.variant == Variant::Monochrome {
                    if scheme.is_dark { Fixed::from_int(60) } else { Fixed::from_int(40) }
                } else if !(scheme.variant == Variant::Fidelity || scheme.variant == Variant::Content) {
                    if scheme.is_dark { Fixed::from_int(30) } else { Fixed::from_int(90) }
                } else {
                    ColorSpec2021::fidelity_tertiary_container_tone(scheme)
                },
            ),
            is_background: true,
            chroma_multiplier: Fixed::from_int(1),
            background: Some(ColorSpec2021::highest_surface(scheme)),
            second_background: None,
            contrast_curve: Some(
                ContrastCurve::new(
                    Fixed::from_int(1),
                    Fixed::from_int(1),
                    Fixed::from_int(3),
                    Fixed::from_tenths(45),
                ),
            ),
            tone_delta_pair: Some(
                ToneDeltaPair::new(
                    Role::TertiaryContainer,
                    Role::Tertiary,
                    Fixed::from_int(10),
                    TonePolarity::RelativeLighter,
                    false,
                    DeltaConstraint::Nearer,
                ),
            ),
            opacity: None,
        }
    }

    #[verifier::when_used_as_spec(spec_tertiary_container)]
    pub fn tertiary_container(scheme: &DynamicScheme) -> (out: RoleDefinition)
        ensures
            out == Self::spec_tertiary_container(scheme),
    {
        RoleDefinition {
            role: Role::TertiaryContainer,
            palette: PaletteKind::Tertiary,
            tone: ToneRule::Value(
                if scheme.variant == Variant::Monochrome {
                    if scheme.is_dark { Fixed::from_int(60) } else { Fixed::from_int(40) }
                } else if !(scheme.variant == Variant::Fidelity || scheme.variant == Variant::Content) {
                    if scheme.is_dark { Fixed::from_int(30) } else { Fixed::from_int(90) }
                } else {
                    ColorSpec2021::fidelity_tertiary_container_tone(scheme)
                },
            ),
            is_background: true,
            chroma_multiplier: Fixed::from_int(1),
            background: Some(ColorSpec2021::highest_surface(scheme)),
            second_background: None,
            contrast_curve: Some(
                ContrastCurve::new(
                    Fixed::from_int(1),
                    Fixed::from_int(1),
                    Fixed::from_int(3),
                    Fixed::from_tenths(45),
                ),
            ),
            tone_delta_pair: Some(
                ToneDeltaPair::new(
                    Role::TertiaryContainer,
                    Role::Tertiary,
                    Fixed::from_int(10),
                    TonePolarity::RelativeLighter,
                    false,
                    DeltaConstraint::Nearer,
                ),
            ),
            opacity: None,
        }
    }

    /// Text and icons on the tertiary container.
    pub open spec fn spec_on_tertiary_container(scheme: &DynamicScheme) -> RoleDefinition {
        RoleDefinition {
            role: Role::OnTertiaryContainer,
            palette: PaletteKind::Tertiary,
            tone: ToneRule::Value(
                if scheme.variant == Variant::Monochrome {
                    if scheme.is_dark { Fixed::from_int(0) } else { Fixed::from_int(100) }
                } else if !(scheme.variant == Variant::Fidelity || scheme.variant == Variant::Content) {
                    if scheme.is_dark { Fixed::from_int(90) } else { Fixed::from_int(30) }
                } else {
                    DynamicColor::foreground_tone(
                        ColorSpec2021::fidelity_tertiary_container_tone(scheme),
                        Fixed::from_tenths(45),
                    )
                },
            ),
            is_background: false,
            chroma_multiplier: Fixed::from_int(1),
            background: Some(Role::TertiaryContainer),
            second_background: None,
            contrast_curve: Some(
                ContrastCurve::new(
                    Fixed::from_int(3),
                    Fixed::from_tenths(45),
                    Fixed::from_int(7),
                    Fixed::from_int(11),
                ),
            ),
            tone_delta_pair: None,
            opacity: None,
        }
    }

    #[verifier::when_used_as_spec(spec_on_tertiary_container)]
    pub fn on_tertiary_container(scheme: &DynamicScheme) -> (out: RoleDefinition)
        ensures
            out == Self::spec_on_tertiary_container(scheme),
    {
        RoleDefinition {
            role: Role::OnTertiaryContainer,
            palette: PaletteKind::Tertiary,
            tone: ToneRule::Value(
                if scheme.variant == Variant::Monochrome {
                    if scheme.is_dark { Fixed::from_int(0) } else { Fixed::from_int(100) }
                } else if !(scheme.variant == Variant::Fidelity || scheme.variant == Variant::Content) {
                    if scheme.is_dark { Fixed::from_int(90) } else { Fixed::from_int(30) }
                } else {
                    DynamicColor::foreground_tone(
                        ColorSpec2021::fidelity_tertiary_container_tone(scheme),
                        Fixed::from_tenths(45),
                    )
                },
            ),
            is_background: false,
            chroma_multiplier: Fixed::from_int(1),
            background: Some(Role::TertiaryContainer),
            second_background: None,
            contrast_curve: Some(
                ContrastCurve::new(
                    Fixed::from_int(3),
                    Fixed::from_tenths(45),
                    Fixed::from_int(7),
                    Fixed::from_int(11),
                ),
            ),
            tone_delta_pair: None,
            opacity: None,
        }
    }

    /// The tertiary accent that is the same in light and dark schemes.
    pub open spec fn spec_tertiary_fixed(scheme: &DynamicScheme) -> RoleDefinition {
        RoleDefinition {
            role: Role::TertiaryFixed,
            palette: PaletteKind::Tertiary,
            tone: ToneRule::Value(
                if scheme.variant == Variant::Monochrome {
                    Fixed::from_int(40)
                } else {
                    Fixed::from_int(90)
                },
            ),
            is_background: true,
            chroma_multiplier: Fixed::from_int(1),
            background: Some(ColorSpec2021::highest_surface(scheme)),
            second_background: None,
            contrast_curve: Some(
                ContrastCurve::new(
                    Fixed::from_int(1),
                    Fixed::from_int(1),
                    Fixed::from_int(3),
                    Fixed::from_tenths(45),
                ),
            ),
            tone_delta_pair: Some(
                ToneDeltaPair::new(
                    Role::TertiaryFixed,
                    Role::TertiaryFixedDim,
                    Fixed::from_int(10),
                    TonePolarity::Ligher,
                    true,
                    DeltaConstraint::Exact,
                ),
            ),
            opacity: None,
        }
    }

    #[verifier::when_used_as_spec(spec_tertiary_fixed)]
    pub fn tertiary_fixed(scheme: &DynamicScheme) -> (out: RoleDefinition)
        ensures
            out == Self::spec_tertiary_fixed(scheme),
    {
        RoleDefinition {
            role: Role::TertiaryFixed,
            palette: PaletteKind::Tertiary,
            tone: ToneRule::Value(
                if scheme.variant == Variant::Monochrome {
                    Fixed::from_int(40)
                } else {
                    Fixed::from_int(90)
                },
            ),
            is_background: true,
            chroma_multiplier: Fixed::from_int(1),
            background: Some(ColorSpec2021::highest_surface(scheme)),
            second_background: None,
            contrast_curve: Some(
                ContrastCurve::new(
                    Fixed::from_int(1),
                    Fixed::from_int(1),
                    Fixed::from_int(3),
                    Fixed::from_tenths(45),
                ),
            ),
            tone_delta_pair: Some(
                ToneDeltaPair::new(
                    Role::TertiaryFixed,
                    Role::TertiaryFixedDim,
                    Fixed::from_int(10),
                    TonePolarity::Ligher,
                    true,
                    DeltaConstraint::Exact,
                ),
            ),
            opacity: None,
        }
    }

    /// The dimmer form of the fixed tertiary accent.
    pub open spec fn spec_tertiary_fixed_dim(scheme: &DynamicScheme) -> RoleDefinition {
        RoleDefinition {
            role: Role::TertiaryFixedDim,
            palette: PaletteKind::Tertiary,
            tone: ToneRule::Value(
                if scheme.variant == Variant::Monochrome {
                    Fixed::from_int(30)
                } else {
                    Fixed::from_int(80)
                },
            ),
            is_background: true,
            chroma_multiplier: Fixed::from_int(1),
            background: Some(ColorSpec2021::highest_surface(scheme)),
            second_background: None,
            contrast_curve: Some(
                ContrastCurve::new(
                    Fixed::from_int(1),
                    Fixed::from_int(1),
                    Fixed::from_int(3),
                    Fixed::from_tenths(45),
                ),
            ),
            tone_delta_pair: Some(
                ToneDeltaPair::new(
                    Role::TertiaryFixed,
                    Role::TertiaryFixedDim,
                    Fixed::from_int(10),
                    TonePolarity::Ligher,
                    true,
                    DeltaConstraint::Exact,
                ),
            ),
            opacity: None,
        }
    }

    #[verifier::when_used_as_spec(spec_tertiary_fixed_dim)]
    pub fn tertiary_fixed_dim(scheme: &DynamicScheme) -> (out: RoleDefinition)
        ensures
            out == Self::spec_tertiary_fixed_dim(scheme),
    {
        RoleDefinition {
            role: Role::TertiaryFixedDim,
            palette: PaletteKind::Tertiary,
            tone: ToneRule::Value(
                if scheme.variant == Variant::Monochrome {
                    Fixed::from_int(30)
                } else {
                    Fixed::from_int(80)
                },
            ),
            is_background: true,
            chroma_multiplier: Fixed::from_int(1),
            background: Some(ColorSpec2021::highest_surface(scheme)),
            second_background: None,
            contrast_curve: Some(
                ContrastCurve::new(
                    Fixed::from_int(1),
                    Fixed::from_int(1),
                    Fixed::from_int(3),
                    Fixed::from_tenths(45),
                ),
            ),
            tone_delta_pair: Some(
                ToneDeltaPair::new(
                    Role::TertiaryFixed,
                    Role::TertiaryFixedDim,
                    Fixed::from_int(10),
                    TonePolarity::Ligher,
                    true,
                    DeltaConstraint::Exact,
                ),
            ),
            opacity: None,
        }
    }

    /// Text and icons on the fixed tertiary accent.
    pub open spec fn spec_on_tertiary_fixed(scheme: &DynamicScheme) -> RoleDefinition {
        RoleDefinition {
            role: Role::OnTertiaryFixed,
            palette: PaletteKind::Tertiary,
            tone: ToneRule::Value(
                if scheme.variant == Variant::Monochrome {
                    Fixed::from_int(100)
                } else {
                    Fixed::from_int(10)
                },
            ),
            is_background: false,
            chroma_multiplier: Fixed::from_int(1),
            background: Some(Role::TertiaryFixedDim),
            second_background: Some(Role::TertiaryFixed),
            contrast_curve: Some(
                ContrastCurve::new(
                    Fixed::from_tenths(45),
                    Fixed::from_int(7),
                    Fixed::from_int(11),
                    Fixed::from_int(21),
                ),
            ),
            tone_delta_pair: None,
            opacity: None,
        }
    }

    #[verifier::when_used_as_spec(spec_on_tertiary_fixed)]
    pub fn on_tertiary_fixed(scheme: &DynamicScheme) -> (out: RoleDefinition)
        ensures
            out == Self::spec_on_tertiary_fixed(scheme),
    {
        RoleDefinition {
            role: Role::OnTertiaryFixed,
            palette: PaletteKind::Tertiary,
            tone: ToneRule::Value(
                if scheme.variant == Variant::Monochrome {
                    Fixed::from_int(100)
                } else {
                    Fixed::from_int(10)
                },
            ),
            is_background: false,
            chroma_multiplier: Fixed::from_int(1),
            background: Some(Role::TertiaryFixedDim),
            second_background: Some(Role::TertiaryFixed),
            contrast_curve: Some(
                ContrastCurve::new(
                    Fixed::from_tenths(45),
                    Fixed::from_int(7),
                    Fixed::from_int(11),
                    Fixed::from_int(21),
                ),
            ),
            tone_delta_pair: None,
            opacity: None,
        }
    }

    /// Text and icons of lower emphasis on the fixed tertiary accent.
    pub open spec fn spec_on_tertiary_fixed_variant(scheme: &DynamicScheme) -> RoleDefinition {
        RoleDefinition {
            role: Role::OnTertiaryFixedVariant,
            palette: PaletteKind::Tertiary,
            tone: ToneRule::Value(
                if scheme.variant == Variant::Monochrome {
                    Fixed::from_int(90)
                } else {
                    Fixed::from_int(30)
                },
            ),
            is_background: false,
            chroma_multiplier: Fixed::from_int(1),
            background: Some(Role::TertiaryFixedDim),
            second_background: Some(Role::TertiaryFixed),
            contrast_curve: Some(
                ContrastCurve::new(
                    Fixed::from_int(3),
                    Fixed::from_tenths(45),
                    Fixed::from_int(7),
                    Fixed::from_int(11),
                ),
            ),
            tone_delta_pair: None,
            opacity: None,
        }
    }

    #[verifier::when_used_as_spec(spec_on_tertiary_fixed_variant)]
    pub fn on_tertiary_fixed_variant(scheme: &DynamicScheme) -> (out: RoleDefinition)
        ensures
            out == Self::spec_on_tertiary_fixed_variant(scheme),
    {
        RoleDefinition {
            role: Role::OnTertiaryFixedVariant,
            palette: PaletteKind::Tertiary,
            tone: ToneRule::Value(
                if scheme.variant == Variant::Monochrome {
                    Fixed::from_int(90)
                } else {
                    Fixed::from_int(30)
                },
            ),
            is_background: false,
            chroma_multiplier: Fixed::from_int(1),
            background: Some(Role::TertiaryFixedDim),
            second_background: Some(Role::TertiaryFixed),
            contrast_curve: Some(
                ContrastCurve::new(
                    Fixed::from_int(3),
                    Fixed::from_tenths(45),
                    Fixed::from_int(7),
                    Fixed::from_int(11),
                ),
            ),
            tone_delta_pair: None,
            opacity: None,
        }
    }

    /// The colour of errors.
    pub open spec fn spec_error(scheme: &DynamicScheme) -> RoleDefinition {
        RoleDefinition {
            role: Role::Error,
            palette: PaletteKind::Error,
            tone:
                ToneRule::Value(
                    if scheme.is_dark { Fixed::from_int(80) } else { Fixed::from_int(40) },
                ),
            is_background: true,
            chroma_multiplier: Fixed::from_int(1),
            background: Some(ColorSpec2021::highest_surface(scheme)),
            second_background: None,
            contrast_curve: Some(
                ContrastCurve::new(
                    Fixed::from_int(3),
                    Fixed::from_tenths(45),
                    Fixed::from_int(7),
                    Fixed::from_int(7),
                ),
            ),
            tone_delta_pair: Some(
                ToneDeltaPair::new(
                    Role::ErrorContainer,
                    Role::Error,
                    Fixed::from_int(10),
                    TonePolarity::RelativeLighter,
                    false,
                    DeltaConstraint::Nearer,
                ),
            ),
            opacity: None,
        }
    }

    #[verifier::when_used_as_spec(spec_error)]
    pub fn error(scheme: &DynamicScheme) -> (out: RoleDefinition)
        ensures
            out == Self::spec_error(scheme),
    {
        RoleDefinition {
            role: Role::Error,
            palette: PaletteKind::Error,
            tone:
                ToneRule::Value(
                    if scheme.is_dark { Fixed::from_int(80) } else { Fixed::from_int(40) },
                ),
            is_background: true,
            chroma_multiplier: Fixed::from_int(1),
            background: Some(ColorSpec2021::highest_surface(scheme)),
            second_background: None,
            contrast_curve: Some(
                ContrastCurve::new(
                    Fixed::from_int(3),
                    Fixed::from_tenths(45),
                    Fixed::from_int(7),
                    Fixed::from_int(7),
                ),
            ),
            tone_delta_pair: Some(
                ToneDeltaPair::new(
                    Role::ErrorContainer,
                    Role::Error,
                    Fixed::from_int(10),
                    TonePolarity::RelativeLighter,
                    false,
                    DeltaConstraint::Nearer,
                ),
            ),
            opacity: None,
        }
    }

    /// Text and icons on error.
    pub open spec fn spec_on_error(scheme: &DynamicScheme) -> RoleDefinition {
        RoleDefinition {
            role: Role::OnError,
            palette: PaletteKind::Error,
            tone: ToneRule::Value(
                if scheme.is_dark { Fixed::from_int(20) } else { Fixed::from_int(100) },
            ),
            is_background: false,
            chroma_multiplier: Fixed::from_int(1),
            background: Some(Role::Error),
            second_background: None,
            contrast_curve: Some(
                ContrastCurve::new(
                    Fixed::from_tenths(45),
                    Fixed::from_int(7),
                    Fixed::from_int(11),
                    Fixed::from_int(21),
                ),
            ),
            tone_delta_pair: None,
            opacity: None,
        }
    }

    #[verifier::when_used_as_spec(spec_on_error)]
    pub fn on_error(scheme: &DynamicScheme) -> (out: RoleDefinition)
        ensures
            out == Self::spec_on_error(scheme),
    {
        RoleDefinition {
            role: Role::OnError,
            palette: PaletteKind::Error,
            tone: ToneRule::Value(
                if scheme.is_dark { Fixed::from_int(20) } else { Fixed::from_int(100) },
            ),
            is_background: false,
            chroma_multiplier: Fixed::from_int(1),
            background: Some(Role::Error),
            second_background: None,
            contrast_curve: Some(
                ContrastCurve::new(
                    Fixed::from_tenths(45),
                    Fixed::from_int(7),
                    Fixed::from_int(11),
                    Fixed::from_int(21),
                ),
            ),
            tone_delta_pair: None,
            opacity: None,
        }
    }

    /// A container in the colour of errors.
    pub open spec fn spec_error_container(scheme: &DynamicScheme) -> RoleDefinition {
        RoleDefinition {
            role: Role::ErrorContainer,
            palette: PaletteKind::Error,
            tone:
                ToneRule::Value(
                    if scheme.is_dark { Fixed::from_int(30) } else { Fixed::from_int(90) },
                ),
            is_background: true,
            chroma_multiplier: Fixed::from_int(1),
            background: Some(ColorSpec2021::highest_surface(scheme)),
            second_background: None,
            contrast_curve: Some(
                ContrastCurve::new(
                    Fixed::from_int(1),
                    Fixed::from_int(1),
                    Fixed::from_int(3),
                    Fixed::from_tenths(45),
                ),
            ),
            tone_delta_pair: Some(
                ToneDeltaPair::new(
                    Role::ErrorContainer,
                    Role::Error,
                    Fixed::from_int(10),
                    TonePolarity::RelativeLighter,
                    false,
                    DeltaConstraint::Nearer,
                ),
            ),
            opacity: None,
        }
    }

    #[verifier::when_used_as_spec(spec_error_container)]
    pub fn error_container(scheme: &DynamicScheme) -> (out: RoleDefinition)
        ensures
            out == Self::spec_error_container(scheme),
    {
        RoleDefinition {
            role: Role::ErrorContainer,
            palette: PaletteKind::Error,
            tone:
                ToneRule::Value(
                    if scheme.is_dark { Fixed::from_int(30) } else { Fixed::from_int(90) },
                ),
            is_background: true,
            chroma_multiplier: Fixed::from_int(1),
            background: Some(ColorSpec2021::highest_surface(scheme)),
            second_background: None,
            contrast_curve: Some(
                ContrastCurve::new(
                    Fixed::from_int(1),
                    Fixed::from_int(1),
                    Fixed::from_int(3),
                    Fixed::from_tenths(45),
                ),
            ),
            tone_delta_pair: Some(
                ToneDeltaPair::new(
                    Role::ErrorContainer,
                    Role::Error,
                    Fixed::from_int(10),
                    TonePolarity::RelativeLighter,
                    false,
                    DeltaConstraint::Nearer,
                ),
            ),
            opacity: None,
        }
    }

    /// Text and icons on the error container.
    pub open spec fn spec_on_error_container(scheme: &DynamicScheme) -> RoleDefinition {
        RoleDefinition {
            role: Role::OnErrorContainer,
            palette: PaletteKind::Error,
            tone: ToneRule::Value(
                if scheme.variant == Variant::Monochrome {
                    if scheme.is_dark { Fixed::from_int(90) } else { Fixed::from_int(10) }
                } else {
                    if scheme.is_dark { Fixed::from_int(90) } else { Fixed::from_int(30) }
                },
            ),
            is_background: false,
            chroma_multiplier: Fixed::from_int(1),
            background: Some(Role::ErrorContainer),
            second_background: None,
            contrast_curve: Some(
                ContrastCurve::new(
                    Fixed::from_int(3),
                    Fixed::from_tenths(45),
                    Fixed::from_int(7),
                    Fixed::from_int(11),
                ),
            ),
            tone_delta_pair: None,
            opacity: None,
        }
    }

    #[verifier::when_used_as_spec(spec_on_error_container)]
    pub fn on_error_container(scheme: &DynamicScheme) -> (out: RoleDefinition)
        ensures
            out == Self::spec_on_error_container(scheme),
    {
        RoleDefinition {
            role: Role::OnErrorContainer,
            palette: PaletteKind::Error,
            tone: ToneRule::Value(
                if scheme.variant == Variant::Monochrome {
                    if scheme.is_dark { Fixed::from_int(90) } else { Fixed::from_int(10) }
                } else {
                    if scheme.is_dark { Fixed::from_int(90) } else { Fixed::from_int(30) }
                },
            ),
            is_background: false,
            chroma_multiplier: Fixed::from_int(1),
            background: Some(Role::ErrorContainer),
            second_background: None,
            contrast_curve: Some(
                ContrastCurve::new(
                    Fixed::from_int(3),
                    Fixed::from_tenths(45),
                    Fixed::from_int(7),
                    Fixed::from_int(11),
                ),
            ),
            tone_delta_pair: None,
            opacity: None,
        }
    }

    /// A control that is switched on.
    pub open spec fn spec_control_activated(scheme: &DynamicScheme) -> RoleDefinition {
        RoleDefinition {
            role: Role::ControlActivated,
            palette: PaletteKind::Primary,
            tone:
                ToneRule::Value(
                    if scheme.is_dark { Fixed::from_int(30) } else { Fixed::from_int(90) },
                ),
            is_background: true,
            chroma_multiplier: Fixed::from_int(1),
            background: None,
            second_background: None,
            contrast_curve: None,
            tone_delta_pair: None,
            opacity: None,
        }
    }

    #[verifier::when_used_as_spec(spec_control_activated)]
    pub fn control_activated(scheme: &DynamicScheme) -> (out: RoleDefinition)
        ensures
            out == Self::spec_control_activated(scheme),
    {
        RoleDefinition {
            role: Role::ControlActivated,
            palette: PaletteKind::Primary,
            tone:
                ToneRule::Value(
                    if scheme.is_dark { Fixed::from_int(30) } else { Fixed::from_int(90) },
                ),
            is_background: true,
            chroma_multiplier: Fixed::from_int(1),
            background: None,
            second_background: None,
            contrast_curve: None,
            tone_delta_pair: None,
            opacity: None,
        }
    }

    /// A control at rest.
    pub open spec fn spec_control_normal(scheme: &DynamicScheme) -> RoleDefinition {
        RoleDefinition {
            role: Role::ControlNormal,
            palette: PaletteKind::NeutralVariant,
            tone:
                ToneRule::Value(
                    if scheme.is_dark { Fixed::from_int(80) } else { Fixed::from_int(30) },
                ),
            is_background: false,
            chroma_multiplier: Fixed::from_int(1),
            background: None,
            second_background: None,
            contrast_curve: None,
            tone_delta_pair: None,
            opacity: None,
        }
    }

    #[verifier::when_used_as_spec(spec_control_normal)]
    pub fn control_normal(scheme: &DynamicScheme) -> (out: RoleDefinition)
        ensures
            out == Self::spec_control_normal(scheme),
    {
        RoleDefinition {
            role: Role::ControlNormal,
            palette: PaletteKind::NeutralVariant,
            tone:
                ToneRule::Value(
                    if scheme.is_dark { Fixed::from_int(80) } else { Fixed::from_int(30) },
                ),
            is_background: false,
            chroma_multiplier: Fixed::from_int(1),
            background: None,
            second_background: None,
            contrast_curve: None,
            tone_delta_pair: None,
            opacity: None,
        }
    }

    /// The highlight of a control that is pressed.
    pub open spec fn spec_control_highlight(scheme: &DynamicScheme) -> RoleDefinition {
        RoleDefinition {
            role: Role::ControlHighlight,
            palette: PaletteKind::Neutral,
            tone:
                ToneRule::Value(
                    if scheme.is_dark { Fixed::from_int(100) } else { Fixed::from_int(0) },
                ),
            is_background: false,
            chroma_multiplier: Fixed::from_int(1),
            background: None,
            second_background: None,
            contrast_curve: None,
            tone_delta_pair: None,
            opacity: Some(
                if scheme.is_dark {
                    Fixed::from_hundredths(20)
                } else {
                    Fixed::from_hundredths(12)
                },
            ),
        }
    }

    #[verifier::when_used_as_spec(spec_control_highlight)]
    pub fn control_highlight(scheme: &DynamicScheme) -> (out: RoleDefinition)
        ensures
            out == Self::spec_control_highlight(scheme),
    {
        RoleDefinition {
            role: Role::ControlHighlight,
            palette: PaletteKind::Neutral,
            tone:
                ToneRule::Value(
                    if scheme.is_dark { Fixed::from_int(100) } else { Fixed::from_int(0) },
                ),
            is_background: false,
            chroma_multiplier: Fixed::from_int(1),
            background: None,
            second_background: None,
            contrast_curve: None,
            tone_delta_pair: None,
            opacity: Some(
                if scheme.is_dark {
                    Fixed::from_hundredths(20)
                } else {
                    Fixed::from_hundredths(12)
                },
            ),
        }
    }

    /// Primary text on an inverse surface.
    pub open spec fn spec_text_primary_inverse(scheme: &DynamicScheme) -> RoleDefinition {
        RoleDefinition {
            role: Role::TextPrimaryInverse,
            palette: PaletteKind::Neutral,
            tone:
                ToneRule::Value(
                    if scheme.is_dark { Fixed::from_int(10) } else { Fixed::from_int(90) },
                ),
            is_background: false,
            chroma_multiplier: Fixed::from_int(1),
            background: None,
            second_background: None,
            contrast_curve: None,
            tone_delta_pair: None,
            opacity: None,
        }
    }

    #[verifier::when_used_as_spec(spec_text_primary_inverse)]
    pub fn text_primary_inverse(scheme: &DynamicScheme) -> (out: RoleDefinition)
        ensures
            out == Self::spec_text_primary_inverse(scheme),
    {
        RoleDefinition {
            role: Role::TextPrimaryInverse,
            palette: PaletteKind::Neutral,
            tone:
                ToneRule::Value(
                    if scheme.is_dark { Fixed::from_int(10) } else { Fixed::from_int(90) },
                ),
            is_background: false,
            chroma_multiplier: Fixed::from_int(1),
            background: None,
            second_background: None,
            contrast_curve: None,
            tone_delta_pair: None,
            opacity: None,
        }
    }

    /// Secondary and tertiary text on an inverse surface.
    pub open spec fn spec_text_secondary_and_tertiary_inverse(
        scheme: &DynamicScheme,
    ) -> RoleDefinition {
        RoleDefinition {
            role: Role::TextSecondaryAndTertiaryInverse,
            palette: PaletteKind::NeutralVariant,
            tone:
                ToneRule::Value(
                    if scheme.is_dark { Fixed::from_int(30) } else { Fixed::from_int(80) },
                ),
            is_background: false,
            chroma_multiplier: Fixed::from_int(1),
            background: None,
            second_background: None,
            contrast_curve: None,
            tone_delta_pair: None,
            opacity: None,
        }
    }

    #[verifier::when_used_as_spec(spec_text_secondary_and_tertiary_inverse)]
    pub fn text_secondary_and_tertiary_inverse(scheme: &DynamicScheme) -> (out: RoleDefinition)
        ensures
            out == Self::spec_text_secondary_and_tertiary_inverse(scheme),
    {
        RoleDefinition {
            role: Role::TextSecondaryAndTertiaryInverse,
            palette: PaletteKind::NeutralVariant,
            tone:
                ToneRule::Value(
                    if scheme.is_dark { Fixed::from_int(30) } else { Fixed::from_int(80) },
                ),
            is_background: false,
            chroma_multiplier: Fixed::from_int(1),
            background: None,
            second_background: None,
            contrast_curve: None,
            tone_delta_pair: None,
            opacity: None,
        }
    }

    /// Disabled primary text on an inverse surface.
    pub open spec fn spec_text_primary_inverse_disable_only(
        scheme: &DynamicScheme,
    ) -> RoleDefinition {
        RoleDefinition {
            role: Role::TextPrimaryInverseDisableOnly,
            palette: PaletteKind::Neutral,
            tone:
                ToneRule::Value(
                    if scheme.is_dark { Fixed::from_int(10) } else { Fixed::from_int(90) },
                ),
            is_background: false,
            chroma_multiplier: Fixed::from_int(1),
            background: None,
            second_background: None,
            contrast_curve: None,
            tone_delta_pair: None,
            opacity: None,
        }
    }

    #[verifier::when_used_as_spec(spec_text_primary_inverse_disable_only)]
    pub fn text_primary_inverse_disable_only(scheme: &DynamicScheme) -> (out: RoleDefinition)
        ensures
            out == Self::spec_text_primary_inverse_disable_only(scheme),
    {
        RoleDefinition {
            role: Role::TextPrimaryInverseDisableOnly,
            palette: PaletteKind::Neutral,
            tone:
                ToneRule::Value(
                    if scheme.is_dark { Fixed::from_int(10) } else { Fixed::from_int(90) },
                ),
            is_background: false,
            chroma_multiplier: Fixed::from_int(1),
            background: None,
            second_background: None,
            contrast_curve: None,
            tone_delta_pair: None,
            opacity: None,
        }
    }

    /// Disabled secondary and tertiary text on an inverse surface.
    pub open spec fn spec_text_secondary_and_tertiary_inverse_disabled(
        scheme: &DynamicScheme,
    ) -> RoleDefinition {
        RoleDefinition {
            role: Role::TextSecondaryAndTertiaryInverseDisabled,
            palette: PaletteKind::Neutral,
            tone:
                ToneRule::Value(
                    if scheme.is_dark { Fixed::from_int(10) } else { Fixed::from_int(90) },
                ),
            is_background: false,
            chroma_multiplier: Fixed::from_int(1),
            background: None,
            second_background: None,
            contrast_curve: None,
            tone_delta_pair: None,
            opacity: None,
        }
    }

    #[verifier::when_used_as_spec(spec_text_secondary_and_tertiary_inverse_disabled)]
    pub fn text_secondary_and_tertiary_inverse_disabled(
        scheme: &DynamicScheme,
    ) -> (out: RoleDefinition)
        ensures
            out == Self::spec_text_secondary_and_tertiary_inverse_disabled(scheme),
    {
        RoleDefinition {
            role: Role::TextSecondaryAndTertiaryInverseDisabled,
            palette: PaletteKind::Neutral,
            tone:
                ToneRule::Value(
                    if scheme.is_dark { Fixed::from_int(10) } else { Fixed::from_int(90) },
                ),
            is_background: false,
            chroma_multiplier: Fixed::from_int(1),
            background: None,
            second_background: None,
            contrast_curve: None,
            tone_delta_pair: None,
            opacity: None,
        }
    }

    /// Hints on an inverse surface.
    pub open spec fn spec_text_hint_inverse(scheme: &DynamicScheme) -> RoleDefinition {
        RoleDefinition {
            role: Role::TextHintInverse,
            palette: PaletteKind::Neutral,
            tone:
                ToneRule::Value(
                    if scheme.is_dark { Fixed::from_int(10) } else { Fixed::from_int(90) },
                ),
            is_background: false,
            chroma_multiplier: Fixed::from_int(1),
            background: None,
            second_background: None,
            contrast_curve: None,
            tone_delta_pair: None,
            opacity: None,
        }
    }

    #[verifier::when_used_as_spec(spec_text_hint_inverse)]
    pub fn text_hint_inverse(scheme: &DynamicScheme) -> (out: RoleDefinition)
        ensures
            out == Self::spec_text_hint_inverse(scheme),
    {
        RoleDefinition {
            role: Role::TextHintInverse,
            palette: PaletteKind::Neutral,
            tone:
                ToneRule::Value(
                    if scheme.is_dark { Fixed::from_int(10) } else { Fixed::from_int(90) },
                ),
            is_background: false,
            chroma_multiplier: Fixed::from_int(1),
            background: None,
            second_background: None,
            contrast_curve: None,
            tone_delta_pair: None,
            opacity: None,
        }
    }

    /// What a role is under a scheme; `None` for the dimmer accents, which
    /// these rules do not know.
    pub open spec fn spec_definition(role: Role, scheme: &DynamicScheme) -> Option<RoleDefinition> {
        match role {
            Role::PrimaryPaletteKeyColor => Some(Self::primary_palette_key_color(scheme)),
            Role::SecondaryPaletteKeyColor => Some(Self::secondary_palette_key_color(scheme)),
            Role::TertiaryPaletteKeyColor => Some(Self::tertiary_palette_key_color(scheme)),
            Role::NeutralPaletteKeyColor => Some(Self::neutral_palette_key_color(scheme)),
            Role::NeutralVariantPaletteKeyColor => Some(Self::neutral_variant_palette_key_color(scheme)),
            Role::ErrorPaletteKeyColor => Some(Self::error_palette_key_color(scheme)),
            Role::Background => Some(Self::background(scheme)),
            Role::OnBackground => Some(Self::on_background(scheme)),
            Role::Surface => Some(Self::surface(scheme)),
            Role::SurfaceDim => Some(Self::surface_dim(scheme)),
            Role::SurfaceBright => Some(Self::surface_bright(scheme)),
            Role::SurfaceContainerLowest => Some(Self::surface_container_lowest(scheme)),
            Role::SurfaceContainerLow => Some(Self::surface_container_low(scheme)),
            Role::SurfaceContainer => Some(Self::surface_container(scheme)),
            Role::SurfaceContainerHigh => Some(Self::surface_container_high(scheme)),
            Role::SurfaceContainerHighest => Some(Self::surface_container_highest(scheme)),
            Role::OnSurface => Some(Self::on_surface(scheme)),
            Role::SurfaceVariant => Some(Self::surface_variant(scheme)),
            Role::OnSurfaceVariant => Some(Self::on_surface_variant(scheme)),
            Role::InverseSurface => Some(Self::inverse_surface(scheme)),
            Role::InverseOnSurface => Some(Self::inverse_on_surface(scheme)),
            Role::Outline => Some(Self::outline(scheme)),
            Role::OutlineVariant => Some(Self::outline_variant(scheme)),
            Role::Shadow => Some(Self::shadow(scheme)),
            Role::Scrim => Some(Self::scrim(scheme)),
            Role::SurfaceTint => Some(Self::surface_tint(scheme)),
            Role::Primary => Some(Self::primary(scheme)),
            Role::PrimaryDim => None,
            Role::OnPrimary => Some(Self::on_primary(scheme)),
            Role::PrimaryContainer => Some(Self::primary_container(scheme)),
            Role::OnPrimaryContainer => Some(Self::on_primary_container(scheme)),
            Role::InversePrimary => Some(Self::inverse_primary(scheme)),
            Role::PrimaryFixed => Some(Self::primary_fixed(scheme)),
            Role::PrimaryFixedDim => Some(Self::primary_fixed_dim(scheme)),
            Role::OnPrimaryFixed => Some(Self::on_primary_fixed(scheme)),
            Role::OnPrimaryFixedVariant => Some(Self::on_primary_fixed_variant(scheme)),
            Role::Secondary => Some(Self::secondary(scheme)),
            Role::SecondaryDim => None,
            Role::OnSecondary => Some(Self::on_secondary(scheme)),
            Role::SecondaryContainer => Some(Self::secondary_container(scheme)),
            Role::OnSecondaryContainer => Some(Self::on_secondary_container(scheme)),
            Role::SecondaryFixed => Some(Self::secondary_fixed(scheme)),
            Role::SecondaryFixedDim => Some(Self::secondary_fixed_dim(scheme)),
            Role::OnSecondaryFixed => Some(Self::on_secondary_fixed(scheme)),
            Role::OnSecondaryFixedVariant => Some(Self::on_secondary_fixed_variant(scheme)),
            Role::Tertiary => Some(Self::tertiary(scheme)),
            Role::TertiaryDim => None,
            Role::OnTertiary => Some(Self::on_tertiary(scheme)),
            Role::TertiaryContainer => Some(Self::tertiary_container(scheme)),
            Role::OnTertiaryContainer => Some(Self::on_tertiary_container(scheme)),
            Role::TertiaryFixed => Some(Self::tertiary_fixed(scheme)),
            Role::TertiaryFixedDim => Some(Self::tertiary_fixed_dim(scheme)),
            Role::OnTertiaryFixed => Some(Self::on_tertiary_fixed(scheme)),
            Role::OnTertiaryFixedVariant => Some(Self::on_tertiary_fixed_variant(scheme)),
            Role::Error => Some(Self::error(scheme)),
            Role::ErrorDim => None,
            Role::OnError => Some(Self::on_error(scheme)),
            Role::ErrorContainer => Some(Self::error_container(scheme)),
            Role::OnErrorContainer => Some(Self::on_error_container(scheme)),
            Role::ControlActivated => Some(Self::control_activated(scheme)),
            Role::ControlNormal => Some(Self::control_normal(scheme)),
            Role::ControlHighlight => Some(Self::control_highlight(scheme)),
            Role::TextPrimaryInverse => Some(Self::text_primary_inverse(scheme)),
            Role::TextSecondaryAndTertiaryInverse => Some(Self::text_secondary_and_tertiary_inverse(scheme)),
            Role::TextPrimaryInverseDisableOnly => Some(Self::text_primary_inverse_disable_only(scheme)),
            Role::TextSecondaryAndTertiaryInverseDisabled => Some(Self::text_secondary_and_tertiary_inverse_disabled(scheme)),
            Role::TextHintInverse => Some(Self::text_hint_inverse(scheme)),
        }
    }

    #[verifier::when_used_as_spec(spec_definition)]
    pub fn definition(role: Role, scheme: &DynamicScheme) -> (out: Option<RoleDefinition>)
        ensures
            out == Self::spec_definition(role, scheme),
    {
        match role {
            Role::PrimaryPaletteKeyColor => Some(Self::primary_palette_key_color(scheme)),
            Role::SecondaryPaletteKeyColor => Some(Self::secondary_palette_key_color(scheme)),
            Role::TertiaryPaletteKeyColor => Some(Self::tertiary_palette_key_color(scheme)),
            Role::NeutralPaletteKeyColor => Some(Self::neutral_palette_key_color(scheme)),
            Role::NeutralVariantPaletteKeyColor => Some(Self::neutral_variant_palette_key_color(scheme)),
            Role::ErrorPaletteKeyColor => Some(Self::error_palette_key_color(scheme)),
            Role::Background => Some(Self::background(scheme)),
            Role::OnBackground => Some(Self::on_background(scheme)),
            Role::Surface => Some(Self::surface(scheme)),
            Role::SurfaceDim => Some(Self::surface_dim(scheme)),
            Role::SurfaceBright => Some(Self::surface_bright(scheme)),
            Role::SurfaceContainerLowest => Some(Self::surface_container_lowest(scheme)),
            Role::SurfaceContainerLow => Some(Self::surface_container_low(scheme)),
            Role::SurfaceContainer => Some(Self::surface_container(scheme)),
            Role::SurfaceContainerHigh => Some(Self::surface_container_high(scheme)),
            Role::SurfaceContainerHighest => Some(Self::surface_container_highest(scheme)),
            Role::OnSurface => Some(Self::on_surface(scheme)),
            Role::SurfaceVariant => Some(Self::surface_variant(scheme)),
            Role::OnSurfaceVariant => Some(Self::on_surface_variant(scheme)),
            Role::InverseSurface => Some(Self::inverse_surface(scheme)),
            Role::InverseOnSurface => Some(Self::inverse_on_surface(scheme)),
            Role::Outline => Some(Self::outline(scheme)),
            Role::OutlineVariant => Some(Self::outline_variant(scheme)),
            Role::Shadow => Some(Self::shadow(scheme)),
            Role::Scrim => Some(Self::scrim(scheme)),
            Role::SurfaceTint => Some(Self::surface_tint(scheme)),
            Role::Primary => Some(Self::primary(scheme)),
            Role::PrimaryDim => None,
            Role::OnPrimary => Some(Self::on_primary(scheme)),
            Role::PrimaryContainer => Some(Self::primary_container(scheme)),
            Role::OnPrimaryContainer => Some(Self::on_primary_container(scheme)),
            Role::InversePrimary => Some(Self::inverse_primary(scheme)),
            Role::PrimaryFixed => Some(Self::primary_fixed(scheme)),
            Role::PrimaryFixedDim => Some(Self::primary_fixed_dim(scheme)),
            Role::OnPrimaryFixed => Some(Self::on_primary_fixed(scheme)),
            Role::OnPrimaryFixedVariant => Some(Self::on_primary_fixed_variant(scheme)),
            Role::Secondary => Some(Self::secondary(scheme)),
            Role::SecondaryDim => None,
            Role::OnSecondary => Some(Self::on_secondary(scheme)),
            Role::SecondaryContainer => Some(Self::secondary_container(scheme)),
            Role::OnSecondaryContainer => Some(Self::on_secondary_container(scheme)),
            Role::SecondaryFixed => Some(Self::secondary_fixed(scheme)),
            Role::SecondaryFixedDim => Some(Self::secondary_fixed_dim(scheme)),
            Role::OnSecondaryFixed => Some(Self::on_secondary_fixed(scheme)),
            Role::OnSecondaryFixedVariant => Some(Self::on_secondary_fixed_variant(scheme)),
            Role::Tertiary => Some(Self::tertiary(scheme)),
            Role::TertiaryDim => None,
            Role::OnTertiary => Some(Self::on_tertiary(scheme)),
            Role::TertiaryContainer => Some(Self::tertiary_container(scheme)),
            Role::OnTertiaryContainer => Some(Self::on_tertiary_container(scheme)),
            Role::TertiaryFixed => Some(Self::tertiary_fixed(scheme)),
            Role::TertiaryFixedDim => Some(Self::tertiary_fixed_dim(scheme)),
            Role::OnTertiaryFixed => Some(Self::on_tertiary_fixed(scheme)),
            Role::OnTertiaryFixedVariant => Some(Self::on_tertiary_fixed_variant(scheme)),
            Role::Error => Some(Self::error(scheme)),
            Role::ErrorDim => None,
            Role::OnError => Some(Self::on_error(scheme)),
            Role::ErrorContainer => Some(Self::error_container(scheme)),
            Role::OnErrorContainer => Some(Self::on_error_container(scheme)),
            Role::ControlActivated => Some(Self::control_activated(scheme)),
            Role::ControlNormal => Some(Self::control_normal(scheme)),
            Role::ControlHighlight => Some(Self::control_highlight(scheme)),
            Role::TextPrimaryInverse => Some(Self::text_primary_inverse(scheme)),
            Role::TextSecondaryAndTertiaryInverse => Some(Self::text_secondary_and_tertiary_inverse(scheme)),
            Role::TextPrimaryInverseDisableOnly => Some(Self::text_primary_inverse_disable_only(scheme)),
            Role::TextSecondaryAndTertiaryInverseDisabled => Some(Self::text_secondary_and_tertiary_inverse_disabled(scheme)),
            Role::TextHintInverse => Some(Self::text_hint_inverse(scheme)),
        }
    }
}

} // verus!
