//! The roles as the rules of 2025 define them.
use vstd::prelude::*;
use crate::dynamiccolor::color_spec_2021::ColorSpec2021;
use crate::dynamiccolor::contrast_curve::ContrastCurve;
use crate::dynamiccolor::dynamic_color::{RoleDefinition, ToneRule};
use crate::dynamiccolor::dynamic_scheme::DynamicScheme;
use crate::dynamiccolor::platform::Platform;
use crate::dynamiccolor::role::{PaletteKind, Role};
use crate::dynamiccolor::tone_delta_pair::{DeltaConstraint, ToneDeltaPair, TonePolarity};
use crate::dynamiccolor::variant::Variant;
use crate::fixed::Fixed;
use crate::hct::hct::Hct;
use crate::palettes::tonal_palette::PaletteKey;

verus! {

/// The rules of 2025: what every role is under a scheme. Most tones are
/// where a palette shows most chroma; text takes its tone from the
/// contrast to its background alone.
#[derive(Clone, Copy, Debug, Default, PartialEq, Eq, Structural)]
pub struct ColorSpec2025;

/// How far a search for the tone of most chroma still has to go: down to
/// tone 0, or up to tone 100.
pub open spec fn tones_left(tone: i64, by_decreasing_tone: bool) -> int {
    if !(0 <= tone <= 100) {
        0
    } else if by_decreasing_tone {
        tone + 1
    } else {
        101 - tone
    }
}

/// The tone of most chroma found from `tone` on, given the best tone so
/// far and its chroma: while the chroma wanted is not reached and the
/// tone is within 0 and 100, the search steps on by one tone, and a tone
/// of more chroma becomes the answer.
pub open spec fn best_tone_from(hue: Fixed, chroma: Fixed, tone: i64, answer: i64, best: Fixed, by_decreasing_tone: bool) -> i64
    decreases tones_left(tone, by_decreasing_tone),
{
    if best.lt(chroma) && 0 <= tone <= 100 {
        let next = if by_decreasing_tone {
            (tone - 1) as i64
        } else {
            (tone + 1) as i64
        };
        let candidate = Hct::from(hue, chroma, Fixed::from_int(next)).chroma;
        if best.lt(candidate) {
            best_tone_from(hue, chroma, next, next, candidate, by_decreasing_tone)
        } else {
            best_tone_from(hue, chroma, next, answer, best, by_decreasing_tone)
        }
    } else {
        answer
    }
}

impl ColorSpec2025 {
    /// The rule set.
    pub fn new() -> (out: Self)
        ensures
            out == ColorSpec2025,
    {
        ColorSpec2025
    }

    /// The tone, from `tone` on in the direction given, at which a hue
    /// shows the chroma wanted, or else the most chroma.
    pub open spec fn spec_find_best_tone_for_chroma(hue: Fixed, chroma: Fixed, tone: i64, by_decreasing_tone: bool) -> Fixed {
        Fixed::from_int(
            best_tone_from(
                hue,
                chroma,
                tone,
                tone,
                Hct::from(hue, chroma, Fixed::from_int(tone)).chroma,
                by_decreasing_tone,
            ),
        )
    }

    #[verifier::when_used_as_spec(spec_find_best_tone_for_chroma)]
    pub fn find_best_tone_for_chroma(hue: Fixed, chroma: Fixed, tone: i64, by_decreasing_tone: bool) -> (out: Fixed)
        ensures
            out == Self::spec_find_best_tone_for_chroma(hue, chroma, tone, by_decreasing_tone),
    {
        let mut current: i64 = tone;
        let mut answer: i64 = tone;
        let mut best = Hct::from(hue, chroma, Fixed::from_int(tone)).chroma;
        while best.lt(chroma) && 0 <= current && current <= 100
            invariant
                current == tone || -1 <= current <= 101,
                best_tone_from(hue, chroma, current, answer, best, by_decreasing_tone)
                    == best_tone_from(
                    hue,
                    chroma,
                    tone,
                    tone,
                    Hct::from(hue, chroma, Fixed::from_int(tone)).chroma,
                    by_decreasing_tone,
                ),
            decreases tones_left(current, by_decreasing_tone),
        {
            current = if by_decreasing_tone {
                current - 1
            } else {
                current + 1
            };
            let candidate = Hct::from(hue, chroma, Fixed::from_int(current)).chroma;
            if best.lt(candidate) {
                best = candidate;
                answer = current;
            }
        }
        Fixed::from_int(answer)
    }

    /// The tone, from 100 downwards, at which a palette shows most of its
    /// chroma times a factor, held within two bounds.
    #[verifier::opaque]
    pub open spec fn spec_t_max_c_with_chroma_multiplier(
        palette: &PaletteKey,
        lower_bound: Fixed,
        upper_bound: Fixed,
        chroma_multiplier: Fixed,
    ) -> Fixed {
        Self::find_best_tone_for_chroma(
            palette.hue,
            palette.chroma.times(chroma_multiplier),
            100,
            true,
        ).clamp(lower_bound, upper_bound)
    }

    #[verifier::when_used_as_spec(spec_t_max_c_with_chroma_multiplier)]
    pub fn t_max_c_with_chroma_multiplier(
        palette: &PaletteKey,
        lower_bound: Fixed,
        upper_bound: Fixed,
        chroma_multiplier: Fixed,
    ) -> (out: Fixed)
        ensures
            out == Self::spec_t_max_c_with_chroma_multiplier(palette, lower_bound, upper_bound, chroma_multiplier),
    {
        proof {
            reveal(ColorSpec2025::spec_t_max_c_with_chroma_multiplier);
        }
        Self::find_best_tone_for_chroma(
            palette.hue,
            palette.chroma.times(chroma_multiplier),
            100,
            true,
        ).clamp(lower_bound, upper_bound)
    }

    /// The tone, from 100 downwards, at which a palette shows most of its
    /// chroma, held within two bounds.
    #[verifier::opaque]
    pub open spec fn spec_t_max_c_clamped(
        palette: &PaletteKey,
        lower_bound: Fixed,
        upper_bound: Fixed,
    ) -> Fixed {
        Self::t_max_c_with_chroma_multiplier(palette, lower_bound, upper_bound, Fixed::from_int(1))
    }

    #[verifier::when_used_as_spec(spec_t_max_c_clamped)]
    pub fn t_max_c_clamped(
        palette: &PaletteKey,
        lower_bound: Fixed,
        upper_bound: Fixed,
    ) -> (out: Fixed)
        ensures
            out == Self::spec_t_max_c_clamped(palette, lower_bound, upper_bound),
    {
        proof {
            reveal(ColorSpec2025::spec_t_max_c_clamped);
        }
        Self::t_max_c_with_chroma_multiplier(palette, lower_bound, upper_bound, Fixed::from_int(1))
    }

    /// The tone, from 100 downwards, at which a palette shows most of its
    /// chroma.
    #[verifier::opaque]
    pub open spec fn spec_t_max_c(palette: &PaletteKey) -> Fixed {
        Self::t_max_c_clamped(palette, Fixed::from_int(0), Fixed::from_int(100))
    }

    #[verifier::when_used_as_spec(spec_t_max_c)]
    pub fn t_max_c(palette: &PaletteKey) -> (out: Fixed)
        ensures
            out == Self::spec_t_max_c(palette),
    {
        proof {
            reveal(ColorSpec2025::spec_t_max_c);
        }
        Self::t_max_c_clamped(palette, Fixed::from_int(0), Fixed::from_int(100))
    }

    /// The tone, from 0 upwards, at which a palette shows most of its
    /// chroma, held within two bounds.
    #[verifier::opaque]
    pub open spec fn spec_t_min_c_clamped(
        palette: &PaletteKey,
        lower_bound: Fixed,
        upper_bound: Fixed,
    ) -> Fixed {
        Self::find_best_tone_for_chroma(palette.hue, palette.chroma, 0, false).clamp(
            lower_bound,
            upper_bound,
        )
    }

    #[verifier::when_used_as_spec(spec_t_min_c_clamped)]
    pub fn t_min_c_clamped(
        palette: &PaletteKey,
        lower_bound: Fixed,
        upper_bound: Fixed,
    ) -> (out: Fixed)
        ensures
            out == Self::spec_t_min_c_clamped(palette, lower_bound, upper_bound),
    {
        proof {
            reveal(ColorSpec2025::spec_t_min_c_clamped);
        }
        Self::find_best_tone_for_chroma(palette.hue, palette.chroma, 0, false).clamp(
            lower_bound,
            upper_bound,
        )
    }

    /// The tone, from 0 upwards, at which a palette shows most of its
    /// chroma.
    #[verifier::opaque]
    pub open spec fn spec_t_min_c(palette: &PaletteKey) -> Fixed {
        Self::t_min_c_clamped(palette, Fixed::from_int(0), Fixed::from_int(100))
    }

    #[verifier::when_used_as_spec(spec_t_min_c)]
    pub fn t_min_c(palette: &PaletteKey) -> (out: Fixed)
        ensures
            out == Self::spec_t_min_c(palette),
    {
        proof {
            reveal(ColorSpec2025::spec_t_min_c);
        }
        Self::t_min_c_clamped(palette, Fixed::from_int(0), Fixed::from_int(100))
    }

    /// The contrast curve that belongs to a contrast at standard level,
    /// given in tenths: the same contrast at low level, and more at the
    /// levels above.
    pub open spec fn spec_get_contrast_curve(default_contrast_tenths: i64) -> ContrastCurve {
        match default_contrast_tenths {
            15 => ContrastCurve::new(
                Fixed::from_tenths(15),
                Fixed::from_tenths(15),
                Fixed::from_int(3),
                Fixed::from_tenths(45),
            ),
            30 => ContrastCurve::new(
                Fixed::from_int(3),
                Fixed::from_int(3),
                Fixed::from_tenths(45),
                Fixed::from_int(7),
            ),
            45 => ContrastCurve::new(
                Fixed::from_tenths(45),
                Fixed::from_tenths(45),
                Fixed::from_int(7),
                Fixed::from_int(11),
            ),
            60 => ContrastCurve::new(
                Fixed::from_int(6),
                Fixed::from_int(6),
                Fixed::from_int(7),
                Fixed::from_int(11),
            ),
            70 => ContrastCurve::new(
                Fixed::from_int(7),
                Fixed::from_int(7),
                Fixed::from_int(11),
                Fixed::from_int(21),
            ),
            90 => ContrastCurve::new(
                Fixed::from_int(9),
                Fixed::from_int(9),
                Fixed::from_int(11),
                Fixed::from_int(21),
            ),
            110 => ContrastCurve::new(
                Fixed::from_int(11),
                Fixed::from_int(11),
                Fixed::from_int(21),
                Fixed::from_int(21),
            ),
            210 => ContrastCurve::new(
                Fixed::from_int(21),
                Fixed::from_int(21),
                Fixed::from_int(21),
                Fixed::from_int(21),
            ),
            _ => ContrastCurve::new(
                Fixed::from_tenths(default_contrast_tenths),
                Fixed::from_tenths(default_contrast_tenths),
                Fixed::from_int(7),
                Fixed::from_int(21),
            ),
        }
    }

    #[verifier::when_used_as_spec(spec_get_contrast_curve)]
    pub fn get_contrast_curve(default_contrast_tenths: i64) -> (out: ContrastCurve)
        ensures
            out == Self::spec_get_contrast_curve(default_contrast_tenths),
    {
        match default_contrast_tenths {
            15 => ContrastCurve::new(
                Fixed::from_tenths(15),
                Fixed::from_tenths(15),
                Fixed::from_int(3),
                Fixed::from_tenths(45),
            ),
            30 => ContrastCurve::new(
                Fixed::from_int(3),
                Fixed::from_int(3),
                Fixed::from_tenths(45),
                Fixed::from_int(7),
            ),
            45 => ContrastCurve::new(
                Fixed::from_tenths(45),
                Fixed::from_tenths(45),
                Fixed::from_int(7),
                Fixed::from_int(11),
            ),
            60 => ContrastCurve::new(
                Fixed::from_int(6),
                Fixed::from_int(6),
                Fixed::from_int(7),
                Fixed::from_int(11),
            ),
            70 => ContrastCurve::new(
                Fixed::from_int(7),
                Fixed::from_int(7),
                Fixed::from_int(11),
                Fixed::from_int(21),
            ),
            90 => ContrastCurve::new(
                Fixed::from_int(9),
                Fixed::from_int(9),
                Fixed::from_int(11),
                Fixed::from_int(21),
            ),
            110 => ContrastCurve::new(
                Fixed::from_int(11),
                Fixed::from_int(11),
                Fixed::from_int(21),
                Fixed::from_int(21),
            ),
            210 => ContrastCurve::new(
                Fixed::from_int(21),
                Fixed::from_int(21),
                Fixed::from_int(21),
                Fixed::from_int(21),
            ),
            _ => ContrastCurve::new(
                Fixed::from_tenths(default_contrast_tenths),
                Fixed::from_tenths(default_contrast_tenths),
                Fixed::from_int(7),
                Fixed::from_int(21),
            ),
        }
    }

    /// The surface on which accents are drawn: on a phone the brightest
    /// surface in a dark scheme and the dimmest in a light one, on a
    /// watch the container of high emphasis.
    pub open spec fn spec_highest_surface(scheme: &DynamicScheme) -> Role {
        if scheme.platform == Platform::Phone {
            if scheme.is_dark {
                Role::SurfaceBright
            } else {
                Role::SurfaceDim
            }
        } else {
            Role::SurfaceContainerHigh
        }
    }

    #[verifier::when_used_as_spec(spec_highest_surface)]
    pub fn highest_surface(scheme: &DynamicScheme) -> (out: Role)
        ensures
            out == Self::spec_highest_surface(scheme),
    {
        if scheme.platform == Platform::Phone {
            if scheme.is_dark {
                Role::SurfaceBright
            } else {
                Role::SurfaceDim
            }
        } else {
            Role::SurfaceContainerHigh
        }
    }

    /// The key colour of the primary palette, at its own tone. As in the rules
    /// of 2021.
    pub open spec fn spec_primary_palette_key_color(scheme: &DynamicScheme) -> RoleDefinition {
        ColorSpec2021::primary_palette_key_color(scheme)
    }

    #[verifier::when_used_as_spec(spec_primary_palette_key_color)]
    pub fn primary_palette_key_color(scheme: &DynamicScheme) -> (out: RoleDefinition)
        ensures
            out == Self::spec_primary_palette_key_color(scheme),
    {
        ColorSpec2021::primary_palette_key_color(scheme)
    }

    /// The key colour of the secondary palette, at its own tone. As in the
    /// rules of 2021.
    pub open spec fn spec_secondary_palette_key_color(scheme: &DynamicScheme) -> RoleDefinition {
        ColorSpec2021::secondary_palette_key_color(scheme)
    }

    #[verifier::when_used_as_spec(spec_secondary_palette_key_color)]
    pub fn secondary_palette_key_color(scheme: &DynamicScheme) -> (out: RoleDefinition)
        ensures
            out == Self::spec_secondary_palette_key_color(scheme),
    {
        ColorSpec2021::secondary_palette_key_color(scheme)
    }

    /// The key colour of the tertiary palette, at its own tone. As in the rules
    /// of 2021.
    pub open spec fn spec_tertiary_palette_key_color(scheme: &DynamicScheme) -> RoleDefinition {
        ColorSpec2021::tertiary_palette_key_color(scheme)
    }

    #[verifier::when_used_as_spec(spec_tertiary_palette_key_color)]
    pub fn tertiary_palette_key_color(scheme: &DynamicScheme) -> (out: RoleDefinition)
        ensures
            out == Self::spec_tertiary_palette_key_color(scheme),
    {
        ColorSpec2021::tertiary_palette_key_color(scheme)
    }

    /// The key colour of the neutral palette, at its own tone. As in the rules
    /// of 2021.
    pub open spec fn spec_neutral_palette_key_color(scheme: &DynamicScheme) -> RoleDefinition {
        ColorSpec2021::neutral_palette_key_color(scheme)
    }

    #[verifier::when_used_as_spec(spec_neutral_palette_key_color)]
    pub fn neutral_palette_key_color(scheme: &DynamicScheme) -> (out: RoleDefinition)
        ensures
            out == Self::spec_neutral_palette_key_color(scheme),
    {
        ColorSpec2021::neutral_palette_key_color(scheme)
    }

    /// The key colour of the neutral variant palette, at its own tone. As in
    /// the rules of 2021.
    pub open spec fn spec_neutral_variant_palette_key_color(
        scheme: &DynamicScheme,
    ) -> RoleDefinition {
        ColorSpec2021::neutral_variant_palette_key_color(scheme)
    }

    #[verifier::when_used_as_spec(spec_neutral_variant_palette_key_color)]
    pub fn neutral_variant_palette_key_color(scheme: &DynamicScheme) -> (out: RoleDefinition)
        ensures
            out == Self::spec_neutral_variant_palette_key_color(scheme),
    {
        ColorSpec2021::neutral_variant_palette_key_color(scheme)
    }

    /// The key colour of the error palette, at its own tone. As in the rules of
    /// 2021.
    pub open spec fn spec_error_palette_key_color(scheme: &DynamicScheme) -> RoleDefinition {
        ColorSpec2021::error_palette_key_color(scheme)
    }

    #[verifier::when_used_as_spec(spec_error_palette_key_color)]
    pub fn error_palette_key_color(scheme: &DynamicScheme) -> (out: RoleDefinition)
        ensures
            out == Self::spec_error_palette_key_color(scheme),
    {
        ColorSpec2021::error_palette_key_color(scheme)
    }

    /// The background of the whole interface: the surface under another name.
    pub open spec fn spec_background(scheme: &DynamicScheme) -> RoleDefinition {
        RoleDefinition {
            role: Role::Background,
            ..Self::surface(scheme)
        }
    }

    #[verifier::when_used_as_spec(spec_background)]
    pub fn background(scheme: &DynamicScheme) -> (out: RoleDefinition)
        ensures
            out == Self::spec_background(scheme),
    {
        RoleDefinition {
            role: Role::Background,
            ..Self::surface(scheme)
        }
    }

    /// Text and icons on the background: those of the surface, and white on a
    /// watch.
    pub open spec fn spec_on_background(scheme: &DynamicScheme) -> RoleDefinition {
        RoleDefinition {
            role: Role::OnBackground,
            tone: if scheme.platform == Platform::Watch {
                ToneRule::Value(Fixed::from_int(100))
            } else {
                ToneRule::SameAs(Role::OnSurface)
            },
            ..Self::on_surface(scheme)
        }
    }

    #[verifier::when_used_as_spec(spec_on_background)]
    pub fn on_background(scheme: &DynamicScheme) -> (out: RoleDefinition)
        ensures
            out == Self::spec_on_background(scheme),
    {
        RoleDefinition {
            role: Role::OnBackground,
            tone: if scheme.platform == Platform::Watch {
                ToneRule::Value(Fixed::from_int(100))
            } else {
                ToneRule::SameAs(Role::OnSurface)
            },
            ..Self::on_surface(scheme)
        }
    }

    /// The surface of the interface.
    pub open spec fn spec_surface(scheme: &DynamicScheme) -> RoleDefinition {
        RoleDefinition {
            role: Role::Surface,
            palette: PaletteKind::Neutral,
            tone: ToneRule::Value(
                if scheme.platform == Platform::Phone {
                    if scheme.is_dark {
                        Fixed::from_int(4)
                    } else if Hct::is_yellow(scheme.neutral_palette.hue) {
                        Fixed::from_int(99)
                    } else if scheme.variant == Variant::Vibrant {
                        Fixed::from_int(97)
                    } else {
                        Fixed::from_int(98)
                    }
                } else {
                    Fixed::from_int(0)
                },
            ),
            is_background: true,
            chroma_multiplier: Fixed::from_int(1),
            background: None,
            second_background: None,
            contrast_curve: None,
            tone_delta_pair: None,
            opacity: None,
        }
    }

    #[verifier::when_used_as_spec(spec_surface)]
    pub fn surface(scheme: &DynamicScheme) -> (out: RoleDefinition)
        ensures
            out == Self::spec_surface(scheme),
    {
        RoleDefinition {
            role: Role::Surface,
            palette: PaletteKind::Neutral,
            tone: ToneRule::Value(
                if scheme.platform == Platform::Phone {
                    if scheme.is_dark {
                        Fixed::from_int(4)
                    } else if Hct::is_yellow(scheme.neutral_palette.hue) {
                        Fixed::from_int(99)
                    } else if scheme.variant == Variant::Vibrant {
                        Fixed::from_int(97)
                    } else {
                        Fixed::from_int(98)
                    }
                } else {
                    Fixed::from_int(0)
                },
            ),
            is_background: true,
            chroma_multiplier: Fixed::from_int(1),
            background: None,
            second_background: None,
            contrast_curve: None,
            tone_delta_pair: None,
            opacity: None,
        }
    }

    /// The dimmest surface.
    pub open spec fn spec_surface_dim(scheme: &DynamicScheme) -> RoleDefinition {
        RoleDefinition {
            role: Role::SurfaceDim,
            palette: PaletteKind::Neutral,
            tone: ToneRule::Value(
                if scheme.is_dark {
                    Fixed::from_int(4)
                } else if Hct::is_yellow(scheme.neutral_palette.hue) {
                    Fixed::from_int(90)
                } else if scheme.variant == Variant::Vibrant {
                    Fixed::from_int(85)
                } else {
                    Fixed::from_int(87)
                },
            ),
            is_background: true,
            chroma_multiplier: if !scheme.is_dark {
                if scheme.variant == Variant::Neutral {
                    Fixed::from_tenths(25)
                } else if scheme.variant == Variant::TonalSpot {
                    Fixed::from_tenths(17)
                } else if scheme.variant == Variant::Expressive {
                    if Hct::is_yellow(scheme.neutral_palette.hue) {
                        Fixed::from_tenths(27)
                    } else {
                        Fixed::from_hundredths(175)
                    }
                } else if scheme.variant == Variant::Vibrant {
                    Fixed::from_hundredths(136)
                } else {
                    Fixed::from_int(1)
                }
            } else {
                Fixed::from_int(1)
            },
            background: None,
            second_background: None,
            contrast_curve: None,
            tone_delta_pair: None,
            opacity: None,
        }
    }

    #[verifier::when_used_as_spec(spec_surface_dim)]
    pub fn surface_dim(scheme: &DynamicScheme) -> (out: RoleDefinition)
        ensures
            out == Self::spec_surface_dim(scheme),
    {
        RoleDefinition {
            role: Role::SurfaceDim,
            palette: PaletteKind::Neutral,
            tone: ToneRule::Value(
                if scheme.is_dark {
                    Fixed::from_int(4)
                } else if Hct::is_yellow(scheme.neutral_palette.hue) {
                    Fixed::from_int(90)
                } else if scheme.variant == Variant::Vibrant {
                    Fixed::from_int(85)
                } else {
                    Fixed::from_int(87)
                },
            ),
            is_background: true,
            chroma_multiplier: if !scheme.is_dark {
                if scheme.variant == Variant::Neutral {
                    Fixed::from_tenths(25)
                } else if scheme.variant == Variant::TonalSpot {
                    Fixed::from_tenths(17)
                } else if scheme.variant == Variant::Expressive {
                    if Hct::is_yellow(scheme.neutral_palette.hue) {
                        Fixed::from_tenths(27)
                    } else {
                        Fixed::from_hundredths(175)
                    }
                } else if scheme.variant == Variant::Vibrant {
                    Fixed::from_hundredths(136)
                } else {
                    Fixed::from_int(1)
                }
            } else {
                Fixed::from_int(1)
            },
            background: None,
            second_background: None,
            contrast_curve: None,
            tone_delta_pair: None,
            opacity: None,
        }
    }

    /// The brightest surface.
    pub open spec fn spec_surface_bright(scheme: &DynamicScheme) -> RoleDefinition {
        RoleDefinition {
            role: Role::SurfaceBright,
            palette: PaletteKind::Neutral,
            tone: ToneRule::Value(
                if scheme.is_dark {
                    Fixed::from_int(18)
                } else if Hct::is_yellow(scheme.neutral_palette.hue) {
                    Fixed::from_int(99)
                } else if scheme.variant == Variant::Vibrant {
                    Fixed::from_int(97)
                } else {
                    Fixed::from_int(98)
                },
            ),
            is_background: true,
            chroma_multiplier: if scheme.is_dark {
                if scheme.variant == Variant::Neutral {
                    Fixed::from_tenths(25)
                } else if scheme.variant == Variant::TonalSpot {
                    Fixed::from_tenths(17)
                } else if scheme.variant == Variant::Expressive {
                    if Hct::is_yellow(scheme.neutral_palette.hue) {
                        Fixed::from_tenths(27)
                    } else {
                        Fixed::from_hundredths(175)
                    }
                } else if scheme.variant == Variant::Vibrant {
                    Fixed::from_hundredths(136)
                } else {
                    Fixed::from_int(1)
                }
            } else {
                Fixed::from_int(1)
            },
            background: None,
            second_background: None,
            contrast_curve: None,
            tone_delta_pair: None,
            opacity: None,
        }
    }

    #[verifier::when_used_as_spec(spec_surface_bright)]
    pub fn surface_bright(scheme: &DynamicScheme) -> (out: RoleDefinition)
        ensures
            out == Self::spec_surface_bright(scheme),
    {
        RoleDefinition {
            role: Role::SurfaceBright,
            palette: PaletteKind::Neutral,
            tone: ToneRule::Value(
                if scheme.is_dark {
                    Fixed::from_int(18)
                } else if Hct::is_yellow(scheme.neutral_palette.hue) {
                    Fixed::from_int(99)
                } else if scheme.variant == Variant::Vibrant {
                    Fixed::from_int(97)
                } else {
                    Fixed::from_int(98)
                },
            ),
            is_background: true,
            chroma_multiplier: if scheme.is_dark {
                if scheme.variant == Variant::Neutral {
                    Fixed::from_tenths(25)
                } else if scheme.variant == Variant::TonalSpot {
                    Fixed::from_tenths(17)
                } else if scheme.variant == Variant::Expressive {
                    if Hct::is_yellow(scheme.neutral_palette.hue) {
                        Fixed::from_tenths(27)
                    } else {
                        Fixed::from_hundredths(175)
                    }
                } else if scheme.variant == Variant::Vibrant {
                    Fixed::from_hundredths(136)
                } else {
                    Fixed::from_int(1)
                }
            } else {
                Fixed::from_int(1)
            },
            background: None,
            second_background: None,
            contrast_curve: None,
            tone_delta_pair: None,
            opacity: None,
        }
    }

    /// The container of least emphasis.
    pub open spec fn spec_surface_container_lowest(scheme: &DynamicScheme) -> RoleDefinition {
        RoleDefinition {
            role: Role::SurfaceContainerLowest,
            palette: PaletteKind::Neutral,
            tone:
                ToneRule::Value(
                    if scheme.is_dark { Fixed::from_int(0) } else { Fixed::from_int(100) },
                ),
            is_background: true,
            chroma_multiplier: Fixed::from_int(1),
            background: None,
            second_background: None,
            contrast_curve: None,
            tone_delta_pair: None,
            opacity: None,
        }
    }

    #[verifier::when_used_as_spec(spec_surface_container_lowest)]
    pub fn surface_container_lowest(scheme: &DynamicScheme) -> (out: RoleDefinition)
        ensures
            out == Self::spec_surface_container_lowest(scheme),
    {
        RoleDefinition {
            role: Role::SurfaceContainerLowest,
            palette: PaletteKind::Neutral,
            tone:
                ToneRule::Value(
                    if scheme.is_dark { Fixed::from_int(0) } else { Fixed::from_int(100) },
                ),
            is_background: true,
            chroma_multiplier: Fixed::from_int(1),
            background: None,
            second_background: None,
            contrast_curve: None,
            tone_delta_pair: None,
            opacity: None,
        }
    }

    /// The container of low emphasis.
    pub open spec fn spec_surface_container_low(scheme: &DynamicScheme) -> RoleDefinition {
        RoleDefinition {
            role: Role::SurfaceContainerLow,
            palette: PaletteKind::Neutral,
            tone: ToneRule::Value(
                if scheme.platform == Platform::Phone {
                    if scheme.is_dark {
                        Fixed::from_int(6)
                    } else if Hct::is_yellow(scheme.neutral_palette.hue) {
                        Fixed::from_int(98)
                    } else if scheme.variant == Variant::Vibrant {
                        Fixed::from_int(95)
                    } else {
                        Fixed::from_int(96)
                    }
                } else {
                    Fixed::from_int(15)
                },
            ),
            is_background: true,
            chroma_multiplier: if scheme.platform == Platform::Phone {
                if scheme.variant == Variant::Neutral {
                    Fixed::from_tenths(13)
                } else if scheme.variant == Variant::TonalSpot {
                    Fixed::from_hundredths(125)
                } else if scheme.variant == Variant::Expressive {
                    if Hct::is_yellow(scheme.neutral_palette.hue) {
                        Fixed::from_tenths(13)
                    } else {
                        Fixed::from_hundredths(115)
                    }
                } else if scheme.variant == Variant::Vibrant {
                    Fixed::from_hundredths(108)
                } else {
                    Fixed::from_int(1)
                }
            } else {
                Fixed::from_int(1)
            },
            background: None,
            second_background: None,
            contrast_curve: None,
            tone_delta_pair: None,
            opacity: None,
        }
    }

    #[verifier::when_used_as_spec(spec_surface_container_low)]
    pub fn surface_container_low(scheme: &DynamicScheme) -> (out: RoleDefinition)
        ensures
            out == Self::spec_surface_container_low(scheme),
    {
        RoleDefinition {
            role: Role::SurfaceContainerLow,
            palette: PaletteKind::Neutral,
            tone: ToneRule::Value(
                if scheme.platform == Platform::Phone {
                    if scheme.is_dark {
                        Fixed::from_int(6)
                    } else if Hct::is_yellow(scheme.neutral_palette.hue) {
                        Fixed::from_int(98)
                    } else if scheme.variant == Variant::Vibrant {
                        Fixed::from_int(95)
                    } else {
                        Fixed::from_int(96)
                    }
                } else {
                    Fixed::from_int(15)
                },
            ),
            is_background: true,
            chroma_multiplier: if scheme.platform == Platform::Phone {
                if scheme.variant == Variant::Neutral {
                    Fixed::from_tenths(13)
                } else if scheme.variant == Variant::TonalSpot {
                    Fixed::from_hundredths(125)
                } else if scheme.variant == Variant::Expressive {
                    if Hct::is_yellow(scheme.neutral_palette.hue) {
                        Fixed::from_tenths(13)
                    } else {
                        Fixed::from_hundredths(115)
                    }
                } else if scheme.variant == Variant::Vibrant {
                    Fixed::from_hundredths(108)
                } else {
                    Fixed::from_int(1)
                }
            } else {
                Fixed::from_int(1)
            },
            background: None,
            second_background: None,
            contrast_curve: None,
            tone_delta_pair: None,
            opacity: None,
        }
    }

    /// The container of usual emphasis.
    pub open spec fn spec_surface_container(scheme: &DynamicScheme) -> RoleDefinition {
        RoleDefinition {
            role: Role::SurfaceContainer,
            palette: PaletteKind::Neutral,
            tone: ToneRule::Value(
                if scheme.platform == Platform::Phone {
                    if scheme.is_dark {
                        Fixed::from_int(9)
                    } else if Hct::is_yellow(scheme.neutral_palette.hue) {
                        Fixed::from_int(96)
                    } else if scheme.variant == Variant::Vibrant {
                        Fixed::from_int(92)
                    } else {
                        Fixed::from_int(94)
                    }
                } else {
                    Fixed::from_int(20)
                },
            ),
            is_background: true,
            chroma_multiplier: if scheme.platform == Platform::Phone {
                if scheme.variant == Variant::Neutral {
                    Fixed::from_tenths(16)
                } else if scheme.variant == Variant::TonalSpot {
                    Fixed::from_tenths(14)
                } else if scheme.variant == Variant::Expressive {
                    if Hct::is_yellow(scheme.neutral_palette.hue) {
                        Fixed::from_tenths(16)
                    } else {
                        Fixed::from_tenths(13)
                    }
                } else if scheme.variant == Variant::Vibrant {
                    Fixed::from_hundredths(115)
                } else {
                    Fixed::from_int(1)
                }
            } else {
                Fixed::from_int(1)
            },
            background: None,
            second_background: None,
            contrast_curve: None,
            tone_delta_pair: None,
            opacity: None,
        }
    }

    #[verifier::when_used_as_spec(spec_surface_container)]
    pub fn surface_container(scheme: &DynamicScheme) -> (out: RoleDefinition)
        ensures
            out == Self::spec_surface_container(scheme),
    {
        RoleDefinition {
            role: Role::SurfaceContainer,
            palette: PaletteKind::Neutral,
            tone: ToneRule::Value(
                if scheme.platform == Platform::Phone {
                    if scheme.is_dark {
                        Fixed::from_int(9)
                    } else if Hct::is_yellow(scheme.neutral_palette.hue) {
                        Fixed::from_int(96)
                    } else if scheme.variant == Variant::Vibrant {
                        Fixed::from_int(92)
                    } else {
                        Fixed::from_int(94)
                    }
                } else {
                    Fixed::from_int(20)
                },
            ),
            is_background: true,
            chroma_multiplier: if scheme.platform == Platform::Phone {
                if scheme.variant == Variant::Neutral {
                    Fixed::from_tenths(16)
                } else if scheme.variant == Variant::TonalSpot {
                    Fixed::from_tenths(14)
                } else if scheme.variant == Variant::Expressive {
                    if Hct::is_yellow(scheme.neutral_palette.hue) {
                        Fixed::from_tenths(16)
                    } else {
                        Fixed::from_tenths(13)
                    }
                } else if scheme.variant == Variant::Vibrant {
                    Fixed::from_hundredths(115)
                } else {
                    Fixed::from_int(1)
                }
            } else {
                Fixed::from_int(1)
            },
            background: None,
            second_background: None,
            contrast_curve: None,
            tone_delta_pair: None,
            opacity: None,
        }
    }

    /// The container of high emphasis.
    pub open spec fn spec_surface_container_high(scheme: &DynamicScheme) -> RoleDefinition {
        RoleDefinition {
            role: Role::SurfaceContainerHigh,
            palette: PaletteKind::Neutral,
            tone: ToneRule::Value(
                if scheme.platform == Platform::Phone {
                    if scheme.is_dark {
                        Fixed::from_int(12)
                    } else if Hct::is_yellow(scheme.neutral_palette.hue) {
                        Fixed::from_int(94)
                    } else if scheme.variant == Variant::Vibrant {
                        Fixed::from_int(90)
                    } else {
                        Fixed::from_int(92)
                    }
                } else {
                    Fixed::from_int(25)
                },
            ),
            is_background: true,
            chroma_multiplier: if scheme.platform == Platform::Phone {
                if scheme.variant == Variant::Neutral {
                    Fixed::from_tenths(19)
                } else if scheme.variant == Variant::TonalSpot {
                    Fixed::from_tenths(15)
                } else if scheme.variant == Variant::Expressive {
                    if Hct::is_yellow(scheme.neutral_palette.hue) {
                        Fixed::from_hundredths(195)
                    } else {
                        Fixed::from_hundredths(145)
                    }
                } else if scheme.variant == Variant::Vibrant {
                    Fixed::from_hundredths(122)
                } else {
                    Fixed::from_int(1)
                }
            } else {
                Fixed::from_int(1)
            },
            background: None,
            second_background: None,
            contrast_curve: None,
            tone_delta_pair: None,
            opacity: None,
        }
    }

    #[verifier::when_used_as_spec(spec_surface_container_high)]
    pub fn surface_container_high(scheme: &DynamicScheme) -> (out: RoleDefinition)
        ensures
            out == Self::spec_surface_container_high(scheme),
    {
        RoleDefinition {
            role: Role::SurfaceContainerHigh,
            palette: PaletteKind::Neutral,
            tone: ToneRule::Value(
                if scheme.platform == Platform::Phone {
                    if scheme.is_dark {
                        Fixed::from_int(12)
                    } else if Hct::is_yellow(scheme.neutral_palette.hue) {
                        Fixed::from_int(94)
                    } else if scheme.variant == Variant::Vibrant {
                        Fixed::from_int(90)
                    } else {
                        Fixed::from_int(92)
                    }
                } else {
                    Fixed::from_int(25)
                },
            ),
            is_background: true,
            chroma_multiplier: if scheme.platform == Platform::Phone {
                if scheme.variant == Variant::Neutral {
                    Fixed::from_tenths(19)
                } else if scheme.variant == Variant::TonalSpot {
                    Fixed::from_tenths(15)
                } else if scheme.variant == Variant::Expressive {
                    if Hct::is_yellow(scheme.neutral_palette.hue) {
                        Fixed::from_hundredths(195)
                    } else {
                        Fixed::from_hundredths(145)
                    }
                } else if scheme.variant == Variant::Vibrant {
                    Fixed::from_hundredths(122)
                } else {
                    Fixed::from_int(1)
                }
            } else {
                Fixed::from_int(1)
            },
            background: None,
            second_background: None,
            contrast_curve: None,
            tone_delta_pair: None,
            opacity: None,
        }
    }

    /// The container of most emphasis.
    pub open spec fn spec_surface_container_highest(scheme: &DynamicScheme) -> RoleDefinition {
        RoleDefinition {
            role: Role::SurfaceContainerHighest,
            palette: PaletteKind::Neutral,
            tone: ToneRule::Value(
                if scheme.is_dark {
                    Fixed::from_int(15)
                } else if Hct::is_yellow(scheme.neutral_palette.hue) {
                    Fixed::from_int(92)
                } else if scheme.variant == Variant::Vibrant {
                    Fixed::from_int(88)
                } else {
                    Fixed::from_int(90)
                },
            ),
            is_background: true,
            chroma_multiplier: if scheme.variant == Variant::Neutral {
                Fixed::from_tenths(22)
            } else if scheme.variant == Variant::TonalSpot {
                Fixed::from_tenths(17)
            } else if scheme.variant == Variant::Expressive {
                if Hct::is_yellow(scheme.neutral_palette.hue) {
                    Fixed::from_tenths(23)
                } else {
                    Fixed::from_tenths(16)
                }
            } else if scheme.variant == Variant::Vibrant {
                Fixed::from_hundredths(129)
            } else {
                Fixed::from_int(1)
            },
            background: None,
            second_background: None,
            contrast_curve: None,
            tone_delta_pair: None,
            opacity: None,
        }
    }

    #[verifier::when_used_as_spec(spec_surface_container_highest)]
    pub fn surface_container_highest(scheme: &DynamicScheme) -> (out: RoleDefinition)
        ensures
            out == Self::spec_surface_container_highest(scheme),
    {
        RoleDefinition {
            role: Role::SurfaceContainerHighest,
            palette: PaletteKind::Neutral,
            tone: ToneRule::Value(
                if scheme.is_dark {
                    Fixed::from_int(15)
                } else if Hct::is_yellow(scheme.neutral_palette.hue) {
                    Fixed::from_int(92)
                } else if scheme.variant == Variant::Vibrant {
                    Fixed::from_int(88)
                } else {
                    Fixed::from_int(90)
                },
            ),
            is_background: true,
            chroma_multiplier: if scheme.variant == Variant::Neutral {
                Fixed::from_tenths(22)
            } else if scheme.variant == Variant::TonalSpot {
                Fixed::from_tenths(17)
            } else if scheme.variant == Variant::Expressive {
                if Hct::is_yellow(scheme.neutral_palette.hue) {
                    Fixed::from_tenths(23)
                } else {
                    Fixed::from_tenths(16)
                }
            } else if scheme.variant == Variant::Vibrant {
                Fixed::from_hundredths(129)
            } else {
                Fixed::from_int(1)
            },
            background: None,
            second_background: None,
            contrast_curve: None,
            tone_delta_pair: None,
            opacity: None,
        }
    }

    /// Text and icons on any surface.
    pub open spec fn spec_on_surface(scheme: &DynamicScheme) -> RoleDefinition {
        RoleDefinition {
            role: Role::OnSurface,
            palette: PaletteKind::Neutral,
            tone: if scheme.variant == Variant::Vibrant {
                ToneRule::MaxChroma {
                    palette: PaletteKind::Neutral,
                    lower: Fixed::from_int(0),
                    upper: Fixed::from_int(100),
                    chroma_multiplier: Fixed::from_tenths(11),
                }
            } else {
                ToneRule::FromBackground
            },
            is_background: false,
            chroma_multiplier: if scheme.platform == Platform::Phone {
                if scheme.variant == Variant::Neutral {
                    Fixed::from_tenths(22)
                } else if scheme.variant == Variant::TonalSpot {
                    Fixed::from_tenths(17)
                } else if scheme.variant == Variant::Expressive {
                    if Hct::is_yellow(scheme.neutral_palette.hue) {
                        if scheme.is_dark { Fixed::from_int(3) } else { Fixed::from_tenths(23) }
                    } else {
                        Fixed::from_tenths(16)
                    }
                } else {
                    Fixed::from_int(1)
                }
            } else {
                Fixed::from_int(1)
            },
            background: Some(ColorSpec2025::highest_surface(scheme)),
            second_background: None,
            contrast_curve: Some(
                if scheme.is_dark && scheme.platform == Platform::Phone {
                    ColorSpec2025::get_contrast_curve(110)
                } else {
                    ColorSpec2025::get_contrast_curve(90)
                },
            ),
            tone_delta_pair: None,
            opacity: None,
        }
    }

    #[verifier::when_used_as_spec(spec_on_surface)]
    pub fn on_surface(scheme: &DynamicScheme) -> (out: RoleDefinition)
        ensures
            out == Self::spec_on_surface(scheme),
    {
        RoleDefinition {
            role: Role::OnSurface,
            palette: PaletteKind::Neutral,
            tone: if scheme.variant == Variant::Vibrant {
                ToneRule::MaxChroma {
                    palette: PaletteKind::Neutral,
                    lower: Fixed::from_int(0),
                    upper: Fixed::from_int(100),
                    chroma_multiplier: Fixed::from_tenths(11),
                }
            } else {
                ToneRule::FromBackground
            },
            is_background: false,
            chroma_multiplier: if scheme.platform == Platform::Phone {
                if scheme.variant == Variant::Neutral {
                    Fixed::from_tenths(22)
                } else if scheme.variant == Variant::TonalSpot {
                    Fixed::from_tenths(17)
                } else if scheme.variant == Variant::Expressive {
                    if Hct::is_yellow(scheme.neutral_palette.hue) {
                        if scheme.is_dark { Fixed::from_int(3) } else { Fixed::from_tenths(23) }
                    } else {
                        Fixed::from_tenths(16)
                    }
                } else {
                    Fixed::from_int(1)
                }
            } else {
                Fixed::from_int(1)
            },
            background: Some(ColorSpec2025::highest_surface(scheme)),
            second_background: None,
            contrast_curve: Some(
                if scheme.is_dark && scheme.platform == Platform::Phone {
                    ColorSpec2025::get_contrast_curve(110)
                } else {
                    ColorSpec2025::get_contrast_curve(90)
                },
            ),
            tone_delta_pair: None,
            opacity: None,
        }
    }

    /// A surface of another tint: the container of most emphasis under another
    /// name.
    pub open spec fn spec_surface_variant(scheme: &DynamicScheme) -> RoleDefinition {
        RoleDefinition {
            role: Role::SurfaceVariant,
            ..Self::surface_container_highest(scheme)
        }
    }

    #[verifier::when_used_as_spec(spec_surface_variant)]
    pub fn surface_variant(scheme: &DynamicScheme) -> (out: RoleDefinition)
        ensures
            out == Self::spec_surface_variant(scheme),
    {
        RoleDefinition {
            role: Role::SurfaceVariant,
            ..Self::surface_container_highest(scheme)
        }
    }

    /// Text and icons of lower emphasis on any surface.
    pub open spec fn spec_on_surface_variant(scheme: &DynamicScheme) -> RoleDefinition {
        RoleDefinition {
            role: Role::OnSurfaceVariant,
            palette: PaletteKind::Neutral,
            tone: ToneRule::FromBackground,
            is_background: false,
            chroma_multiplier: if scheme.platform == Platform::Phone {
                if scheme.variant == Variant::Neutral {
                    Fixed::from_tenths(22)
                } else if scheme.variant == Variant::TonalSpot {
                    Fixed::from_tenths(17)
                } else if scheme.variant == Variant::Expressive {
                    if Hct::is_yellow(scheme.neutral_palette.hue) {
                        if scheme.is_dark { Fixed::from_int(3) } else { Fixed::from_tenths(23) }
                    } else {
                        Fixed::from_tenths(16)
                    }
                } else {
                    Fixed::from_int(1)
                }
            } else {
                Fixed::from_int(1)
            },
            background: Some(ColorSpec2025::highest_surface(scheme)),
            second_background: None,
            contrast_curve: Some(
                if scheme.platform == Platform::Phone {
                    if scheme.is_dark {
                        ColorSpec2025::get_contrast_curve(60)
                    } else {
                        ColorSpec2025::get_contrast_curve(45)
                    }
                } else {
                    ColorSpec2025::get_contrast_curve(70)
                },
            ),
            tone_delta_pair: None,
            opacity: None,
        }
    }

    #[verifier::when_used_as_spec(spec_on_surface_variant)]
    pub fn on_surface_variant(scheme: &DynamicScheme) -> (out: RoleDefinition)
        ensures
            out == Self::spec_on_surface_variant(scheme),
    {
        RoleDefinition {
            role: Role::OnSurfaceVariant,
            palette: PaletteKind::Neutral,
            tone: ToneRule::FromBackground,
            is_background: false,
            chroma_multiplier: if scheme.platform == Platform::Phone {
                if scheme.variant == Variant::Neutral {
                    Fixed::from_tenths(22)
                } else if scheme.variant == Variant::TonalSpot {
                    Fixed::from_tenths(17)
                } else if scheme.variant == Variant::Expressive {
                    if Hct::is_yellow(scheme.neutral_palette.hue) {
                        if scheme.is_dark { Fixed::from_int(3) } else { Fixed::from_tenths(23) }
                    } else {
                        Fixed::from_tenths(16)
                    }
                } else {
                    Fixed::from_int(1)
                }
            } else {
                Fixed::from_int(1)
            },
            background: Some(ColorSpec2025::highest_surface(scheme)),
            second_background: None,
            contrast_curve: Some(
                if scheme.platform == Platform::Phone {
                    if scheme.is_dark {
                        ColorSpec2025::get_contrast_curve(60)
                    } else {
                        ColorSpec2025::get_contrast_curve(45)
                    }
                } else {
                    ColorSpec2025::get_contrast_curve(70)
                },
            ),
            tone_delta_pair: None,
            opacity: None,
        }
    }

    /// A surface that stands out against the others.
    pub open spec fn spec_inverse_surface(scheme: &DynamicScheme) -> RoleDefinition {
        RoleDefinition {
            role: Role::InverseSurface,
            palette: PaletteKind::Neutral,
            tone:
                ToneRule::Value(
                    if scheme.is_dark { Fixed::from_int(98) } else { Fixed::from_int(4) },
                ),
            is_background: true,
            chroma_multiplier: Fixed::from_int(1),
            background: None,
            second_background: None,
            contrast_curve: None,
            tone_delta_pair: None,
            opacity: None,
        }
    }

    #[verifier::when_used_as_spec(spec_inverse_surface)]
    pub fn inverse_surface(scheme: &DynamicScheme) -> (out: RoleDefinition)
        ensures
            out == Self::spec_inverse_surface(scheme),
    {
        RoleDefinition {
            role: Role::InverseSurface,
            palette: PaletteKind::Neutral,
            tone:
                ToneRule::Value(
                    if scheme.is_dark { Fixed::from_int(98) } else { Fixed::from_int(4) },
                ),
            is_background: true,
            chroma_multiplier: Fixed::from_int(1),
            background: None,
            second_background: None,
            contrast_curve: None,
            tone_delta_pair: None,
            opacity: None,
        }
    }

    /// Text and icons on the inverse surface.
    pub open spec fn spec_inverse_on_surface(scheme: &DynamicScheme) -> RoleDefinition {
        RoleDefinition {
            role: Role::InverseOnSurface,
            palette: PaletteKind::Neutral,
            tone: ToneRule::FromBackground,
            is_background: false,
            chroma_multiplier: Fixed::from_int(1),
            background: Some(Role::InverseSurface),
            second_background: None,
            contrast_curve: Some(ColorSpec2025::get_contrast_curve(70)),
            tone_delta_pair: None,
            opacity: None,
        }
    }

    #[verifier::when_used_as_spec(spec_inverse_on_surface)]
    pub fn inverse_on_surface(scheme: &DynamicScheme) -> (out: RoleDefinition)
        ensures
            out == Self::spec_inverse_on_surface(scheme),
    {
        RoleDefinition {
            role: Role::InverseOnSurface,
            palette: PaletteKind::Neutral,
            tone: ToneRule::FromBackground,
            is_background: false,
            chroma_multiplier: Fixed::from_int(1),
            background: Some(Role::InverseSurface),
            second_background: None,
            contrast_curve: Some(ColorSpec2025::get_contrast_curve(70)),
            tone_delta_pair: None,
            opacity: None,
        }
    }

    /// Outlines that matter, such as that of a text field.
    pub open spec fn spec_outline(scheme: &DynamicScheme) -> RoleDefinition {
        RoleDefinition {
            role: Role::Outline,
            palette: PaletteKind::Neutral,
            tone: ToneRule::FromBackground,
            is_background: false,
            chroma_multiplier: if scheme.platform == Platform::Phone {
                if scheme.variant == Variant::Neutral {
                    Fixed::from_tenths(22)
                } else if scheme.variant == Variant::TonalSpot {
                    Fixed::from_tenths(17)
                } else if scheme.variant == Variant::Expressive {
                    if Hct::is_yellow(scheme.neutral_palette.hue) {
                        if scheme.is_dark { Fixed::from_int(3) } else { Fixed::from_tenths(23) }
                    } else {
                        Fixed::from_tenths(16)
                    }
                } else {
                    Fixed::from_int(1)
                }
            } else {
                Fixed::from_int(1)
            },
            background: Some(ColorSpec2025::highest_surface(scheme)),
            second_background: None,
            contrast_curve: Some(
                if scheme.platform == Platform::Phone {
                    ColorSpec2025::get_contrast_curve(30)
                } else {
                    ColorSpec2025::get_contrast_curve(45)
                },
            ),
            tone_delta_pair: None,
            opacity: None,
        }
    }

    #[verifier::when_used_as_spec(spec_outline)]
    pub fn outline(scheme: &DynamicScheme) -> (out: RoleDefinition)
        ensures
            out == Self::spec_outline(scheme),
    {
        RoleDefinition {
            role: Role::Outline,
            palette: PaletteKind::Neutral,
            tone: ToneRule::FromBackground,
            is_background: false,
            chroma_multiplier: if scheme.platform == Platform::Phone {
                if scheme.variant == Variant::Neutral {
                    Fixed::from_tenths(22)
                } else if scheme.variant == Variant::TonalSpot {
                    Fixed::from_tenths(17)
                } else if scheme.variant == Variant::Expressive {
                    if Hct::is_yellow(scheme.neutral_palette.hue) {
                        if scheme.is_dark { Fixed::from_int(3) } else { Fixed::from_tenths(23) }
                    } else {
                        Fixed::from_tenths(16)
                    }
                } else {
                    Fixed::from_int(1)
                }
            } else {
                Fixed::from_int(1)
            },
            background: Some(ColorSpec2025::highest_surface(scheme)),
            second_background: None,
            contrast_curve: Some(
                if scheme.platform == Platform::Phone {
                    ColorSpec2025::get_contrast_curve(30)
                } else {
                    ColorSpec2025::get_contrast_curve(45)
                },
            ),
            tone_delta_pair: None,
            opacity: None,
        }
    }

    /// Outlines for decoration, such as dividers.
    pub open spec fn spec_outline_variant(scheme: &DynamicScheme) -> RoleDefinition {
        RoleDefinition {
            role: Role::OutlineVariant,
            palette: PaletteKind::Neutral,
            tone: ToneRule::FromBackground,
            is_background: false,
            chroma_multiplier: if scheme.platform == Platform::Phone {
                if scheme.variant == Variant::Neutral {
                    Fixed::from_tenths(22)
                } else if scheme.variant == Variant::TonalSpot {
                    Fixed::from_tenths(17)
                } else if scheme.variant == Variant::Expressive {
                    if Hct::is_yellow(scheme.neutral_palette.hue) {
                        if scheme.is_dark { Fixed::from_int(3) } else { Fixed::from_tenths(23) }
                    } else {
                        Fixed::from_tenths(16)
                    }
                } else {
                    Fixed::from_int(1)
                }
            } else {
                Fixed::from_int(1)
            },
            background: Some(ColorSpec2025::highest_surface(scheme)),
            second_background: None,
            contrast_curve: Some(
                if scheme.platform == Platform::Phone {
                    ColorSpec2025::get_contrast_curve(15)
                } else {
                    ColorSpec2025::get_contrast_curve(30)
                },
            ),
            tone_delta_pair: None,
            opacity: None,
        }
    }

    #[verifier::when_used_as_spec(spec_outline_variant)]
    pub fn outline_variant(scheme: &DynamicScheme) -> (out: RoleDefinition)
        ensures
            out == Self::spec_outline_variant(scheme),
    {
        RoleDefinition {
            role: Role::OutlineVariant,
            palette: PaletteKind::Neutral,
            tone: ToneRule::FromBackground,
            is_background: false,
            chroma_multiplier: if scheme.platform == Platform::Phone {
                if scheme.variant == Variant::Neutral {
                    Fixed::from_tenths(22)
                } else if scheme.variant == Variant::TonalSpot {
                    Fixed::from_tenths(17)
                } else if scheme.variant == Variant::Expressive {
                    if Hct::is_yellow(scheme.neutral_palette.hue) {
                        if scheme.is_dark { Fixed::from_int(3) } else { Fixed::from_tenths(23) }
                    } else {
                        Fixed::from_tenths(16)
                    }
                } else {
                    Fixed::from_int(1)
                }
            } else {
                Fixed::from_int(1)
            },
            background: Some(ColorSpec2025::highest_surface(scheme)),
            second_background: None,
            contrast_curve: Some(
                if scheme.platform == Platform::Phone {
                    ColorSpec2025::get_contrast_curve(15)
                } else {
                    ColorSpec2025::get_contrast_curve(30)
                },
            ),
            tone_delta_pair: None,
            opacity: None,
        }
    }

    /// Shadows. As in the rules of 2021.
    pub open spec fn spec_shadow(scheme: &DynamicScheme) -> RoleDefinition {
        ColorSpec2021::shadow(scheme)
    }

    #[verifier::when_used_as_spec(spec_shadow)]
    pub fn shadow(scheme: &DynamicScheme) -> (out: RoleDefinition)
        ensures
            out == Self::spec_shadow(scheme),
    {
        ColorSpec2021::shadow(scheme)
    }

    /// The veil over what lies behind a dialog. As in the rules of 2021.
    pub open spec fn spec_scrim(scheme: &DynamicScheme) -> RoleDefinition {
        ColorSpec2021::scrim(scheme)
    }

    #[verifier::when_used_as_spec(spec_scrim)]
    pub fn scrim(scheme: &DynamicScheme) -> (out: RoleDefinition)
        ensures
            out == Self::spec_scrim(scheme),
    {
        ColorSpec2021::scrim(scheme)
    }

    /// The tint that elevation gives a surface: primary under another name.
    pub open spec fn spec_surface_tint(scheme: &DynamicScheme) -> RoleDefinition {
        RoleDefinition {
            role: Role::SurfaceTint,
            ..Self::primary(scheme)
        }
    }

    #[verifier::when_used_as_spec(spec_surface_tint)]
    pub fn surface_tint(scheme: &DynamicScheme) -> (out: RoleDefinition)
        ensures
            out == Self::spec_surface_tint(scheme),
    {
        RoleDefinition {
            role: Role::SurfaceTint,
            ..Self::primary(scheme)
        }
    }

    /// The accent that stands out most.
    pub open spec fn spec_primary(scheme: &DynamicScheme) -> RoleDefinition {
        RoleDefinition {
            role: Role::Primary,
            palette: PaletteKind::Primary,
            tone: match scheme.variant {
                Variant::Neutral => ToneRule::Value(
                    if scheme.platform == Platform::Phone {
                        if scheme.is_dark { Fixed::from_int(80) } else { Fixed::from_int(40) }
                    } else {
                        Fixed::from_int(90)
                    },
                ),
                Variant::TonalSpot => if scheme.platform == Platform::Phone {
                    if scheme.is_dark {
                        ToneRule::Value(Fixed::from_int(80))
                    } else {
                        ToneRule::MaxChroma {
                            palette: PaletteKind::Primary,
                            lower: Fixed::from_int(0),
                            upper: Fixed::from_int(100),
                            chroma_multiplier: Fixed::from_int(1),
                        }
                    }
                } else {
                    ToneRule::MaxChroma {
                        palette: PaletteKind::Primary,
                        lower: Fixed::from_int(0),
                        upper: Fixed::from_int(90),
                        chroma_multiplier: Fixed::from_int(1),
                    }
                },
                Variant::Expressive => ToneRule::MaxChroma {
                    palette: PaletteKind::Primary,
                    lower: Fixed::from_int(0),
                    upper: if Hct::is_yellow(scheme.primary_palette.hue) {
                        Fixed::from_int(25)
                    } else if Hct::is_cyan(scheme.primary_palette.hue) {
                        Fixed::from_int(88)
                    } else {
                        Fixed::from_int(98)
                    },
                    chroma_multiplier: Fixed::from_int(1),
                },
                _ => ToneRule::MaxChroma {
                    palette: PaletteKind::Primary,
                    lower: Fixed::from_int(0),
                    upper: if Hct::is_cyan(scheme.primary_palette.hue) {
                        Fixed::from_int(88)
                    } else {
                        Fixed::from_int(98)
                    },
                    chroma_multiplier: Fixed::from_int(1),
                },
            },
            is_background: true,
            chroma_multiplier: Fixed::from_int(1),
            background: Some(ColorSpec2025::highest_surface(scheme)),
            second_background: None,
            contrast_curve: Some(
                if scheme.platform == Platform::Phone {
                    ColorSpec2025::get_contrast_curve(45)
                } else {
                    ColorSpec2025::get_contrast_curve(70)
                },
            ),
            tone_delta_pair: if scheme.platform == Platform::Phone {
                Some(
                    ToneDeltaPair::new(
                        Role::PrimaryContainer,
                        Role::Primary,
                        Fixed::from_int(5),
                        TonePolarity::RelativeLighter,
                        true,
                        DeltaConstraint::Farther,
                    ),
                )
            } else {
                None
            },
            opacity: None,
        }
    }

    #[verifier::when_used_as_spec(spec_primary)]
    pub fn primary(scheme: &DynamicScheme) -> (out: RoleDefinition)
        ensures
            out == Self::spec_primary(scheme),
    {
        RoleDefinition {
            role: Role::Primary,
            palette: PaletteKind::Primary,
            tone: match scheme.variant {
                Variant::Neutral => ToneRule::Value(
                    if scheme.platform == Platform::Phone {
                        if scheme.is_dark { Fixed::from_int(80) } else { Fixed::from_int(40) }
                    } else {
                        Fixed::from_int(90)
                    },
                ),
                Variant::TonalSpot => if scheme.platform == Platform::Phone {
                    if scheme.is_dark {
                        ToneRule::Value(Fixed::from_int(80))
                    } else {
                        ToneRule::MaxChroma {
                            palette: PaletteKind::Primary,
                            lower: Fixed::from_int(0),
                            upper: Fixed::from_int(100),
                            chroma_multiplier: Fixed::from_int(1),
                        }
                    }
                } else {
                    ToneRule::MaxChroma {
                        palette: PaletteKind::Primary,
                        lower: Fixed::from_int(0),
                        upper: Fixed::from_int(90),
                        chroma_multiplier: Fixed::from_int(1),
                    }
                },
                Variant::Expressive => ToneRule::MaxChroma {
                    palette: PaletteKind::Primary,
                    lower: Fixed::from_int(0),
                    upper: if Hct::is_yellow(scheme.primary_palette.hue) {
                        Fixed::from_int(25)
                    } else if Hct::is_cyan(scheme.primary_palette.hue) {
                        Fixed::from_int(88)
                    } else {
                        Fixed::from_int(98)
                    },
                    chroma_multiplier: Fixed::from_int(1),
                },
                _ => ToneRule::MaxChroma {
                    palette: PaletteKind::Primary,
                    lower: Fixed::from_int(0),
                    upper: if Hct::is_cyan(scheme.primary_palette.hue) {
                        Fixed::from_int(88)
                    } else {
                        Fixed::from_int(98)
                    },
                    chroma_multiplier: Fixed::from_int(1),
                },
            },
            is_background: true,
            chroma_multiplier: Fixed::from_int(1),
            background: Some(ColorSpec2025::highest_surface(scheme)),
            second_background: None,
            contrast_curve: Some(
                if scheme.platform == Platform::Phone {
                    ColorSpec2025::get_contrast_curve(45)
                } else {
                    ColorSpec2025::get_contrast_curve(70)
                },
            ),
            tone_delta_pair: if scheme.platform == Platform::Phone {
                Some(
                    ToneDeltaPair::new(
                        Role::PrimaryContainer,
                        Role::Primary,
                        Fixed::from_int(5),
                        TonePolarity::RelativeLighter,
                        true,
                        DeltaConstraint::Farther,
                    ),
                )
            } else {
                None
            },
            opacity: None,
        }
    }

    /// The dimmer form of primary.
    pub open spec fn spec_primary_dim(scheme: &DynamicScheme) -> RoleDefinition {
        RoleDefinition {
            role: Role::PrimaryDim,
            palette: PaletteKind::Primary,
            tone: if scheme.variant == Variant::Neutral {
                ToneRule::Value(Fixed::from_int(85))
            } else if scheme.variant == Variant::TonalSpot {
                ToneRule::MaxChroma {
                    palette: PaletteKind::Primary,
                    lower: Fixed::from_int(0),
                    upper: Fixed::from_int(90),
                    chroma_multiplier: Fixed::from_int(1),
                }
            } else {
                ToneRule::MaxChroma {
                    palette: PaletteKind::Primary,
                    lower: Fixed::from_int(0),
                    upper: Fixed::from_int(100),
                    chroma_multiplier: Fixed::from_int(1),
                }
            },
            is_background: true,
            chroma_multiplier: Fixed::from_int(1),
            background: Some(Role::SurfaceContainerHigh),
            second_background: None,
            contrast_curve: Some(ColorSpec2025::get_contrast_curve(45)),
            tone_delta_pair: Some(
                ToneDeltaPair::new(
                    Role::PrimaryDim,
                    Role::Primary,
                    Fixed::from_int(5),
                    TonePolarity::Darker,
                    true,
                    DeltaConstraint::Farther,
                ),
            ),
            opacity: None,
        }
    }

    #[verifier::when_used_as_spec(spec_primary_dim)]
    pub fn primary_dim(scheme: &DynamicScheme) -> (out: RoleDefinition)
        ensures
            out == Self::spec_primary_dim(scheme),
    {
        RoleDefinition {
            role: Role::PrimaryDim,
            palette: PaletteKind::Primary,
            tone: if scheme.variant == Variant::Neutral {
                ToneRule::Value(Fixed::from_int(85))
            } else if scheme.variant == Variant::TonalSpot {
                ToneRule::MaxChroma {
                    palette: PaletteKind::Primary,
                    lower: Fixed::from_int(0),
                    upper: Fixed::from_int(90),
                    chroma_multiplier: Fixed::from_int(1),
                }
            } else {
                ToneRule::MaxChroma {
                    palette: PaletteKind::Primary,
                    lower: Fixed::from_int(0),
                    upper: Fixed::from_int(100),
                    chroma_multiplier: Fixed::from_int(1),
                }
            },
            is_background: true,
            chroma_multiplier: Fixed::from_int(1),
            background: Some(Role::SurfaceContainerHigh),
            second_background: None,
            contrast_curve: Some(ColorSpec2025::get_contrast_curve(45)),
            tone_delta_pair: Some(
                ToneDeltaPair::new(
                    Role::PrimaryDim,
                    Role::Primary,
                    Fixed::from_int(5),
                    TonePolarity::Darker,
                    true,
                    DeltaConstraint::Farther,
                ),
            ),
            opacity: None,
        }
    }

    /// Text and icons on primary.
    pub open spec fn spec_on_primary(scheme: &DynamicScheme) -> RoleDefinition {
        RoleDefinition {
            role: Role::OnPrimary,
            palette: PaletteKind::Primary,
            tone: ToneRule::FromBackground,
            is_background: false,
            chroma_multiplier: Fixed::from_int(1),
            background: if scheme.platform == Platform::Phone {
                Some(Role::Primary)
            } else {
                Some(Role::PrimaryDim)
            },
            second_background: None,
            contrast_curve: Some(
                if scheme.platform == Platform::Phone {
                    ColorSpec2025::get_contrast_curve(60)
                } else {
                    ColorSpec2025::get_contrast_curve(70)
                },
            ),
            tone_delta_pair: None,
            opacity: None,
        }
    }

    #[verifier::when_used_as_spec(spec_on_primary)]
    pub fn on_primary(scheme: &DynamicScheme) -> (out: RoleDefinition)
        ensures
            out == Self::spec_on_primary(scheme),
    {
        RoleDefinition {
            role: Role::OnPrimary,
            palette: PaletteKind::Primary,
            tone: ToneRule::FromBackground,
            is_background: false,
            chroma_multiplier: Fixed::from_int(1),
            background: if scheme.platform == Platform::Phone {
                Some(Role::Primary)
            } else {
                Some(Role::PrimaryDim)
            },
            second_background: None,
            contrast_curve: Some(
                if scheme.platform == Platform::Phone {
                    ColorSpec2025::get_contrast_curve(60)
                } else {
                    ColorSpec2025::get_contrast_curve(70)
                },
            ),
            tone_delta_pair: None,
            opacity: None,
        }
    }

    /// A container in the primary accent.
    pub open spec fn spec_primary_container(scheme: &DynamicScheme) -> RoleDefinition {
        RoleDefinition {
            role: Role::PrimaryContainer,
            palette: PaletteKind::Primary,
            tone: if scheme.platform == Platform::Watch {
                ToneRule::Value(Fixed::from_int(30))
            } else if scheme.variant == Variant::Neutral {
                ToneRule::Value(
                    if scheme.is_dark { Fixed::from_int(30) } else { Fixed::from_int(90) },
                )
            } else if scheme.variant == Variant::TonalSpot {
                if scheme.is_dark {
                    ToneRule::MinChroma {
                        palette: PaletteKind::Primary,
                        lower: Fixed::from_int(35),
                        upper: Fixed::from_int(93),
                    }
                } else {
                    ToneRule::MaxChroma {
                        palette: PaletteKind::Primary,
                        lower: Fixed::from_int(0),
                        upper: Fixed::from_int(90),
                        chroma_multiplier: Fixed::from_int(1),
                    }
                }
            } else if scheme.variant == Variant::Expressive {
                if scheme.is_dark {
                    ToneRule::MaxChroma {
                        palette: PaletteKind::Primary,
                        lower: Fixed::from_int(30),
                        upper: Fixed::from_int(93),
                        chroma_multiplier: Fixed::from_int(1),
                    }
                } else {
                    ToneRule::MaxChroma {
                        palette: PaletteKind::Primary,
                        lower: Fixed::from_int(78),
                        upper: if Hct::is_cyan(scheme.primary_palette.hue) {
                            Fixed::from_int(88)
                        } else {
                            Fixed::from_int(90)
                        },
                        chroma_multiplier: Fixed::from_int(1),
                    }
                }
            } else if scheme.is_dark {
                ToneRule::MinChroma {
                    palette: PaletteKind::Primary,
                    lower: Fixed::from_int(66),
                    upper: Fixed::from_int(93),
                }
            } else {
                ToneRule::MaxChroma {
                    palette: PaletteKind::Primary,
                    lower: Fixed::from_int(66),
                    upper: if Hct::is_cyan(scheme.primary_palette.hue) {
                        Fixed::from_int(88)
                    } else {
                        Fixed::from_int(93)
                    },
                    chroma_multiplier: Fixed::from_int(1),
                }
            },
            is_background: true,
            chroma_multiplier: Fixed::from_int(1),
            background: if scheme.platform == Platform::Phone {
                Some(ColorSpec2025::highest_surface(scheme))
            } else {
                None
            },
            second_background: None,
            contrast_curve:
                if scheme.platform == Platform::Phone && scheme.contrast_level.gt(Fixed::from_int(0)) {
                    Some(ColorSpec2025::get_contrast_curve(15))
                } else {
                    None
                },
            tone_delta_pair: if scheme.platform == Platform::Watch {
                Some(
                    ToneDeltaPair::new(
                        Role::PrimaryContainer,
                        Role::PrimaryDim,
                        Fixed::from_int(10),
                        TonePolarity::Darker,
                        true,
                        DeltaConstraint::Farther,
                    ),
                )
            } else {
                None
            },
            opacity: None,
        }
    }

    #[verifier::when_used_as_spec(spec_primary_container)]
    pub fn primary_container(scheme: &DynamicScheme) -> (out: RoleDefinition)
        ensures
            out == Self::spec_primary_container(scheme),
    {
        RoleDefinition {
            role: Role::PrimaryContainer,
            palette: PaletteKind::Primary,
            tone: if scheme.platform == Platform::Watch {
                ToneRule::Value(Fixed::from_int(30))
            } else if scheme.variant == Variant::Neutral {
                ToneRule::Value(
                    if scheme.is_dark { Fixed::from_int(30) } else { Fixed::from_int(90) },
                )
            } else if scheme.variant == Variant::TonalSpot {
                if scheme.is_dark {
                    ToneRule::MinChroma {
                        palette: PaletteKind::Primary,
                        lower: Fixed::from_int(35),
                        upper: Fixed::from_int(93),
                    }
                } else {
                    ToneRule::MaxChroma {
                        palette: PaletteKind::Primary,
                        lower: Fixed::from_int(0),
                        upper: Fixed::from_int(90),
                        chroma_multiplier: Fixed::from_int(1),
                    }
                }
            } else if scheme.variant == Variant::Expressive {
                if scheme.is_dark {
                    ToneRule::MaxChroma {
                        palette: PaletteKind::Primary,
                        lower: Fixed::from_int(30),
                        upper: Fixed::from_int(93),
                        chroma_multiplier: Fixed::from_int(1),
                    }
                } else {
                    ToneRule::MaxChroma {
                        palette: PaletteKind::Primary,
                        lower: Fixed::from_int(78),
                        upper: if Hct::is_cyan(scheme.primary_palette.hue) {
                            Fixed::from_int(88)
                        } else {
                            Fixed::from_int(90)
                        },
                        chroma_multiplier: Fixed::from_int(1),
                    }
                }
            } else if scheme.is_dark {
                ToneRule::MinChroma {
                    palette: PaletteKind::Primary,
                    lower: Fixed::from_int(66),
                    upper: Fixed::from_int(93),
                }
            } else {
                ToneRule::MaxChroma {
                    palette: PaletteKind::Primary,
                    lower: Fixed::from_int(66),
                    upper: if Hct::is_cyan(scheme.primary_palette.hue) {
                        Fixed::from_int(88)
                    } else {
                        Fixed::from_int(93)
                    },
                    chroma_multiplier: Fixed::from_int(1),
                }
            },
            is_background: true,
            chroma_multiplier: Fixed::from_int(1),
            background: if scheme.platform == Platform::Phone {
                Some(ColorSpec2025::highest_surface(scheme))
            } else {
                None
            },
            second_background: None,
            contrast_curve:
                if scheme.platform == Platform::Phone && scheme.contrast_level.gt(Fixed::from_int(0)) {
                    Some(ColorSpec2025::get_contrast_curve(15))
                } else {
                    None
                },
            tone_delta_pair: if scheme.platform == Platform::Watch {
                Some(
                    ToneDeltaPair::new(
                        Role::PrimaryContainer,
                        Role::PrimaryDim,
                        Fixed::from_int(10),
                        TonePolarity::Darker,
                        true,
                        DeltaConstraint::Farther,
                    ),
                )
            } else {
                None
            },
            opacity: None,
        }
    }

    /// Text and icons on the primary container.
    pub open spec fn spec_on_primary_container(scheme: &DynamicScheme) -> RoleDefinition {
        RoleDefinition {
            role: Role::OnPrimaryContainer,
            palette: PaletteKind::Primary,
            tone: ToneRule::FromBackground,
            is_background: false,
            chroma_multiplier: Fixed::from_int(1),
            background: Some(Role::PrimaryContainer),
            second_background: None,
            contrast_curve: Some(
                if scheme.platform == Platform::Phone {
                    ColorSpec2025::get_contrast_curve(60)
                } else {
                    ColorSpec2025::get_contrast_curve(70)
                },
            ),
            tone_delta_pair: None,
            opacity: None,
        }
    }

    #[verifier::when_used_as_spec(spec_on_primary_container)]
    pub fn on_primary_container(scheme: &DynamicScheme) -> (out: RoleDefinition)
        ensures
            out == Self::spec_on_primary_container(scheme),
    {
        RoleDefinition {
            role: Role::OnPrimaryContainer,
            palette: PaletteKind::Primary,
            tone: ToneRule::FromBackground,
            is_background: false,
            chroma_multiplier: Fixed::from_int(1),
            background: Some(Role::PrimaryContainer),
            second_background: None,
            contrast_curve: Some(
                if scheme.platform == Platform::Phone {
                    ColorSpec2025::get_contrast_curve(60)
                } else {
                    ColorSpec2025::get_contrast_curve(70)
                },
            ),
            tone_delta_pair: None,
            opacity: None,
        }
    }

    /// The primary accent on the inverse surface.
    pub open spec fn spec_inverse_primary(scheme: &DynamicScheme) -> RoleDefinition {
        RoleDefinition {
            role: Role::InversePrimary,
            palette: PaletteKind::Primary,
            tone: ToneRule::MaxChroma {
                palette: PaletteKind::Primary,
                lower: Fixed::from_int(0),
                upper: Fixed::from_int(100),
                chroma_multiplier: Fixed::from_int(1),
            },
            is_background: false,
            chroma_multiplier: Fixed::from_int(1),
            background: Some(Role::InverseSurface),
            second_background: None,
            contrast_curve: Some(
                if scheme.platform == Platform::Phone {
                    ColorSpec2025::get_contrast_curve(60)
                } else {
                    ColorSpec2025::get_contrast_curve(70)
                },
            ),
            tone_delta_pair: None,
            opacity: None,
        }
    }

    #[verifier::when_used_as_spec(spec_inverse_primary)]
    pub fn inverse_primary(scheme: &DynamicScheme) -> (out: RoleDefinition)
        ensures
            out == Self::spec_inverse_primary(scheme),
    {
        RoleDefinition {
            role: Role::InversePrimary,
            palette: PaletteKind::Primary,
            tone: ToneRule::MaxChroma {
                palette: PaletteKind::Primary,
                lower: Fixed::from_int(0),
                upper: Fixed::from_int(100),
                chroma_multiplier: Fixed::from_int(1),
            },
            is_background: false,
            chroma_multiplier: Fixed::from_int(1),
            background: Some(Role::InverseSurface),
            second_background: None,
            contrast_curve: Some(
                if scheme.platform == Platform::Phone {
                    ColorSpec2025::get_contrast_curve(60)
                } else {
                    ColorSpec2025::get_contrast_curve(70)
                },
            ),
            tone_delta_pair: None,
            opacity: None,
        }
    }

    /// The primary accent that is the same in light and dark schemes: the tone
    /// of the primary container in the light scheme of standard contrast.
    pub open spec fn spec_primary_fixed(scheme: &DynamicScheme) -> RoleDefinition {
        RoleDefinition {
            role: Role::PrimaryFixed,
            palette: PaletteKind::Primary,
            tone: ToneRule::LightStandard(Role::PrimaryContainer),
            is_background: true,
            chroma_multiplier: Fixed::from_int(1),
            background: if scheme.platform == Platform::Phone {
                Some(ColorSpec2025::highest_surface(scheme))
            } else {
                None
            },
            second_background: None,
            contrast_curve:
                if scheme.platform == Platform::Phone && scheme.contrast_level.gt(Fixed::from_int(0)) {
                    Some(ColorSpec2025::get_contrast_curve(15))
                } else {
                    None
                },
            tone_delta_pair: None,
            opacity: None,
        }
    }

    #[verifier::when_used_as_spec(spec_primary_fixed)]
    pub fn primary_fixed(scheme: &DynamicScheme) -> (out: RoleDefinition)
        ensures
            out == Self::spec_primary_fixed(scheme),
    {
        RoleDefinition {
            role: Role::PrimaryFixed,
            palette: PaletteKind::Primary,
            tone: ToneRule::LightStandard(Role::PrimaryContainer),
            is_background: true,
            chroma_multiplier: Fixed::from_int(1),
            background: if scheme.platform == Platform::Phone {
                Some(ColorSpec2025::highest_surface(scheme))
            } else {
                None
            },
            second_background: None,
            contrast_curve:
                if scheme.platform == Platform::Phone && scheme.contrast_level.gt(Fixed::from_int(0)) {
                    Some(ColorSpec2025::get_contrast_curve(15))
                } else {
                    None
                },
            tone_delta_pair: None,
            opacity: None,
        }
    }

    /// The dimmer form of the fixed primary accent.
    pub open spec fn spec_primary_fixed_dim(scheme: &DynamicScheme) -> RoleDefinition {
        RoleDefinition {
            role: Role::PrimaryFixedDim,
            palette: PaletteKind::Primary,
            tone: ToneRule::SameAs(Role::PrimaryFixed),
            is_background: true,
            chroma_multiplier: Fixed::from_int(1),
            background: None,
            second_background: None,
            contrast_curve: None,
            tone_delta_pair: Some(
                ToneDeltaPair::new(
                    Role::PrimaryFixedDim,
                    Role::PrimaryFixed,
                    Fixed::from_int(5),
                    TonePolarity::Darker,
                    true,
                    DeltaConstraint::Exact,
                ),
            ),
            opacity: None,
        }
    }

    #[verifier::when_used_as_spec(spec_primary_fixed_dim)]
    pub fn primary_fixed_dim(scheme: &DynamicScheme) -> (out: RoleDefinition)
        ensures
            out == Self::spec_primary_fixed_dim(scheme),
    {
        RoleDefinition {
            role: Role::PrimaryFixedDim,
            palette: PaletteKind::Primary,
            tone: ToneRule::SameAs(Role::PrimaryFixed),
            is_background: true,
            chroma_multiplier: Fixed::from_int(1),
            background: None,
            second_background: None,
            contrast_curve: None,
            tone_delta_pair: Some(
                ToneDeltaPair::new(
                    Role::PrimaryFixedDim,
                    Role::PrimaryFixed,
                    Fixed::from_int(5),
                    TonePolarity::Darker,
                    true,
                    DeltaConstraint::Exact,
                ),
            ),
            opacity: None,
        }
    }

    /// Text and icons on the fixed primary accent.
    pub open spec fn spec_on_primary_fixed(scheme: &DynamicScheme) -> RoleDefinition {
        RoleDefinition {
            role: Role::OnPrimaryFixed,
            palette: PaletteKind::Primary,
            tone: ToneRule::FromBackground,
            is_background: false,
            chroma_multiplier: Fixed::from_int(1),
            background: Some(Role::PrimaryFixedDim),
            second_background: None,
            contrast_curve: Some(ColorSpec2025::get_contrast_curve(70)),
            tone_delta_pair: None,
            opacity: None,
        }
    }

    #[verifier::when_used_as_spec(spec_on_primary_fixed)]
    pub fn on_primary_fixed(scheme: &DynamicScheme) -> (out: RoleDefinition)
        ensures
            out == Self::spec_on_primary_fixed(scheme),
    {
        RoleDefinition {
            role: Role::OnPrimaryFixed,
            palette: PaletteKind::Primary,
            tone: ToneRule::FromBackground,
            is_background: false,
            chroma_multiplier: Fixed::from_int(1),
            background: Some(Role::PrimaryFixedDim),
            second_background: None,
            contrast_curve: Some(ColorSpec2025::get_contrast_curve(70)),
            tone_delta_pair: None,
            opacity: None,
        }
    }

    /// Text and icons of lower emphasis on the fixed primary accent.
    pub open spec fn spec_on_primary_fixed_variant(scheme: &DynamicScheme) -> RoleDefinition {
        RoleDefinition {
            role: Role::OnPrimaryFixedVariant,
            palette: PaletteKind::Primary,
            tone: ToneRule::FromBackground,
            is_background: false,
            chroma_multiplier: Fixed::from_int(1),
            background: Some(Role::PrimaryFixedDim),
            second_background: None,
            contrast_curve: Some(ColorSpec2025::get_contrast_curve(45)),
            tone_delta_pair: None,
            opacity: None,
        }
    }

    #[verifier::when_used_as_spec(spec_on_primary_fixed_variant)]
    pub fn on_primary_fixed_variant(scheme: &DynamicScheme) -> (out: RoleDefinition)
        ensures
            out == Self::spec_on_primary_fixed_variant(scheme),
    {
        RoleDefinition {
            role: Role::OnPrimaryFixedVariant,
            palette: PaletteKind::Primary,
            tone: ToneRule::FromBackground,
            is_background: false,
            chroma_multiplier: Fixed::from_int(1),
            background: Some(Role::PrimaryFixedDim),
            second_background: None,
            contrast_curve: Some(ColorSpec2025::get_contrast_curve(45)),
            tone_delta_pair: None,
            opacity: None,
        }
    }

    /// The accent of less weight.
    pub open spec fn spec_secondary(scheme: &DynamicScheme) -> RoleDefinition {
        RoleDefinition {
            role: Role::Secondary,
            palette: PaletteKind::Secondary,
            tone: if scheme.platform == Platform::Watch {
                if scheme.variant == Variant::Neutral {
                    ToneRule::Value(Fixed::from_int(90))
                } else {
                    ToneRule::MaxChroma {
                        palette: PaletteKind::Secondary,
                        lower: Fixed::from_int(0),
                        upper: Fixed::from_int(90),
                        chroma_multiplier: Fixed::from_int(1),
                    }
                }
            } else if scheme.variant == Variant::Neutral {
                if scheme.is_dark {
                    ToneRule::MinChroma {
                        palette: PaletteKind::Secondary,
                        lower: Fixed::from_int(0),
                        upper: Fixed::from_int(98),
                    }
                } else {
                    ToneRule::MaxChroma {
                        palette: PaletteKind::Secondary,
                        lower: Fixed::from_int(0),
                        upper: Fixed::from_int(100),
                        chroma_multiplier: Fixed::from_int(1),
                    }
                }
            } else if scheme.is_dark {
                ToneRule::Value(Fixed::from_int(80))
            } else {
                ToneRule::MaxChroma {
                    palette: PaletteKind::Secondary,
                    lower: Fixed::from_int(0),
                    upper: Fixed::from_int(100),
                    chroma_multiplier: Fixed::from_int(1),
                }
            },
            is_background: true,
            chroma_multiplier: Fixed::from_int(1),
            background: Some(ColorSpec2025::highest_surface(scheme)),
            second_background: None,
            contrast_curve: Some(
                if scheme.platform == Platform::Phone {
                    ColorSpec2025::get_contrast_curve(45)
                } else {
                    ColorSpec2025::get_contrast_curve(70)
                },
            ),
            tone_delta_pair: if scheme.platform == Platform::Phone {
                Some(
                    ToneDeltaPair::new(
                        Role::SecondaryContainer,
                        Role::Secondary,
                        Fixed::from_int(5),
                        TonePolarity::RelativeLighter,
                        true,
                        DeltaConstraint::Farther,
                    ),
                )
            } else {
                None
            },
            opacity: None,
        }
    }

    #[verifier::when_used_as_spec(spec_secondary)]
    pub fn secondary(scheme: &DynamicScheme) -> (out: RoleDefinition)
        ensures
            out == Self::spec_secondary(scheme),
    {
        RoleDefinition {
            role: Role::Secondary,
            palette: PaletteKind::Secondary,
            tone: if scheme.platform == Platform::Watch {
                if scheme.variant == Variant::Neutral {
                    ToneRule::Value(Fixed::from_int(90))
                } else {
                    ToneRule::MaxChroma {
                        palette: PaletteKind::Secondary,
                        lower: Fixed::from_int(0),
                        upper: Fixed::from_int(90),
                        chroma_multiplier: Fixed::from_int(1),
                    }
                }
            } else if scheme.variant == Variant::Neutral {
                if scheme.is_dark {
                    ToneRule::MinChroma {
                        palette: PaletteKind::Secondary,
                        lower: Fixed::from_int(0),
                        upper: Fixed::from_int(98),
                    }
                } else {
                    ToneRule::MaxChroma {
                        palette: PaletteKind::Secondary,
                        lower: Fixed::from_int(0),
                        upper: Fixed::from_int(100),
                        chroma_multiplier: Fixed::from_int(1),
                    }
                }
            } else if scheme.is_dark {
                ToneRule::Value(Fixed::from_int(80))
            } else {
                ToneRule::MaxChroma {
                    palette: PaletteKind::Secondary,
                    lower: Fixed::from_int(0),
                    upper: Fixed::from_int(100),
                    chroma_multiplier: Fixed::from_int(1),
                }
            },
            is_background: true,
            chroma_multiplier: Fixed::from_int(1),
            background: Some(ColorSpec2025::highest_surface(scheme)),
            second_background: None,
            contrast_curve: Some(
                if scheme.platform == Platform::Phone {
                    ColorSpec2025::get_contrast_curve(45)
                } else {
                    ColorSpec2025::get_contrast_curve(70)
                },
            ),
            tone_delta_pair: if scheme.platform == Platform::Phone {
                Some(
                    ToneDeltaPair::new(
                        Role::SecondaryContainer,
                        Role::Secondary,
                        Fixed::from_int(5),
                        TonePolarity::RelativeLighter,
                        true,
                        DeltaConstraint::Farther,
                    ),
                )
            } else {
                None
            },
            opacity: None,
        }
    }

    /// The dimmer form of secondary.
    pub open spec fn spec_secondary_dim(scheme: &DynamicScheme) -> RoleDefinition {
        RoleDefinition {
            role: Role::SecondaryDim,
            palette: PaletteKind::Secondary,
            tone: if scheme.variant == Variant::Neutral {
                ToneRule::Value(Fixed::from_int(85))
            } else {
                ToneRule::MaxChroma {
                    palette: PaletteKind::Secondary,
                    lower: Fixed::from_int(0),
                    upper: Fixed::from_int(90),
                    chroma_multiplier: Fixed::from_int(1),
                }
            },
            is_background: true,
            chroma_multiplier: Fixed::from_int(1),
            background: Some(Role::SurfaceContainerHigh),
            second_background: None,
            contrast_curve: Some(ColorSpec2025::get_contrast_curve(45)),
            tone_delta_pair: Some(
                ToneDeltaPair::new(
                    Role::SecondaryDim,
                    Role::Secondary,
                    Fixed::from_int(5),
                    TonePolarity::Darker,
                    true,
                    DeltaConstraint::Farther,
                ),
            ),
            opacity: None,
        }
    }

    #[verifier::when_used_as_spec(spec_secondary_dim)]
    pub fn secondary_dim(scheme: &DynamicScheme) -> (out: RoleDefinition)
        ensures
            out == Self::spec_secondary_dim(scheme),
    {
        RoleDefinition {
            role: Role::SecondaryDim,
            palette: PaletteKind::Secondary,
            tone: if scheme.variant == Variant::Neutral {
                ToneRule::Value(Fixed::from_int(85))
            } else {
                ToneRule::MaxChroma {
                    palette: PaletteKind::Secondary,
                    lower: Fixed::from_int(0),
                    upper: Fixed::from_int(90),
                    chroma_multiplier: Fixed::from_int(1),
                }
            },
            is_background: true,
            chroma_multiplier: Fixed::from_int(1),
            background: Some(Role::SurfaceContainerHigh),
            second_background: None,
            contrast_curve: Some(ColorSpec2025::get_contrast_curve(45)),
            tone_delta_pair: Some(
                ToneDeltaPair::new(
                    Role::SecondaryDim,
                    Role::Secondary,
                    Fixed::from_int(5),
                    TonePolarity::Darker,
                    true,
                    DeltaConstraint::Farther,
                ),
            ),
            opacity: None,
        }
    }

    /// Text and icons on secondary.
    pub open spec fn spec_on_secondary(scheme: &DynamicScheme) -> RoleDefinition {
        RoleDefinition {
            role: Role::OnSecondary,
            palette: PaletteKind::Secondary,
            tone: ToneRule::FromBackground,
            is_background: false,
            chroma_multiplier: Fixed::from_int(1),
            background: if scheme.platform == Platform::Phone {
                Some(Role::Secondary)
            } else {
                Some(Role::SecondaryDim)
            },
            second_background: None,
            contrast_curve: Some(
                if scheme.platform == Platform::Phone {
                    ColorSpec2025::get_contrast_curve(60)
                } else {
                    ColorSpec2025::get_contrast_curve(70)
                },
            ),
            tone_delta_pair: None,
            opacity: None,
        }
    }

    #[verifier::when_used_as_spec(spec_on_secondary)]
    pub fn on_secondary(scheme: &DynamicScheme) -> (out: RoleDefinition)
        ensures
            out == Self::spec_on_secondary(scheme),
    {
        RoleDefinition {
            role: Role::OnSecondary,
            palette: PaletteKind::Secondary,
            tone: ToneRule::FromBackground,
            is_background: false,
            chroma_multiplier: Fixed::from_int(1),
            background: if scheme.platform == Platform::Phone {
                Some(Role::Secondary)
            } else {
                Some(Role::SecondaryDim)
            },
            second_background: None,
            contrast_curve: Some(
                if scheme.platform == Platform::Phone {
                    ColorSpec2025::get_contrast_curve(60)
                } else {
                    ColorSpec2025::get_contrast_curve(70)
                },
            ),
            tone_delta_pair: None,
            opacity: None,
        }
    }

    /// A container in the secondary accent.
    pub open spec fn spec_secondary_container(scheme: &DynamicScheme) -> RoleDefinition {
        RoleDefinition {
            role: Role::SecondaryContainer,
            palette: PaletteKind::Secondary,
            tone: if scheme.platform == Platform::Watch {
                ToneRule::Value(Fixed::from_int(30))
            } else if scheme.variant == Variant::Vibrant {
                if scheme.is_dark {
                    ToneRule::MinChroma {
                        palette: PaletteKind::Secondary,
                        lower: Fixed::from_int(30),
                        upper: Fixed::from_int(40),
                    }
                } else {
                    ToneRule::MaxChroma {
                        palette: PaletteKind::Secondary,
                        lower: Fixed::from_int(84),
                        upper: Fixed::from_int(90),
                        chroma_multiplier: Fixed::from_int(1),
                    }
                }
            } else if scheme.variant == Variant::Expressive {
                if scheme.is_dark {
                    ToneRule::Value(Fixed::from_int(15))
                } else {
                    ToneRule::MaxChroma {
                        palette: PaletteKind::Secondary,
                        lower: Fixed::from_int(90),
                        upper: Fixed::from_int(95),
                        chroma_multiplier: Fixed::from_int(1),
                    }
                }
            } else {
                ToneRule::Value(
                    if scheme.is_dark { Fixed::from_int(25) } else { Fixed::from_int(90) },
                )
            },
            is_background: true,
            chroma_multiplier: Fixed::from_int(1),
            background: if scheme.platform == Platform::Phone {
                Some(ColorSpec2025::highest_surface(scheme))
            } else {
                None
            },
            second_background: None,
            contrast_curve:
                if scheme.platform == Platform::Phone && scheme.contrast_level.gt(Fixed::from_int(0)) {
                    Some(ColorSpec2025::get_contrast_curve(15))
                } else {
                    None
                },
            tone_delta_pair: if scheme.platform == Platform::Watch {
                Some(
                    ToneDeltaPair::new(
                        Role::SecondaryContainer,
                        Role::SecondaryDim,
                        Fixed::from_int(10),
                        TonePolarity::Darker,
                        true,
                        DeltaConstraint::Farther,
                    ),
                )
            } else {
                None
            },
            opacity: None,
        }
    }

    #[verifier::when_used_as_spec(spec_secondary_container)]
    pub fn secondary_container(scheme: &DynamicScheme) -> (out: RoleDefinition)
        ensures
            out == Self::spec_secondary_container(scheme),
    {
        RoleDefinition {
            role: Role::SecondaryContainer,
            palette: PaletteKind::Secondary,
            tone: if scheme.platform == Platform::Watch {
                ToneRule::Value(Fixed::from_int(30))
            } else if scheme.variant == Variant::Vibrant {
                if scheme.is_dark {
                    ToneRule::MinChroma {
                        palette: PaletteKind::Secondary,
                        lower: Fixed::from_int(30),
                        upper: Fixed::from_int(40),
                    }
                } else {
                    ToneRule::MaxChroma {
                        palette: PaletteKind::Secondary,
                        lower: Fixed::from_int(84),
                        upper: Fixed::from_int(90),
                        chroma_multiplier: Fixed::from_int(1),
                    }
                }
            } else if scheme.variant == Variant::Expressive {
                if scheme.is_dark {
                    ToneRule::Value(Fixed::from_int(15))
                } else {
                    ToneRule::MaxChroma {
                        palette: PaletteKind::Secondary,
                        lower: Fixed::from_int(90),
                        upper: Fixed::from_int(95),
                        chroma_multiplier: Fixed::from_int(1),
                    }
                }
            } else {
                ToneRule::Value(
                    if scheme.is_dark { Fixed::from_int(25) } else { Fixed::from_int(90) },
                )
            },
            is_background: true,
            chroma_multiplier: Fixed::from_int(1),
            background: if scheme.platform == Platform::Phone {
                Some(ColorSpec2025::highest_surface(scheme))
            } else {
                None
            },
            second_background: None,
            contrast_curve:
                if scheme.platform == Platform::Phone && scheme.contrast_level.gt(Fixed::from_int(0)) {
                    Some(ColorSpec2025::get_contrast_curve(15))
                } else {
                    None
                },
            tone_delta_pair: if scheme.platform == Platform::Watch {
                Some(
                    ToneDeltaPair::new(
                        Role::SecondaryContainer,
                        Role::SecondaryDim,
                        Fixed::from_int(10),
                        TonePolarity::Darker,
                        true,
                        DeltaConstraint::Farther,
                    ),
                )
            } else {
                None
            },
            opacity: None,
        }
    }

    /// Text and icons on the secondary container.
    pub open spec fn spec_on_secondary_container(scheme: &DynamicScheme) -> RoleDefinition {
        RoleDefinition {
            role: Role::OnSecondaryContainer,
            palette: PaletteKind::Secondary,
            tone: ToneRule::FromBackground,
            is_background: false,
            chroma_multiplier: Fixed::from_int(1),
            background: Some(Role::SecondaryContainer),
            second_background: None,
            contrast_curve: Some(
                if scheme.platform == Platform::Phone {
                    ColorSpec2025::get_contrast_curve(60)
                } else {
                    ColorSpec2025::get_contrast_curve(70)
                },
            ),
            tone_delta_pair: None,
            opacity: None,
        }
    }

    #[verifier::when_used_as_spec(spec_on_secondary_container)]
    pub fn on_secondary_container(scheme: &DynamicScheme) -> (out: RoleDefinition)
        ensures
            out == Self::spec_on_secondary_container(scheme),
    {
        RoleDefinition {
            role: Role::OnSecondaryContainer,
            palette: PaletteKind::Secondary,
            tone: ToneRule::FromBackground,
            is_background: false,
            chroma_multiplier: Fixed::from_int(1),
            background: Some(Role::SecondaryContainer),
            second_background: None,
            contrast_curve: Some(
                if scheme.platform == Platform::Phone {
                    ColorSpec2025::get_contrast_curve(60)
                } else {
                    ColorSpec2025::get_contrast_curve(70)
                },
            ),
            tone_delta_pair: None,
            opacity: None,
        }
    }

    /// The secondary accent that is the same in light and dark schemes: the
    /// tone of the secondary container in the light scheme of standard
    /// contrast.
    pub open spec fn spec_secondary_fixed(scheme: &DynamicScheme) -> RoleDefinition {
        RoleDefinition {
            role: Role::SecondaryFixed,
            palette: PaletteKind::Secondary,
            tone: ToneRule::LightStandard(Role::SecondaryContainer),
            is_background: true,
            chroma_multiplier: Fixed::from_int(1),
            background: if scheme.platform == Platform::Phone {
                Some(ColorSpec2025::highest_surface(scheme))
            } else {
                None
            },
            second_background: None,
            contrast_curve:
                if scheme.platform == Platform::Phone && scheme.contrast_level.gt(Fixed::from_int(0)) {
                    Some(ColorSpec2025::get_contrast_curve(15))
                } else {
                    None
                },
            tone_delta_pair: None,
            opacity: None,
        }
    }

    #[verifier::when_used_as_spec(spec_secondary_fixed)]
    pub fn secondary_fixed(scheme: &DynamicScheme) -> (out: RoleDefinition)
        ensures
            out == Self::spec_secondary_fixed(scheme),
    {
        RoleDefinition {
            role: Role::SecondaryFixed,
            palette: PaletteKind::Secondary,
            tone: ToneRule::LightStandard(Role::SecondaryContainer),
            is_background: true,
            chroma_multiplier: Fixed::from_int(1),
            background: if scheme.platform == Platform::Phone {
                Some(ColorSpec2025::highest_surface(scheme))
            } else {
                None
            },
            second_background: None,
            contrast_curve:
                if scheme.platform == Platform::Phone && scheme.contrast_level.gt(Fixed::from_int(0)) {
                    Some(ColorSpec2025::get_contrast_curve(15))
                } else {
                    None
                },
            tone_delta_pair: None,
            opacity: None,
        }
    }

    /// The dimmer form of the fixed secondary accent.
    pub open spec fn spec_secondary_fixed_dim(scheme: &DynamicScheme) -> RoleDefinition {
        RoleDefinition {
            role: Role::SecondaryFixedDim,
            palette: PaletteKind::Secondary,
            tone: ToneRule::SameAs(Role::SecondaryFixed),
            is_background: true,
            chroma_multiplier: Fixed::from_int(1),
            background: None,
            second_background: None,
            contrast_curve: None,
            tone_delta_pair: Some(
                ToneDeltaPair::new(
                    Role::SecondaryFixedDim,
                    Role::SecondaryFixed,
                    Fixed::from_int(5),
                    TonePolarity::Darker,
                    true,
                    DeltaConstraint::Exact,
                ),
            ),
            opacity: None,
        }
    }

    #[verifier::when_used_as_spec(spec_secondary_fixed_dim)]
    pub fn secondary_fixed_dim(scheme: &DynamicScheme) -> (out: RoleDefinition)
        ensures
            out == Self::spec_secondary_fixed_dim(scheme),
    {
        RoleDefinition {
            role: Role::SecondaryFixedDim,
            palette: PaletteKind::Secondary,
            tone: ToneRule::SameAs(Role::SecondaryFixed),
            is_background: true,
            chroma_multiplier: Fixed::from_int(1),
            background: None,
            second_background: None,
            contrast_curve: None,
            tone_delta_pair: Some(
                ToneDeltaPair::new(
                    Role::SecondaryFixedDim,
                    Role::SecondaryFixed,
                    Fixed::from_int(5),
                    TonePolarity::Darker,
                    true,
                    DeltaConstraint::Exact,
                ),
            ),
            opacity: None,
        }
    }

    /// Text and icons on the fixed secondary accent.
    pub open spec fn spec_on_secondary_fixed(scheme: &DynamicScheme) -> RoleDefinition {
        RoleDefinition {
            role: Role::OnSecondaryFixed,
            palette: PaletteKind::Secondary,
            tone: ToneRule::FromBackground,
            is_background: false,
            chroma_multiplier: Fixed::from_int(1),
            background: Some(Role::SecondaryFixedDim),
            second_background: None,
            contrast_curve: Some(ColorSpec2025::get_contrast_curve(70)),
            tone_delta_pair: None,
            opacity: None,
        }
    }

    #[verifier::when_used_as_spec(spec_on_secondary_fixed)]
    pub fn on_secondary_fixed(scheme: &DynamicScheme) -> (out: RoleDefinition)
        ensures
            out == Self::spec_on_secondary_fixed(scheme),
    {
        RoleDefinition {
            role: Role::OnSecondaryFixed,
            palette: PaletteKind::Secondary,
            tone: ToneRule::FromBackground,
            is_background: false,
            chroma_multiplier: Fixed::from_int(1),
            background: Some(Role::SecondaryFixedDim),
            second_background: None,
            contrast_curve: Some(ColorSpec2025::get_contrast_curve(70)),
            tone_delta_pair: None,
            opacity: None,
        }
    }

    /// Text and icons of lower emphasis on the fixed secondary accent.
    pub open spec fn spec_on_secondary_fixed_variant(scheme: &DynamicScheme) -> RoleDefinition {
        RoleDefinition {
            role: Role::OnSecondaryFixedVariant,
            palette: PaletteKind::Secondary,
            tone: ToneRule::FromBackground,
            is_background: false,
            chroma_multiplier: Fixed::from_int(1),
            background: Some(Role::SecondaryFixedDim),
            second_background: None,
            contrast_curve: Some(ColorSpec2025::get_contrast_curve(45)),
            tone_delta_pair: None,
            opacity: None,
        }
    }

    #[verifier::when_used_as_spec(spec_on_secondary_fixed_variant)]
    pub fn on_secondary_fixed_variant(scheme: &DynamicScheme) -> (out: RoleDefinition)
        ensures
            out == Self::spec_on_secondary_fixed_variant(scheme),
    {
        RoleDefinition {
            role: Role::OnSecondaryFixedVariant,
            palette: PaletteKind::Secondary,
            tone: ToneRule::FromBackground,
            is_background: false,
            chroma_multiplier: Fixed::from_int(1),
            background: Some(Role::SecondaryFixedDim),
            second_background: None,
            contrast_curve: Some(ColorSpec2025::get_contrast_curve(45)),
            tone_delta_pair: None,
            opacity: None,
        }
    }

    /// The accent that balances the other two.
    pub open spec fn spec_tertiary(scheme: &DynamicScheme) -> RoleDefinition {
        RoleDefinition {
            role: Role::Tertiary,
            palette: PaletteKind::Tertiary,
            tone: if scheme.platform == Platform::Watch {
                if scheme.variant == Variant::TonalSpot {
                    ToneRule::MaxChroma {
                        palette: PaletteKind::Tertiary,
                        lower: Fixed::from_int(0),
                        upper: Fixed::from_int(90),
                        chroma_multiplier: Fixed::from_int(1),
                    }
                } else {
                    ToneRule::MaxChroma {
                        palette: PaletteKind::Tertiary,
                        lower: Fixed::from_int(0),
                        upper: Fixed::from_int(100),
                        chroma_multiplier: Fixed::from_int(1),
                    }
                }
            } else if scheme.variant == Variant::Expressive || scheme.variant == Variant::Vibrant {
                ToneRule::MaxChroma {
                    palette: PaletteKind::Tertiary,
                    lower: Fixed::from_int(0),
                    upper: if Hct::is_cyan(scheme.tertiary_palette.hue) {
                        Fixed::from_int(88)
                    } else if scheme.is_dark {
                        Fixed::from_int(98)
                    } else {
                        Fixed::from_int(100)
                    },
                    chroma_multiplier: Fixed::from_int(1),
                }
            } else if scheme.is_dark {
                ToneRule::MaxChroma {
                    palette: PaletteKind::Tertiary,
                    lower: Fixed::from_int(0),
                    upper: Fixed::from_int(98),
                    chroma_multiplier: Fixed::from_int(1),
                }
            } else {
                ToneRule::MaxChroma {
                    palette: PaletteKind::Tertiary,
                    lower: Fixed::from_int(0),
                    upper: Fixed::from_int(100),
                    chroma_multiplier: Fixed::from_int(1),
                }
            },
            is_background: true,
            chroma_multiplier: Fixed::from_int(1),
            background: Some(ColorSpec2025::highest_surface(scheme)),
            second_background: None,
            contrast_curve: Some(
                if scheme.platform == Platform::Phone {
                    ColorSpec2025::get_contrast_curve(45)
                } else {
                    ColorSpec2025::get_contrast_curve(70)
                },
            ),
            tone_delta_pair: if scheme.platform == Platform::Phone {
                Some(
                    ToneDeltaPair::new(
                        Role::TertiaryContainer,
                        Role::Tertiary,
                        Fixed::from_int(5),
                        TonePolarity::RelativeLighter,
                        true,
                        DeltaConstraint::Farther,
                    ),
                )
            } else {
                None
            },
            opacity: None,
        }
    }

    #[verifier::when_used_as_spec(spec_tertiary)]
    pub fn tertiary(scheme: &DynamicScheme) -> (out: RoleDefinition)
        ensures
            out == Self::spec_tertiary(scheme),
    {
        RoleDefinition {
            role: Role::Tertiary,
            palette: PaletteKind::Tertiary,
            tone: if scheme.platform == Platform::Watch {
                if scheme.variant == Variant::TonalSpot {
                    ToneRule::MaxChroma {
                        palette: PaletteKind::Tertiary,
                        lower: Fixed::from_int(0),
                        upper: Fixed::from_int(90),
                        chroma_multiplier: Fixed::from_int(1),
                    }
                } else {
                    ToneRule::MaxChroma {
                        palette: PaletteKind::Tertiary,
                        lower: Fixed::from_int(0),
                        upper: Fixed::from_int(100),
                        chroma_multiplier: Fixed::from_int(1),
                    }
                }
            } else if scheme.variant == Variant::Expressive || scheme.variant == Variant::Vibrant {
                ToneRule::MaxChroma {
                    palette: PaletteKind::Tertiary,
                    lower: Fixed::from_int(0),
                    upper: if Hct::is_cyan(scheme.tertiary_palette.hue) {
                        Fixed::from_int(88)
                    } else if scheme.is_dark {
                        Fixed::from_int(98)
                    } else {
                        Fixed::from_int(100)
                    },
                    chroma_multiplier: Fixed::from_int(1),
                }
            } else if scheme.is_dark {
                ToneRule::MaxChroma {
                    palette: PaletteKind::Tertiary,
                    lower: Fixed::from_int(0),
                    upper: Fixed::from_int(98),
                    chroma_multiplier: Fixed::from_int(1),
                }
            } else {
                ToneRule::MaxChroma {
                    palette: PaletteKind::Tertiary,
                    lower: Fixed::from_int(0),
                    upper: Fixed::from_int(100),
                    chroma_multiplier: Fixed::from_int(1),
                }
            },
            is_background: true,
            chroma_multiplier: Fixed::from_int(1),
            background: Some(ColorSpec2025::highest_surface(scheme)),
            second_background: None,
            contrast_curve: Some(
                if scheme.platform == Platform::Phone {
                    ColorSpec2025::get_contrast_curve(45)
                } else {
                    ColorSpec2025::get_contrast_curve(70)
                },
            ),
            tone_delta_pair: if scheme.platform == Platform::Phone {
                Some(
                    ToneDeltaPair::new(
                        Role::TertiaryContainer,
                        Role::Tertiary,
                        Fixed::from_int(5),
                        TonePolarity::RelativeLighter,
                        true,
                        DeltaConstraint::Farther,
                    ),
                )
            } else {
                None
            },
            opacity: None,
        }
    }

    /// The dimmer form of tertiary.
    pub open spec fn spec_tertiary_dim(scheme: &DynamicScheme) -> RoleDefinition {
        RoleDefinition {
            role: Role::TertiaryDim,
            palette: PaletteKind::Tertiary,
            tone: if scheme.variant == Variant::TonalSpot {
                ToneRule::MaxChroma {
                    palette: PaletteKind::Tertiary,
                    lower: Fixed::from_int(0),
                    upper: Fixed::from_int(90),
                    chroma_multiplier: Fixed::from_int(1),
                }
            } else {
                ToneRule::MaxChroma {
                    palette: PaletteKind::Tertiary,
                    lower: Fixed::from_int(0),
                    upper: Fixed::from_int(100),
                    chroma_multiplier: Fixed::from_int(1),
                }
            },
            is_background: true,
            chroma_multiplier: Fixed::from_int(1),
            background: Some(Role::SurfaceContainerHigh),
            second_background: None,
            contrast_curve: Some(ColorSpec2025::get_contrast_curve(45)),
            tone_delta_pair: Some(
                ToneDeltaPair::new(
                    Role::TertiaryDim,
                    Role::Tertiary,
                    Fixed::from_int(5),
                    TonePolarity::Darker,
                    true,
                    DeltaConstraint::Farther,
                ),
            ),
            opacity: None,
        }
    }

    #[verifier::when_used_as_spec(spec_tertiary_dim)]
    pub fn tertiary_dim(scheme: &DynamicScheme) -> (out: RoleDefinition)
        ensures
            out == Self::spec_tertiary_dim(scheme),
    {
        RoleDefinition {
            role: Role::TertiaryDim,
            palette: PaletteKind::Tertiary,
            tone: if scheme.variant == Variant::TonalSpot {
                ToneRule::MaxChroma {
                    palette: PaletteKind::Tertiary,
                    lower: Fixed::from_int(0),
                    upper: Fixed::from_int(90),
                    chroma_multiplier: Fixed::from_int(1),
                }
            } else {
                ToneRule::MaxChroma {
                    palette: PaletteKind::Tertiary,
                    lower: Fixed::from_int(0),
                    upper: Fixed::from_int(100),
                    chroma_multiplier: Fixed::from_int(1),
                }
            },
            is_background: true,
            chroma_multiplier: Fixed::from_int(1),
            background: Some(Role::SurfaceContainerHigh),
            second_background: None,
            contrast_curve: Some(ColorSpec2025::get_contrast_curve(45)),
            tone_delta_pair: Some(
                ToneDeltaPair::new(
                    Role::TertiaryDim,
                    Role::Tertiary,
                    Fixed::from_int(5),
                    TonePolarity::Darker,
                    true,
                    DeltaConstraint::Farther,
                ),
            ),
            opacity: None,
        }
    }

    /// Text and icons on tertiary.
    pub open spec fn spec_on_tertiary(scheme: &DynamicScheme) -> RoleDefinition {
        RoleDefinition {
            role: Role::OnTertiary,
            palette: PaletteKind::Tertiary,
            tone: ToneRule::FromBackground,
            is_background: false,
            chroma_multiplier: Fixed::from_int(1),
            background: if scheme.platform == Platform::Phone {
                Some(Role::Tertiary)
            } else {
                Some(Role::TertiaryDim)
            },
            second_background: None,
            contrast_curve: Some(
                if scheme.platform == Platform::Phone {
                    ColorSpec2025::get_contrast_curve(60)
                } else {
                    ColorSpec2025::get_contrast_curve(70)
                },
            ),
            tone_delta_pair: None,
            opacity: None,
        }
    }

    #[verifier::when_used_as_spec(spec_on_tertiary)]
    pub fn on_tertiary(scheme: &DynamicScheme) -> (out: RoleDefinition)
        ensures
            out == Self::spec_on_tertiary(scheme),
    {
        RoleDefinition {
            role: Role::OnTertiary,
            palette: PaletteKind::Tertiary,
            tone: ToneRule::FromBackground,
            is_background: false,
            chroma_multiplier: Fixed::from_int(1),
            background: if scheme.platform == Platform::Phone {
                Some(Role::Tertiary)
            } else {
                Some(Role::TertiaryDim)
            },
            second_background: None,
            contrast_curve: Some(
                if scheme.platform == Platform::Phone {
                    ColorSpec2025::get_contrast_curve(60)
                } else {
                    ColorSpec2025::get_contrast_curve(70)
                },
            ),
            tone_delta_pair: None,
            opacity: None,
        }
    }

    /// A container in the tertiary accent.
    pub open spec fn spec_tertiary_container(scheme: &DynamicScheme) -> RoleDefinition {
        RoleDefinition {
            role: Role::TertiaryContainer,
            palette: PaletteKind::Tertiary,
            tone: if scheme.platform == Platform::Watch {
                if scheme.variant == Variant::TonalSpot {
                    ToneRule::MaxChroma {
                        palette: PaletteKind::Tertiary,
                        lower: Fixed::from_int(0),
                        upper: Fixed::from_int(90),
                        chroma_multiplier: Fixed::from_int(1),
                    }
                } else {
                    ToneRule::MaxChroma {
                        palette: PaletteKind::Tertiary,
                        lower: Fixed::from_int(0),
                        upper: Fixed::from_int(100),
                        chroma_multiplier: Fixed::from_int(1),
                    }
                }
            } else if scheme.variant == Variant::Neutral {
                if scheme.is_dark {
                    ToneRule::MaxChroma {
                        palette: PaletteKind::Tertiary,
                        lower: Fixed::from_int(0),
                        upper: Fixed::from_int(93),
                        chroma_multiplier: Fixed::from_int(1),
                    }
                } else {
                    ToneRule::MaxChroma {
                        palette: PaletteKind::Tertiary,
                        lower: Fixed::from_int(0),
                        upper: Fixed::from_int(96),
                        chroma_multiplier: Fixed::from_int(1),
                    }
                }
            } else if scheme.variant == Variant::TonalSpot {
                ToneRule::MaxChroma {
                    palette: PaletteKind::Tertiary,
                    lower: Fixed::from_int(0),
                    upper: if scheme.is_dark { Fixed::from_int(93) } else { Fixed::from_int(100) },
                    chroma_multiplier: Fixed::from_int(1),
                }
            } else if scheme.variant == Variant::Expressive {
                ToneRule::MaxChroma {
                    palette: PaletteKind::Tertiary,
                    lower: Fixed::from_int(75),
                    upper: if Hct::is_cyan(scheme.tertiary_palette.hue) {
                        Fixed::from_int(88)
                    } else if scheme.is_dark {
                        Fixed::from_int(93)
                    } else {
                        Fixed::from_int(100)
                    },
                    chroma_multiplier: Fixed::from_int(1),
                }
            } else if scheme.is_dark {
                ToneRule::MaxChroma {
                    palette: PaletteKind::Tertiary,
                    lower: Fixed::from_int(0),
                    upper: Fixed::from_int(93),
                    chroma_multiplier: Fixed::from_int(1),
                }
            } else {
                ToneRule::MaxChroma {
                    palette: PaletteKind::Tertiary,
                    lower: Fixed::from_int(72),
                    upper: Fixed::from_int(100),
                    chroma_multiplier: Fixed::from_int(1),
                }
            },
            is_background: true,
            chroma_multiplier: Fixed::from_int(1),
            background: if scheme.platform == Platform::Phone {
                Some(ColorSpec2025::highest_surface(scheme))
            } else {
                None
            },
            second_background: None,
            contrast_curve:
                if scheme.platform == Platform::Phone && scheme.contrast_level.gt(Fixed::from_int(0)) {
                    Some(ColorSpec2025::get_contrast_curve(15))
                } else {
                    None
                },
            tone_delta_pair: if scheme.platform == Platform::Watch {
                Some(
                    ToneDeltaPair::new(
                        Role::TertiaryContainer,
                        Role::TertiaryDim,
                        Fixed::from_int(10),
                        TonePolarity::Darker,
                        true,
                        DeltaConstraint::Farther,
                    ),
                )
            } else {
                None
            },
            opacity: None,
        }
    }

    #[verifier::when_used_as_spec(spec_tertiary_container)]
    pub fn tertiary_container(scheme: &DynamicScheme) -> (out: RoleDefinition)
        ensures
            out == Self::spec_tertiary_container(scheme),
    {
        RoleDefinition {
            role: Role::TertiaryContainer,
            palette: PaletteKind::Tertiary,
            tone: if scheme.platform == Platform::Watch {
                if scheme.variant == Variant::TonalSpot {
                    ToneRule::MaxChroma {
                        palette: PaletteKind::Tertiary,
                        lower: Fixed::from_int(0),
                        upper: Fixed::from_int(90),
                        chroma_multiplier: Fixed::from_int(1),
                    }
                } else {
                    ToneRule::MaxChroma {
                        palette: PaletteKind::Tertiary,
                        lower: Fixed::from_int(0),
                        upper: Fixed::from_int(100),
                        chroma_multiplier: Fixed::from_int(1),
                    }
                }
            } else if scheme.variant == Variant::Neutral {
                if scheme.is_dark {
                    ToneRule::MaxChroma {
                        palette: PaletteKind::Tertiary,
                        lower: Fixed::from_int(0),
                        upper: Fixed::from_int(93),
                        chroma_multiplier: Fixed::from_int(1),
                    }
                } else {
                    ToneRule::MaxChroma {
                        palette: PaletteKind::Tertiary,
                        lower: Fixed::from_int(0),
                        upper: Fixed::from_int(96),
                        chroma_multiplier: Fixed::from_int(1),
                    }
                }
            } else if scheme.variant == Variant::TonalSpot {
                ToneRule::MaxChroma {
                    palette: PaletteKind::Tertiary,
                    lower: Fixed::from_int(0),
                    upper: if scheme.is_dark { Fixed::from_int(93) } else { Fixed::from_int(100) },
                    chroma_multiplier: Fixed::from_int(1),
                }
            } else if scheme.variant == Variant::Expressive {
                ToneRule::MaxChroma {
                    palette: PaletteKind::Tertiary,
                    lower: Fixed::from_int(75),
                    upper: if Hct::is_cyan(scheme.tertiary_palette.hue) {
                        Fixed::from_int(88)
                    } else if scheme.is_dark {
                        Fixed::from_int(93)
                    } else {
                        Fixed::from_int(100)
                    },
                    chroma_multiplier: Fixed::from_int(1),
                }
            } else if scheme.is_dark {
                ToneRule::MaxChroma {
                    palette: PaletteKind::Tertiary,
                    lower: Fixed::from_int(0),
                    upper: Fixed::from_int(93),
                    chroma_multiplier: Fixed::from_int(1),
                }
            } else {
                ToneRule::MaxChroma {
                    palette: PaletteKind::Tertiary,
                    lower: Fixed::from_int(72),
                    upper: Fixed::from_int(100),
                    chroma_multiplier: Fixed::from_int(1),
                }
            },
            is_background: true,
            chroma_multiplier: Fixed::from_int(1),
            background: if scheme.platform == Platform::Phone {
                Some(ColorSpec2025::highest_surface(scheme))
            } else {
                None
            },
            second_background: None,
            contrast_curve:
                if scheme.platform == Platform::Phone && scheme.contrast_level.gt(Fixed::from_int(0)) {
                    Some(ColorSpec2025::get_contrast_curve(15))
                } else {
                    None
                },
            tone_delta_pair: if scheme.platform == Platform::Watch {
                Some(
                    ToneDeltaPair::new(
                        Role::TertiaryContainer,
                        Role::TertiaryDim,
                        Fixed::from_int(10),
                        TonePolarity::Darker,
                        true,
                        DeltaConstraint::Farther,
                    ),
                )
            } else {
                None
            },
            opacity: None,
        }
    }

    /// Text and icons on the tertiary container.
    pub open spec fn spec_on_tertiary_container(scheme: &DynamicScheme) -> RoleDefinition {
        RoleDefinition {
            role: Role::OnTertiaryContainer,
            palette: PaletteKind::Tertiary,
            tone: ToneRule::FromBackground,
            is_background: false,
            chroma_multiplier: Fixed::from_int(1),
            background: Some(Role::TertiaryContainer),
            second_background: None,
            contrast_curve: Some(
                if scheme.platform == Platform::Phone {
                    ColorSpec2025::get_contrast_curve(60)
                } else {
                    ColorSpec2025::get_contrast_curve(70)
                },
            ),
            tone_delta_pair: None,
            opacity: None,
        }
    }

    #[verifier::when_used_as_spec(spec_on_tertiary_container)]
    pub fn on_tertiary_container(scheme: &DynamicScheme) -> (out: RoleDefinition)
        ensures
            out == Self::spec_on_tertiary_container(scheme),
    {
        RoleDefinition {
            role: Role::OnTertiaryContainer,
            palette: PaletteKind::Tertiary,
            tone: ToneRule::FromBackground,
            is_background: false,
            chroma_multiplier: Fixed::from_int(1),
            background: Some(Role::TertiaryContainer),
            second_background: None,
            contrast_curve: Some(
                if scheme.platform == Platform::Phone {
                    ColorSpec2025::get_contrast_curve(60)
                } else {
                    ColorSpec2025::get_contrast_curve(70)
                },
            ),
            tone_delta_pair: None,
            opacity: None,
        }
    }

    /// The tertiary accent that is the same in light and dark schemes: the tone
    /// of the tertiary container in the light scheme of standard contrast.
    pub open spec fn spec_tertiary_fixed(scheme: &DynamicScheme) -> RoleDefinition {
        RoleDefinition {
            role: Role::TertiaryFixed,
            palette: PaletteKind::Tertiary,
            tone: ToneRule::LightStandard(Role::TertiaryContainer),
            is_background: true,
            chroma_multiplier: Fixed::from_int(1),
            background: if scheme.platform == Platform::Phone {
                Some(ColorSpec2025::highest_surface(scheme))
            } else {
                None
            },
            second_background: None,
            contrast_curve:
                if scheme.platform == Platform::Phone && scheme.contrast_level.gt(Fixed::from_int(0)) {
                    Some(ColorSpec2025::get_contrast_curve(15))
                } else {
                    None
                },
            tone_delta_pair: None,
            opacity: None,
        }
    }

    #[verifier::when_used_as_spec(spec_tertiary_fixed)]
    pub fn tertiary_fixed(scheme: &DynamicScheme) -> (out: RoleDefinition)
        ensures
            out == Self::spec_tertiary_fixed(scheme),
    {
        RoleDefinition {
            role: Role::TertiaryFixed,
            palette: PaletteKind::Tertiary,
            tone: ToneRule::LightStandard(Role::TertiaryContainer),
            is_background: true,
            chroma_multiplier: Fixed::from_int(1),
            background: if scheme.platform == Platform::Phone {
                Some(ColorSpec2025::highest_surface(scheme))
            } else {
                None
            },
            second_background: None,
            contrast_curve:
                if scheme.platform == Platform::Phone && scheme.contrast_level.gt(Fixed::from_int(0)) {
                    Some(ColorSpec2025::get_contrast_curve(15))
                } else {
                    None
                },
            tone_delta_pair: None,
            opacity: None,
        }
    }

    /// The dimmer form of the fixed tertiary accent.
    pub open spec fn spec_tertiary_fixed_dim(scheme: &DynamicScheme) -> RoleDefinition {
        RoleDefinition {
            role: Role::TertiaryFixedDim,
            palette: PaletteKind::Tertiary,
            tone: ToneRule::SameAs(Role::TertiaryFixed),
            is_background: true,
            chroma_multiplier: Fixed::from_int(1),
            background: None,
            second_background: None,
            contrast_curve: None,
            tone_delta_pair: Some(
                ToneDeltaPair::new(
                    Role::TertiaryFixedDim,
                    Role::TertiaryFixed,
                    Fixed::from_int(5),
                    TonePolarity::Darker,
                    true,
                    DeltaConstraint::Exact,
                ),
            ),
            opacity: None,
        }
    }

    #[verifier::when_used_as_spec(spec_tertiary_fixed_dim)]
    pub fn tertiary_fixed_dim(scheme: &DynamicScheme) -> (out: RoleDefinition)
        ensures
            out == Self::spec_tertiary_fixed_dim(scheme),
    {
        RoleDefinition {
            role: Role::TertiaryFixedDim,
            palette: PaletteKind::Tertiary,
            tone: ToneRule::SameAs(Role::TertiaryFixed),
            is_background: true,
            chroma_multiplier: Fixed::from_int(1),
            background: None,
            second_background: None,
            contrast_curve: None,
            tone_delta_pair: Some(
                ToneDeltaPair::new(
                    Role::TertiaryFixedDim,
                    Role::TertiaryFixed,
                    Fixed::from_int(5),
                    TonePolarity::Darker,
                    true,
                    DeltaConstraint::Exact,
                ),
            ),
            opacity: None,
        }
    }

    /// Text and icons on the fixed tertiary accent.
    pub open spec fn spec_on_tertiary_fixed(scheme: &DynamicScheme) -> RoleDefinition {
        RoleDefinition {
            role: Role::OnTertiaryFixed,
            palette: PaletteKind::Tertiary,
            tone: ToneRule::FromBackground,
            is_background: false,
            chroma_multiplier: Fixed::from_int(1),
            background: Some(Role::TertiaryFixedDim),
            second_background: None,
            contrast_curve: Some(ColorSpec2025::get_contrast_curve(70)),
            tone_delta_pair: None,
            opacity: None,
        }
    }

    #[verifier::when_used_as_spec(spec_on_tertiary_fixed)]
    pub fn on_tertiary_fixed(scheme: &DynamicScheme) -> (out: RoleDefinition)
        ensures
            out == Self::spec_on_tertiary_fixed(scheme),
    {
        RoleDefinition {
            role: Role::OnTertiaryFixed,
            palette: PaletteKind::Tertiary,
            tone: ToneRule::FromBackground,
            is_background: false,
            chroma_multiplier: Fixed::from_int(1),
            background: Some(Role::TertiaryFixedDim),
            second_background: None,
            contrast_curve: Some(ColorSpec2025::get_contrast_curve(70)),
            tone_delta_pair: None,
            opacity: None,
        }
    }

    /// Text and icons of lower emphasis on the fixed tertiary accent.
    pub open spec fn spec_on_tertiary_fixed_variant(scheme: &DynamicScheme) -> RoleDefinition {
        RoleDefinition {
            role: Role::OnTertiaryFixedVariant,
            palette: PaletteKind::Tertiary,
            tone: ToneRule::FromBackground,
            is_background: false,
            chroma_multiplier: Fixed::from_int(1),
            background: Some(Role::TertiaryFixedDim),
            second_background: None,
            contrast_curve: Some(ColorSpec2025::get_contrast_curve(45)),
            tone_delta_pair: None,
            opacity: None,
        }
    }

    #[verifier::when_used_as_spec(spec_on_tertiary_fixed_variant)]
    pub fn on_tertiary_fixed_variant(scheme: &DynamicScheme) -> (out: RoleDefinition)
        ensures
            out == Self::spec_on_tertiary_fixed_variant(scheme),
    {
        RoleDefinition {
            role: Role::OnTertiaryFixedVariant,
            palette: PaletteKind::Tertiary,
            tone: ToneRule::FromBackground,
            is_background: false,
            chroma_multiplier: Fixed::from_int(1),
            background: Some(Role::TertiaryFixedDim),
            second_background: None,
            contrast_curve: Some(ColorSpec2025::get_contrast_curve(45)),
            tone_delta_pair: None,
            opacity: None,
        }
    }

    /// The colour of errors.
    pub open spec fn spec_error(scheme: &DynamicScheme) -> RoleDefinition {
        RoleDefinition {
            role: Role::Error,
            palette: PaletteKind::Error,
            tone: if scheme.platform == Platform::Phone {
                if scheme.is_dark {
                    ToneRule::MinChroma {
                        palette: PaletteKind::Error,
                        lower: Fixed::from_int(0),
                        upper: Fixed::from_int(98),
                    }
                } else {
                    ToneRule::MaxChroma {
                        palette: PaletteKind::Error,
                        lower: Fixed::from_int(0),
                        upper: Fixed::from_int(100),
                        chroma_multiplier: Fixed::from_int(1),
                    }
                }
            } else {
                ToneRule::MinChroma {
                    palette: PaletteKind::Error,
                    lower: Fixed::from_int(0),
                    upper: Fixed::from_int(100),
                }
            },
            is_background: true,
            chroma_multiplier: Fixed::from_int(1),
            background: Some(ColorSpec2025::highest_surface(scheme)),
            second_background: None,
            contrast_curve: Some(
                if scheme.platform == Platform::Phone {
                    ColorSpec2025::get_contrast_curve(45)
                } else {
                    ColorSpec2025::get_contrast_curve(70)
                },
            ),
            tone_delta_pair: if scheme.platform == Platform::Phone {
                Some(
                    ToneDeltaPair::new(
                        Role::ErrorContainer,
                        Role::Error,
                        Fixed::from_int(5),
                        TonePolarity::RelativeLighter,
                        true,
                        DeltaConstraint::Farther,
                    ),
                )
            } else {
                None
            },
            opacity: None,
        }
    }

    #[verifier::when_used_as_spec(spec_error)]
    pub fn error(scheme: &DynamicScheme) -> (out: RoleDefinition)
        ensures
            out == Self::spec_error(scheme),
    {
        RoleDefinition {
            role: Role::Error,
            palette: PaletteKind::Error,
            tone: if scheme.platform == Platform::Phone {
                if scheme.is_dark {
                    ToneRule::MinChroma {
                        palette: PaletteKind::Error,
                        lower: Fixed::from_int(0),
                        upper: Fixed::from_int(98),
                    }
                } else {
                    ToneRule::MaxChroma {
                        palette: PaletteKind::Error,
                        lower: Fixed::from_int(0),
                        upper: Fixed::from_int(100),
                        chroma_multiplier: Fixed::from_int(1),
                    }
                }
            } else {
                ToneRule::MinChroma {
                    palette: PaletteKind::Error,
                    lower: Fixed::from_int(0),
                    upper: Fixed::from_int(100),
                }
            },
            is_background: true,
            chroma_multiplier: Fixed::from_int(1),
            background: Some(ColorSpec2025::highest_surface(scheme)),
            second_background: None,
            contrast_curve: Some(
                if scheme.platform == Platform::Phone {
                    ColorSpec2025::get_contrast_curve(45)
                } else {
                    ColorSpec2025::get_contrast_curve(70)
                },
            ),
            tone_delta_pair: if scheme.platform == Platform::Phone {
                Some(
                    ToneDeltaPair::new(
                        Role::ErrorContainer,
                        Role::Error,
                        Fixed::from_int(5),
                        TonePolarity::RelativeLighter,
                        true,
                        DeltaConstraint::Farther,
                    ),
                )
            } else {
                None
            },
            opacity: None,
        }
    }

    /// The dimmer form of error.
    pub open spec fn spec_error_dim(scheme: &DynamicScheme) -> RoleDefinition {
        RoleDefinition {
            role: Role::ErrorDim,
            palette: PaletteKind::Error,
            tone: ToneRule::MinChroma {
                palette: PaletteKind::Error,
                lower: Fixed::from_int(0),
                upper: Fixed::from_int(100),
            },
            is_background: true,
            chroma_multiplier: Fixed::from_int(1),
            background: Some(Role::SurfaceContainerHigh),
            second_background: None,
            contrast_curve: Some(ColorSpec2025::get_contrast_curve(45)),
            tone_delta_pair: Some(
                ToneDeltaPair::new(
                    Role::ErrorDim,
                    Role::Error,
                    Fixed::from_int(5),
                    TonePolarity::Darker,
                    true,
                    DeltaConstraint::Farther,
                ),
            ),
            opacity: None,
        }
    }

    #[verifier::when_used_as_spec(spec_error_dim)]
    pub fn error_dim(scheme: &DynamicScheme) -> (out: RoleDefinition)
        ensures
            out == Self::spec_error_dim(scheme),
    {
        RoleDefinition {
            role: Role::ErrorDim,
            palette: PaletteKind::Error,
            tone: ToneRule::MinChroma {
                palette: PaletteKind::Error,
                lower: Fixed::from_int(0),
                upper: Fixed::from_int(100),
            },
            is_background: true,
            chroma_multiplier: Fixed::from_int(1),
            background: Some(Role::SurfaceContainerHigh),
            second_background: None,
            contrast_curve: Some(ColorSpec2025::get_contrast_curve(45)),
            tone_delta_pair: Some(
                ToneDeltaPair::new(
                    Role::ErrorDim,
                    Role::Error,
                    Fixed::from_int(5),
                    TonePolarity::Darker,
                    true,
                    DeltaConstraint::Farther,
                ),
            ),
            opacity: None,
        }
    }

    /// Text and icons on error.
    pub open spec fn spec_on_error(scheme: &DynamicScheme) -> RoleDefinition {
        RoleDefinition {
            role: Role::OnError,
            palette: PaletteKind::Error,
            tone: ToneRule::FromBackground,
            is_background: false,
            chroma_multiplier: Fixed::from_int(1),
            background: if scheme.platform == Platform::Phone {
                Some(Role::Error)
            } else {
                Some(Role::ErrorDim)
            },
            second_background: None,
            contrast_curve: Some(
                if scheme.platform == Platform::Phone {
                    ColorSpec2025::get_contrast_curve(60)
                } else {
                    ColorSpec2025::get_contrast_curve(70)
                },
            ),
            tone_delta_pair: None,
            opacity: None,
        }
    }

    #[verifier::when_used_as_spec(spec_on_error)]
    pub fn on_error(scheme: &DynamicScheme) -> (out: RoleDefinition)
        ensures
            out == Self::spec_on_error(scheme),
    {
        RoleDefinition {
            role: Role::OnError,
            palette: PaletteKind::Error,
            tone: ToneRule::FromBackground,
            is_background: false,
            chroma_multiplier: Fixed::from_int(1),
            background: if scheme.platform == Platform::Phone {
                Some(Role::Error)
            } else {
                Some(Role::ErrorDim)
            },
            second_background: None,
            contrast_curve: Some(
                if scheme.platform == Platform::Phone {
                    ColorSpec2025::get_contrast_curve(60)
                } else {
                    ColorSpec2025::get_contrast_curve(70)
                },
            ),
            tone_delta_pair: None,
            opacity: None,
        }
    }

    /// A container in the colour of errors.
    pub open spec fn spec_error_container(scheme: &DynamicScheme) -> RoleDefinition {
        RoleDefinition {
            role: Role::ErrorContainer,
            palette: PaletteKind::Error,
            tone: if scheme.platform == Platform::Watch {
                ToneRule::Value(Fixed::from_int(30))
            } else if scheme.is_dark {
                ToneRule::MinChroma {
                    palette: PaletteKind::Error,
                    lower: Fixed::from_int(30),
                    upper: Fixed::from_int(93),
                }
            } else {
                ToneRule::MaxChroma {
                    palette: PaletteKind::Error,
                    lower: Fixed::from_int(0),
                    upper: Fixed::from_int(90),
                    chroma_multiplier: Fixed::from_int(1),
                }
            },
            is_background: true,
            chroma_multiplier: Fixed::from_int(1),
            background: if scheme.platform == Platform::Phone {
                Some(ColorSpec2025::highest_surface(scheme))
            } else {
                None
            },
            second_background: None,
            contrast_curve:
                if scheme.platform == Platform::Phone && scheme.contrast_level.gt(Fixed::from_int(0)) {
                    Some(ColorSpec2025::get_contrast_curve(15))
                } else {
                    None
                },
            tone_delta_pair: if scheme.platform == Platform::Watch {
                Some(
                    ToneDeltaPair::new(
                        Role::ErrorContainer,
                        Role::ErrorDim,
                        Fixed::from_int(10),
                        TonePolarity::Darker,
                        true,
                        DeltaConstraint::Farther,
                    ),
                )
            } else {
                None
            },
            opacity: None,
        }
    }

    #[verifier::when_used_as_spec(spec_error_container)]
    pub fn error_container(scheme: &DynamicScheme) -> (out: RoleDefinition)
        ensures
            out == Self::spec_error_container(scheme),
    {
        RoleDefinition {
            role: Role::ErrorContainer,
            palette: PaletteKind::Error,
            tone: if scheme.platform == Platform::Watch {
                ToneRule::Value(Fixed::from_int(30))
            } else if scheme.is_dark {
                ToneRule::MinChroma {
                    palette: PaletteKind::Error,
                    lower: Fixed::from_int(30),
                    upper: Fixed::from_int(93),
                }
            } else {
                ToneRule::MaxChroma {
                    palette: PaletteKind::Error,
                    lower: Fixed::from_int(0),
                    upper: Fixed::from_int(90),
                    chroma_multiplier: Fixed::from_int(1),
                }
            },
            is_background: true,
            chroma_multiplier: Fixed::from_int(1),
            background: if scheme.platform == Platform::Phone {
                Some(ColorSpec2025::highest_surface(scheme))
            } else {
                None
            },
            second_background: None,
            contrast_curve:
                if scheme.platform == Platform::Phone && scheme.contrast_level.gt(Fixed::from_int(0)) {
                    Some(ColorSpec2025::get_contrast_curve(15))
                } else {
                    None
                },
            tone_delta_pair: if scheme.platform == Platform::Watch {
                Some(
                    ToneDeltaPair::new(
                        Role::ErrorContainer,
                        Role::ErrorDim,
                        Fixed::from_int(10),
                        TonePolarity::Darker,
                        true,
                        DeltaConstraint::Farther,
                    ),
                )
            } else {
                None
            },
            opacity: None,
        }
    }

    /// Text and icons on the error container.
    pub open spec fn spec_on_error_container(scheme: &DynamicScheme) -> RoleDefinition {
        RoleDefinition {
            role: Role::OnErrorContainer,
            palette: PaletteKind::Error,
            tone: ToneRule::FromBackground,
            is_background: false,
            chroma_multiplier: Fixed::from_int(1),
            background: Some(Role::ErrorContainer),
            second_background: None,
            contrast_curve: Some(
                if scheme.platform == Platform::Phone {
                    ColorSpec2025::get_contrast_curve(45)
                } else {
                    ColorSpec2025::get_contrast_curve(70)
                },
            ),
            tone_delta_pair: None,
            opacity: None,
        }
    }

    #[verifier::when_used_as_spec(spec_on_error_container)]
    pub fn on_error_container(scheme: &DynamicScheme) -> (out: RoleDefinition)
        ensures
            out == Self::spec_on_error_container(scheme),
    {
        RoleDefinition {
            role: Role::OnErrorContainer,
            palette: PaletteKind::Error,
            tone: ToneRule::FromBackground,
            is_background: false,
            chroma_multiplier: Fixed::from_int(1),
            background: Some(Role::ErrorContainer),
            second_background: None,
            contrast_curve: Some(
                if scheme.platform == Platform::Phone {
                    ColorSpec2025::get_contrast_curve(45)
                } else {
                    ColorSpec2025::get_contrast_curve(70)
                },
            ),
            tone_delta_pair: None,
            opacity: None,
        }
    }

    /// A control that is switched on. As in the rules of 2021.
    pub open spec fn spec_control_activated(scheme: &DynamicScheme) -> RoleDefinition {
        ColorSpec2021::control_activated(scheme)
    }

    #[verifier::when_used_as_spec(spec_control_activated)]
    pub fn control_activated(scheme: &DynamicScheme) -> (out: RoleDefinition)
        ensures
            out == Self::spec_control_activated(scheme),
    {
        ColorSpec2021::control_activated(scheme)
    }

    /// A control at rest. As in the rules of 2021.
    pub open spec fn spec_control_normal(scheme: &DynamicScheme) -> RoleDefinition {
        ColorSpec2021::control_normal(scheme)
    }

    #[verifier::when_used_as_spec(spec_control_normal)]
    pub fn control_normal(scheme: &DynamicScheme) -> (out: RoleDefinition)
        ensures
            out == Self::spec_control_normal(scheme),
    {
        ColorSpec2021::control_normal(scheme)
    }

    /// The highlight of a control that is pressed. As in the rules of 2021.
    pub open spec fn spec_control_highlight(scheme: &DynamicScheme) -> RoleDefinition {
        ColorSpec2021::control_highlight(scheme)
    }

    #[verifier::when_used_as_spec(spec_control_highlight)]
    pub fn control_highlight(scheme: &DynamicScheme) -> (out: RoleDefinition)
        ensures
            out == Self::spec_control_highlight(scheme),
    {
        ColorSpec2021::control_highlight(scheme)
    }

    /// Primary text on an inverse surface. As in the rules of 2021.
    pub open spec fn spec_text_primary_inverse(scheme: &DynamicScheme) -> RoleDefinition {
        ColorSpec2021::text_primary_inverse(scheme)
    }

    #[verifier::when_used_as_spec(spec_text_primary_inverse)]
    pub fn text_primary_inverse(scheme: &DynamicScheme) -> (out: RoleDefinition)
        ensures
            out == Self::spec_text_primary_inverse(scheme),
    {
        ColorSpec2021::text_primary_inverse(scheme)
    }

    /// Secondary and tertiary text on an inverse surface. As in the rules of
    /// 2021.
    pub open spec fn spec_text_secondary_and_tertiary_inverse(
        scheme: &DynamicScheme,
    ) -> RoleDefinition {
        ColorSpec2021::text_secondary_and_tertiary_inverse(scheme)
    }

    #[verifier::when_used_as_spec(spec_text_secondary_and_tertiary_inverse)]
    pub fn text_secondary_and_tertiary_inverse(scheme: &DynamicScheme) -> (out: RoleDefinition)
        ensures
            out == Self::spec_text_secondary_and_tertiary_inverse(scheme),
    {
        ColorSpec2021::text_secondary_and_tertiary_inverse(scheme)
    }

    /// Disabled primary text on an inverse surface. As in the rules of 2021.
    pub open spec fn spec_text_primary_inverse_disable_only(
        scheme: &DynamicScheme,
    ) -> RoleDefinition {
        ColorSpec2021::text_primary_inverse_disable_only(scheme)
    }

    #[verifier::when_used_as_spec(spec_text_primary_inverse_disable_only)]
    pub fn text_primary_inverse_disable_only(scheme: &DynamicScheme) -> (out: RoleDefinition)
        ensures
            out == Self::spec_text_primary_inverse_disable_only(scheme),
    {
        ColorSpec2021::text_primary_inverse_disable_only(scheme)
    }

    /// Disabled secondary and tertiary text on an inverse surface. As in the
    /// rules of 2021.
    pub open spec fn spec_text_secondary_and_tertiary_inverse_disabled(
        scheme: &DynamicScheme,
    ) -> RoleDefinition {
        ColorSpec2021::text_secondary_and_tertiary_inverse_disabled(scheme)
    }

    #[verifier::when_used_as_spec(spec_text_secondary_and_tertiary_inverse_disabled)]
    pub fn text_secondary_and_tertiary_inverse_disabled(
        scheme: &DynamicScheme,
    ) -> (out: RoleDefinition)
        ensures
            out == Self::spec_text_secondary_and_tertiary_inverse_disabled(scheme),
    {
        ColorSpec2021::text_secondary_and_tertiary_inverse_disabled(scheme)
    }

    /// Hints on an inverse surface. As in the rules of 2021.
    pub open spec fn spec_text_hint_inverse(scheme: &DynamicScheme) -> RoleDefinition {
        ColorSpec2021::text_hint_inverse(scheme)
    }

    #[verifier::when_used_as_spec(spec_text_hint_inverse)]
    pub fn text_hint_inverse(scheme: &DynamicScheme) -> (out: RoleDefinition)
        ensures
            out == Self::spec_text_hint_inverse(scheme),
    {
        ColorSpec2021::text_hint_inverse(scheme)
    }

    /// What a role is under a scheme.
    pub open spec fn spec_definition(role: Role, scheme: &DynamicScheme) -> RoleDefinition {
        match role {
            Role::PrimaryPaletteKeyColor => Self::primary_palette_key_color(scheme),
            Role::SecondaryPaletteKeyColor => Self::secondary_palette_key_color(scheme),
            Role::TertiaryPaletteKeyColor => Self::tertiary_palette_key_color(scheme),
            Role::NeutralPaletteKeyColor => Self::neutral_palette_key_color(scheme),
            Role::NeutralVariantPaletteKeyColor => Self::neutral_variant_palette_key_color(scheme),
            Role::ErrorPaletteKeyColor => Self::error_palette_key_color(scheme),
            Role::Background => Self::background(scheme),
            Role::OnBackground => Self::on_background(scheme),
            Role::Surface => Self::surface(scheme),
            Role::SurfaceDim => Self::surface_dim(scheme),
            Role::SurfaceBright => Self::surface_bright(scheme),
            Role::SurfaceContainerLowest => Self::surface_container_lowest(scheme),
            Role::SurfaceContainerLow => Self::surface_container_low(scheme),
            Role::SurfaceContainer => Self::surface_container(scheme),
            Role::SurfaceContainerHigh => Self::surface_container_high(scheme),
            Role::SurfaceContainerHighest => Self::surface_container_highest(scheme),
            Role::OnSurface => Self::on_surface(scheme),
            Role::SurfaceVariant => Self::surface_variant(scheme),
            Role::OnSurfaceVariant => Self::on_surface_variant(scheme),
            Role::InverseSurface => Self::inverse_surface(scheme),
            Role::InverseOnSurface => Self::inverse_on_surface(scheme),
            Role::Outline => Self::outline(scheme),
            Role::OutlineVariant => Self::outline_variant(scheme),
            Role::Shadow => Self::shadow(scheme),
            Role::Scrim => Self::scrim(scheme),
            Role::SurfaceTint => Self::surface_tint(scheme),
            Role::Primary => Self::primary(scheme),
            Role::PrimaryDim => Self::primary_dim(scheme),
            Role::OnPrimary => Self::on_primary(scheme),
            Role::PrimaryContainer => Self::primary_container(scheme),
            Role::OnPrimaryContainer => Self::on_primary_container(scheme),
            Role::InversePrimary => Self::inverse_primary(scheme),
            Role::PrimaryFixed => Self::primary_fixed(scheme),
            Role::PrimaryFixedDim => Self::primary_fixed_dim(scheme),
            Role::OnPrimaryFixed => Self::on_primary_fixed(scheme),
            Role::OnPrimaryFixedVariant => Self::on_primary_fixed_variant(scheme),
            Role::Secondary => Self::secondary(scheme),
            Role::SecondaryDim => Self::secondary_dim(scheme),
            Role::OnSecondary => Self::on_secondary(scheme),
            Role::SecondaryContainer => Self::secondary_container(scheme),
            Role::OnSecondaryContainer => Self::on_secondary_container(scheme),
            Role::SecondaryFixed => Self::secondary_fixed(scheme),
            Role::SecondaryFixedDim => Self::secondary_fixed_dim(scheme),
            Role::OnSecondaryFixed => Self::on_secondary_fixed(scheme),
            Role::OnSecondaryFixedVariant => Self::on_secondary_fixed_variant(scheme),
            Role::Tertiary => Self::tertiary(scheme),
            Role::TertiaryDim => Self::tertiary_dim(scheme),
            Role::OnTertiary => Self::on_tertiary(scheme),
            Role::TertiaryContainer => Self::tertiary_container(scheme),
            Role::OnTertiaryContainer => Self::on_tertiary_container(scheme),
            Role::TertiaryFixed => Self::tertiary_fixed(scheme),
            Role::TertiaryFixedDim => Self::tertiary_fixed_dim(scheme),
            Role::OnTertiaryFixed => Self::on_tertiary_fixed(scheme),
            Role::OnTertiaryFixedVariant => Self::on_tertiary_fixed_variant(scheme),
            Role::Error => Self::error(scheme),
            Role::ErrorDim => Self::error_dim(scheme),
            Role::OnError => Self::on_error(scheme),
            Role::ErrorContainer => Self::error_container(scheme),
            Role::OnErrorContainer => Self::on_error_container(scheme),
            Role::ControlActivated => Self::control_activated(scheme),
            Role::ControlNormal => Self::control_normal(scheme),
            Role::ControlHighlight => Self::control_highlight(scheme),
            Role::TextPrimaryInverse => Self::text_primary_inverse(scheme),
            Role::TextSecondaryAndTertiaryInverse => Self::text_secondary_and_tertiary_inverse(scheme),
            Role::TextPrimaryInverseDisableOnly => Self::text_primary_inverse_disable_only(scheme),
            Role::TextSecondaryAndTertiaryInverseDisabled => Self::text_secondary_and_tertiary_inverse_disabled(scheme),
            Role::TextHintInverse => Self::text_hint_inverse(scheme),
        }
    }

    #[verifier::when_used_as_spec(spec_definition)]
    pub fn definition(role: Role, scheme: &DynamicScheme) -> (out: RoleDefinition)
        ensures
            out == Self::spec_definition(role, scheme),
            out.role == role,
    {
        match role {
            Role::PrimaryPaletteKeyColor => Self::primary_palette_key_color(scheme),
            Role::SecondaryPaletteKeyColor => Self::secondary_palette_key_color(scheme),
            Role::TertiaryPaletteKeyColor => Self::tertiary_palette_key_color(scheme),
            Role::NeutralPaletteKeyColor => Self::neutral_palette_key_color(scheme),
            Role::NeutralVariantPaletteKeyColor => Self::neutral_variant_palette_key_color(scheme),
            Role::ErrorPaletteKeyColor => Self::error_palette_key_color(scheme),
            Role::Background => Self::background(scheme),
            Role::OnBackground => Self::on_background(scheme),
            Role::Surface => Self::surface(scheme),
            Role::SurfaceDim => Self::surface_dim(scheme),
            Role::SurfaceBright => Self::surface_bright(scheme),
            Role::SurfaceContainerLowest => Self::surface_container_lowest(scheme),
            Role::SurfaceContainerLow => Self::surface_container_low(scheme),
            Role::SurfaceContainer => Self::surface_container(scheme),
            Role::SurfaceContainerHigh => Self::surface_container_high(scheme),
            Role::SurfaceContainerHighest => Self::surface_container_highest(scheme),
            Role::OnSurface => Self::on_surface(scheme),
            Role::SurfaceVariant => Self::surface_variant(scheme),
            Role::OnSurfaceVariant => Self::on_surface_variant(scheme),
            Role::InverseSurface => Self::inverse_surface(scheme),
            Role::InverseOnSurface => Self::inverse_on_surface(scheme),
            Role::Outline => Self::outline(scheme),
            Role::OutlineVariant => Self::outline_variant(scheme),
            Role::Shadow => Self::shadow(scheme),
            Role::Scrim => Self::scrim(scheme),
            Role::SurfaceTint => Self::surface_tint(scheme),
            Role::Primary => Self::primary(scheme),
            Role::PrimaryDim => Self::primary_dim(scheme),
            Role::OnPrimary => Self::on_primary(scheme),
            Role::PrimaryContainer => Self::primary_container(scheme),
            Role::OnPrimaryContainer => Self::on_primary_container(scheme),
            Role::InversePrimary => Self::inverse_primary(scheme),
            Role::PrimaryFixed => Self::primary_fixed(scheme),
            Role::PrimaryFixedDim => Self::primary_fixed_dim(scheme),
            Role::OnPrimaryFixed => Self::on_primary_fixed(scheme),
            Role::OnPrimaryFixedVariant => Self::on_primary_fixed_variant(scheme),
            Role::Secondary => Self::secondary(scheme),
            Role::SecondaryDim => Self::secondary_dim(scheme),
            Role::OnSecondary => Self::on_secondary(scheme),
            Role::SecondaryContainer => Self::secondary_container(scheme),
            Role::OnSecondaryContainer => Self::on_secondary_container(scheme),
            Role::SecondaryFixed => Self::secondary_fixed(scheme),
            Role::SecondaryFixedDim => Self::secondary_fixed_dim(scheme),
            Role::OnSecondaryFixed => Self::on_secondary_fixed(scheme),
            Role::OnSecondaryFixedVariant => Self::on_secondary_fixed_variant(scheme),
            Role::Tertiary => Self::tertiary(scheme),
            Role::TertiaryDim => Self::tertiary_dim(scheme),
            Role::OnTertiary => Self::on_tertiary(scheme),
            Role::TertiaryContainer => Self::tertiary_container(scheme),
            Role::OnTertiaryContainer => Self::on_tertiary_container(scheme),
            Role::TertiaryFixed => Self::tertiary_fixed(scheme),
            Role::TertiaryFixedDim => Self::tertiary_fixed_dim(scheme),
            Role::OnTertiaryFixed => Self::on_tertiary_fixed(scheme),
            Role::OnTertiaryFixedVariant => Self::on_tertiary_fixed_variant(scheme),
            Role::Error => Self::error(scheme),
            Role::ErrorDim => Self::error_dim(scheme),
            Role::OnError => Self::on_error(scheme),
            Role::ErrorContainer => Self::error_container(scheme),
            Role::OnErrorContainer => Self::on_error_container(scheme),
            Role::ControlActivated => Self::control_activated(scheme),
            Role::ControlNormal => Self::control_normal(scheme),
            Role::ControlHighlight => Self::control_highlight(scheme),
            Role::TextPrimaryInverse => Self::text_primary_inverse(scheme),
            Role::TextSecondaryAndTertiaryInverse => Self::text_secondary_and_tertiary_inverse(scheme),
            Role::TextPrimaryInverseDisableOnly => Self::text_primary_inverse_disable_only(scheme),
            Role::TextSecondaryAndTertiaryInverseDisabled => Self::text_secondary_and_tertiary_inverse_disabled(scheme),
            Role::TextHintInverse => Self::text_hint_inverse(scheme),
        }
    }
}

} // verus!
