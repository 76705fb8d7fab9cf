//! The palettes as the rules of 2025 make them.
use vstd::prelude::*;
use crate::dynamiccolor::dynamic_scheme::DynamicScheme;
use crate::dynamiccolor::palettes_spec::PalettesSpec;
use crate::dynamiccolor::palettes_spec_2021::PalettesSpec2021;
use crate::dynamiccolor::platform::Platform;
use crate::dynamiccolor::variant::Variant;
use crate::fixed::Fixed;
use crate::hct::hct::Hct;
use crate::palettes::tonal_palette::PaletteKey;

verus! {

/// The rules of 2025 for making palettes. For the variants neutral, tonal
/// spot, expressive and vibrant they look at the platform and at whether
/// the scheme is dark; for the others they are the rules of 2021.
#[derive(Clone, Copy, Debug, Default, PartialEq, Eq, Structural)]
pub struct PalettesSpec2025;

/// A chroma that depends on the platform.
pub open spec fn by_platform_spec(platform: Platform, phone: i64, watch: i64) -> Fixed {
    match platform {
        Platform::Phone => Fixed::from_int(phone),
        Platform::Watch => Fixed::from_int(watch),
    }
}

#[verifier::when_used_as_spec(by_platform_spec)]
pub fn by_platform(platform: Platform, phone: i64, watch: i64) -> (out: Fixed)
    ensures
        out == by_platform_spec(platform, phone, watch),
{
    match platform {
        Platform::Phone => Fixed::from_int(phone),
        Platform::Watch => Fixed::from_int(watch),
    }
}

impl PalettesSpec2025 {
    /// The rule set.
    pub fn new() -> (out: Self)
        ensures
            out == PalettesSpec2025,
    {
        PalettesSpec2025
    }

    /// The hue of the neutral palettes of an expressive scheme.
    pub open spec fn spec_expressive_neutral_hue(source_color_hct: Hct) -> Fixed {
        DynamicScheme::get_rotated_hue(
            &source_color_hct,
            &[0i64, 71, 124, 253, 278, 300, 360],
            &[10i64, 0, 10, 0, 10, 0],
        )
    }

    #[verifier::when_used_as_spec(spec_expressive_neutral_hue)]
    pub fn expressive_neutral_hue(source_color_hct: Hct) -> (out: Fixed)
        ensures
            out == Self::spec_expressive_neutral_hue(source_color_hct),
    {
        DynamicScheme::get_rotated_hue(
            &source_color_hct,
            &[0i64, 71, 124, 253, 278, 300, 360],
            &[10i64, 0, 10, 0, 10, 0],
        )
    }

    /// The chroma of the neutral palette of an expressive scheme.
    pub open spec fn spec_expressive_neutral_chroma(
        source_color_hct: Hct,
        is_dark: bool,
        platform: Platform,
    ) -> Fixed {
        match platform {
            Platform::Phone => if is_dark {
                if Hct::is_yellow(Self::expressive_neutral_hue(source_color_hct)) {
                    Fixed::from_int(6)
                } else {
                    Fixed::from_int(14)
                }
            } else {
                Fixed::from_int(18)
            },
            Platform::Watch => Fixed::from_int(12),
        }
    }

    #[verifier::when_used_as_spec(spec_expressive_neutral_chroma)]
    pub fn expressive_neutral_chroma(
        source_color_hct: Hct,
        is_dark: bool,
        platform: Platform,
    ) -> (out: Fixed)
        ensures
            out == Self::spec_expressive_neutral_chroma(source_color_hct, is_dark, platform),
    {
        match platform {
            Platform::Phone => if is_dark {
                if Hct::is_yellow(Self::expressive_neutral_hue(source_color_hct)) {
                    Fixed::from_int(6)
                } else {
                    Fixed::from_int(14)
                }
            } else {
                Fixed::from_int(18)
            },
            Platform::Watch => Fixed::from_int(12),
        }
    }

    /// The hue of the neutral palettes of a vibrant scheme.
    pub open spec fn spec_vibrant_neutral_hue(source_color_hct: Hct) -> Fixed {
        DynamicScheme::get_rotated_hue(
            &source_color_hct,
            &[0i64, 38, 105, 140, 333, 360],
            &[-14i64, 10, -14i64, 10, -14i64],
        )
    }

    #[verifier::when_used_as_spec(spec_vibrant_neutral_hue)]
    pub fn vibrant_neutral_hue(source_color_hct: Hct) -> (out: Fixed)
        ensures
            out == Self::spec_vibrant_neutral_hue(source_color_hct),
    {
        DynamicScheme::get_rotated_hue(
            &source_color_hct,
            &[0i64, 38, 105, 140, 333, 360],
            &[-14i64, 10, -14i64, 10, -14i64],
        )
    }

    /// The chroma of the neutral palette of a vibrant scheme.
    pub open spec fn spec_vibrant_neutral_chroma(
        source_color_hct: Hct,
        platform: Platform,
    ) -> Fixed {
        match platform {
            Platform::Phone => Fixed::from_int(28),
            Platform::Watch => if Hct::is_blue(Self::vibrant_neutral_hue(source_color_hct)) {
                Fixed::from_int(28)
            } else {
                Fixed::from_int(20)
            },
        }
    }

    #[verifier::when_used_as_spec(spec_vibrant_neutral_chroma)]
    pub fn vibrant_neutral_chroma(source_color_hct: Hct, platform: Platform) -> (out: Fixed)
        ensures
            out == Self::spec_vibrant_neutral_chroma(source_color_hct, platform),
    {
        match platform {
            Platform::Phone => Fixed::from_int(28),
            Platform::Watch => if Hct::is_blue(Self::vibrant_neutral_hue(source_color_hct)) {
                Fixed::from_int(28)
            } else {
                Fixed::from_int(20)
            },
        }
    }

    /// The primary palette.
    pub open spec fn spec_primary(
        variant: Variant,
        source_color_hct: Hct,
        is_dark: bool,
        platform: Platform,
    ) -> PaletteKey {
        match variant {
            Variant::Neutral => PaletteKey::from_hue_and_chroma(
                source_color_hct.hue,
                if Hct::is_blue(source_color_hct.hue) {
                    by_platform(platform, 12, 16)
                } else {
                    by_platform(platform, 8, 12)
                },
            ),
            Variant::TonalSpot => PaletteKey::from_hue_and_chroma(
                source_color_hct.hue,
                if platform == Platform::Phone && is_dark {
                    Fixed::from_int(26)
                } else {
                    Fixed::from_int(32)
                },
            ),
            Variant::Expressive => PaletteKey::from_hue_and_chroma(
                source_color_hct.hue,
                if is_dark {
                    by_platform(platform, 36, 40)
                } else {
                    by_platform(platform, 48, 40)
                },
            ),
            Variant::Vibrant => PaletteKey::from_hue_and_chroma(
                source_color_hct.hue,
                by_platform(platform, 74, 56),
            ),
            _ => PalettesSpec2021::primary(variant, source_color_hct),
        }
    }

    #[verifier::when_used_as_spec(spec_primary)]
    pub fn primary(
        variant: Variant,
        source_color_hct: Hct,
        is_dark: bool,
        platform: Platform,
    ) -> (out: PaletteKey)
        ensures
            out == Self::spec_primary(variant, source_color_hct, is_dark, platform),
    {
        match variant {
            Variant::Neutral => PaletteKey::from_hue_and_chroma(
                source_color_hct.hue,
                if Hct::is_blue(source_color_hct.hue) {
                    by_platform(platform, 12, 16)
                } else {
                    by_platform(platform, 8, 12)
                },
            ),
            Variant::TonalSpot => PaletteKey::from_hue_and_chroma(
                source_color_hct.hue,
                if platform == Platform::Phone && is_dark {
                    Fixed::from_int(26)
                } else {
                    Fixed::from_int(32)
                },
            ),
            Variant::Expressive => PaletteKey::from_hue_and_chroma(
                source_color_hct.hue,
                if is_dark {
                    by_platform(platform, 36, 40)
                } else {
                    by_platform(platform, 48, 40)
                },
            ),
            Variant::Vibrant => PaletteKey::from_hue_and_chroma(
                source_color_hct.hue,
                by_platform(platform, 74, 56),
            ),
            _ => PalettesSpec2021::primary(variant, source_color_hct),
        }
    }

    /// The secondary palette.
    pub open spec fn spec_secondary(
        variant: Variant,
        source_color_hct: Hct,
        is_dark: bool,
        platform: Platform,
    ) -> PaletteKey {
        match variant {
            Variant::Neutral => PaletteKey::from_hue_and_chroma(
                source_color_hct.hue,
                if Hct::is_blue(source_color_hct.hue) {
                    by_platform(platform, 6, 10)
                } else {
                    by_platform(platform, 4, 6)
                },
            ),
            Variant::TonalSpot => PaletteKey::from_hue_and_chroma(
                source_color_hct.hue,
                Fixed::from_int(16),
            ),
            Variant::Expressive => PaletteKey::from_hue_and_chroma(
                DynamicScheme::get_rotated_hue(
                    &source_color_hct,
                    &[0i64, 105, 140, 204, 253, 278, 300, 333, 360],
                    &[-160i64, 155, -100i64, 96, -96i64, -156i64, -165i64, -160i64],
                ),
                if is_dark {
                    by_platform(platform, 16, 24)
                } else {
                    by_platform(platform, 24, 24)
                },
            ),
            Variant::Vibrant => PaletteKey::from_hue_and_chroma(
                DynamicScheme::get_rotated_hue(
                    &source_color_hct,
                    &[0i64, 38, 105, 140, 333, 360],
                    &[-14i64, 10, -14i64, 10, -14i64],
                ),
                by_platform(platform, 56, 36),
            ),
            _ => PalettesSpec2021::secondary(variant, source_color_hct),
        }
    }

    #[verifier::when_used_as_spec(spec_secondary)]
    pub fn secondary(
        variant: Variant,
        source_color_hct: Hct,
        is_dark: bool,
        platform: Platform,
    ) -> (out: PaletteKey)
        ensures
            out == Self::spec_secondary(variant, source_color_hct, is_dark, platform),
    {
        match variant {
            Variant::Neutral => PaletteKey::from_hue_and_chroma(
                source_color_hct.hue,
                if Hct::is_blue(source_color_hct.hue) {
                    by_platform(platform, 6, 10)
                } else {
                    by_platform(platform, 4, 6)
                },
            ),
            Variant::TonalSpot => PaletteKey::from_hue_and_chroma(
                source_color_hct.hue,
                Fixed::from_int(16),
            ),
            Variant::Expressive => PaletteKey::from_hue_and_chroma(
                DynamicScheme::get_rotated_hue(
                    &source_color_hct,
                    &[0i64, 105, 140, 204, 253, 278, 300, 333, 360],
                    &[-160i64, 155, -100i64, 96, -96i64, -156i64, -165i64, -160i64],
                ),
                if is_dark {
                    by_platform(platform, 16, 24)
                } else {
                    by_platform(platform, 24, 24)
                },
            ),
            Variant::Vibrant => PaletteKey::from_hue_and_chroma(
                DynamicScheme::get_rotated_hue(
                    &source_color_hct,
                    &[0i64, 38, 105, 140, 333, 360],
                    &[-14i64, 10, -14i64, 10, -14i64],
                ),
                by_platform(platform, 56, 36),
            ),
            _ => PalettesSpec2021::secondary(variant, source_color_hct),
        }
    }

    /// The tertiary palette.
    pub open spec fn spec_tertiary(
        variant: Variant,
        source_color_hct: Hct,
        platform: Platform,
    ) -> PaletteKey {
        match variant {
            Variant::Neutral => PaletteKey::from_hue_and_chroma(
                DynamicScheme::get_rotated_hue(
                    &source_color_hct,
                    &[0i64, 38, 105, 161, 204, 278, 333, 360],
                    &[-32i64, 26, 10, -39i64, 24, -15i64, -32i64],
                ),
                by_platform(platform, 20, 36),
            ),
            Variant::TonalSpot => PaletteKey::from_hue_and_chroma(
                DynamicScheme::get_rotated_hue(
                    &source_color_hct,
                    &[0i64, 20, 71, 161, 333, 360],
                    &[-40i64, 48, -32i64, 40, -32i64],
                ),
                by_platform(platform, 28, 32),
            ),
            Variant::Expressive => PaletteKey::from_hue_and_chroma(
                DynamicScheme::get_rotated_hue(
                    &source_color_hct,
                    &[0i64, 105, 140, 204, 253, 278, 300, 333, 360],
                    &[-165i64, 160, -105i64, 101, -101i64, -160i64, -170i64, -165i64],
                ),
                Fixed::from_int(48),
            ),
            Variant::Vibrant => PaletteKey::from_hue_and_chroma(
                DynamicScheme::get_rotated_hue(
                    &source_color_hct,
                    &[0i64, 38, 71, 105, 140, 161, 253, 333, 360],
                    &[-72i64, 35, 24, -24i64, 62, 50, 62, -72i64],
                ),
                Fixed::from_int(56),
            ),
            _ => PalettesSpec2021::tertiary(variant, source_color_hct),
        }
    }

    #[verifier::when_used_as_spec(spec_tertiary)]
    pub fn tertiary(
        variant: Variant,
        source_color_hct: Hct,
        platform: Platform,
    ) -> (out: PaletteKey)
        ensures
            out == Self::spec_tertiary(variant, source_color_hct, platform),
    {
        match variant {
            Variant::Neutral => PaletteKey::from_hue_and_chroma(
                DynamicScheme::get_rotated_hue(
                    &source_color_hct,
                    &[0i64, 38, 105, 161, 204, 278, 333, 360],
                    &[-32i64, 26, 10, -39i64, 24, -15i64, -32i64],
                ),
                by_platform(platform, 20, 36),
            ),
            Variant::TonalSpot => PaletteKey::from_hue_and_chroma(
                DynamicScheme::get_rotated_hue(
                    &source_color_hct,
                    &[0i64, 20, 71, 161, 333, 360],
                    &[-40i64, 48, -32i64, 40, -32i64],
                ),
                by_platform(platform, 28, 32),
            ),
            Variant::Expressive => PaletteKey::from_hue_and_chroma(
                DynamicScheme::get_rotated_hue(
                    &source_color_hct,
                    &[0i64, 105, 140, 204, 253, 278, 300, 333, 360],
                    &[-165i64, 160, -105i64, 101, -101i64, -160i64, -170i64, -165i64],
                ),
                Fixed::from_int(48),
            ),
            Variant::Vibrant => PaletteKey::from_hue_and_chroma(
                DynamicScheme::get_rotated_hue(
                    &source_color_hct,
                    &[0i64, 38, 71, 105, 140, 161, 253, 333, 360],
                    &[-72i64, 35, 24, -24i64, 62, 50, 62, -72i64],
                ),
                Fixed::from_int(56),
            ),
            _ => PalettesSpec2021::tertiary(variant, source_color_hct),
        }
    }

    /// The chroma of the neutral palette of a neutral or tonal spot
    /// scheme.
    pub open spec fn spec_plain_neutral_chroma(variant: Variant, platform: Platform) -> Fixed {
        if variant == Variant::Neutral {
            match platform {
                Platform::Phone => Fixed::from_tenths(14),
                Platform::Watch => Fixed::from_int(6),
            }
        } else {
            by_platform(platform, 5, 10)
        }
    }

    #[verifier::when_used_as_spec(spec_plain_neutral_chroma)]
    pub fn plain_neutral_chroma(variant: Variant, platform: Platform) -> (out: Fixed)
        ensures
            out == Self::spec_plain_neutral_chroma(variant, platform),
    {
        if variant == Variant::Neutral {
            match platform {
                Platform::Phone => Fixed::from_tenths(14),
                Platform::Watch => Fixed::from_int(6),
            }
        } else {
            by_platform(platform, 5, 10)
        }
    }

    /// The neutral palette.
    pub open spec fn spec_neutral(
        variant: Variant,
        source_color_hct: Hct,
        is_dark: bool,
        platform: Platform,
    ) -> PaletteKey {
        match variant {
            Variant::Neutral | Variant::TonalSpot => PaletteKey::from_hue_and_chroma(
                source_color_hct.hue,
                Self::plain_neutral_chroma(variant, platform),
            ),
            Variant::Expressive => PaletteKey::from_hue_and_chroma(
                Self::expressive_neutral_hue(source_color_hct),
                Self::expressive_neutral_chroma(source_color_hct, is_dark, platform),
            ),
            Variant::Vibrant => PaletteKey::from_hue_and_chroma(
                Self::vibrant_neutral_hue(source_color_hct),
                Self::vibrant_neutral_chroma(source_color_hct, platform),
            ),
            _ => PalettesSpec2021::neutral(variant, source_color_hct),
        }
    }

    #[verifier::when_used_as_spec(spec_neutral)]
    pub fn neutral(
        variant: Variant,
        source_color_hct: Hct,
        is_dark: bool,
        platform: Platform,
    ) -> (out: PaletteKey)
        ensures
            out == Self::spec_neutral(variant, source_color_hct, is_dark, platform),
    {
        match variant {
            Variant::Neutral | Variant::TonalSpot => PaletteKey::from_hue_and_chroma(
                source_color_hct.hue,
                Self::plain_neutral_chroma(variant, platform),
            ),
            Variant::Expressive => PaletteKey::from_hue_and_chroma(
                Self::expressive_neutral_hue(source_color_hct),
                Self::expressive_neutral_chroma(source_color_hct, is_dark, platform),
            ),
            Variant::Vibrant => PaletteKey::from_hue_and_chroma(
                Self::vibrant_neutral_hue(source_color_hct),
                Self::vibrant_neutral_chroma(source_color_hct, platform),
            ),
            _ => PalettesSpec2021::neutral(variant, source_color_hct),
        }
    }

    /// The neutral variant palette: the hue of the neutral palette, and
    /// more chroma.
    pub open spec fn spec_neutral_variant(
        variant: Variant,
        source_color_hct: Hct,
        is_dark: bool,
        platform: Platform,
    ) -> PaletteKey {
        match variant {
            Variant::Neutral => PaletteKey::from_hue_and_chroma(
                source_color_hct.hue,
                Self::plain_neutral_chroma(variant, platform).times(Fixed::from_tenths(22)),
            ),
            Variant::TonalSpot => PaletteKey::from_hue_and_chroma(
                source_color_hct.hue,
                Self::plain_neutral_chroma(variant, platform).times(Fixed::from_tenths(17)),
            ),
            Variant::Expressive => PaletteKey::from_hue_and_chroma(
                Self::expressive_neutral_hue(source_color_hct),
                Self::expressive_neutral_chroma(source_color_hct, is_dark, platform).times(
                    if Hct::is_yellow(Self::expressive_neutral_hue(source_color_hct)) {
                        Fixed::from_tenths(16)
                    } else {
                        Fixed::from_tenths(23)
                    },
                ),
            ),
            Variant::Vibrant => PaletteKey::from_hue_and_chroma(
                Self::vibrant_neutral_hue(source_color_hct),
                Self::vibrant_neutral_chroma(source_color_hct, platform).times(
                    Fixed::from_hundredths(129),
                ),
            ),
            _ => PalettesSpec2021::neutral_variant(variant, source_color_hct),
        }
    }

    #[verifier::when_used_as_spec(spec_neutral_variant)]
    pub fn neutral_variant(
        variant: Variant,
        source_color_hct: Hct,
        is_dark: bool,
        platform: Platform,
    ) -> (out: PaletteKey)
        ensures
            out == Self::spec_neutral_variant(variant, source_color_hct, is_dark, platform),
    {
        match variant {
            Variant::Neutral => PaletteKey::from_hue_and_chroma(
                source_color_hct.hue,
                Self::plain_neutral_chroma(variant, platform).times(Fixed::from_tenths(22)),
            ),
            Variant::TonalSpot => PaletteKey::from_hue_and_chroma(
                source_color_hct.hue,
                Self::plain_neutral_chroma(variant, platform).times(Fixed::from_tenths(17)),
            ),
            Variant::Expressive => PaletteKey::from_hue_and_chroma(
                Self::expressive_neutral_hue(source_color_hct),
                Self::expressive_neutral_chroma(source_color_hct, is_dark, platform).times(
                    if Hct::is_yellow(Self::expressive_neutral_hue(source_color_hct)) {
                        Fixed::from_tenths(16)
                    } else {
                        Fixed::from_tenths(23)
                    },
                ),
            ),
            Variant::Vibrant => PaletteKey::from_hue_and_chroma(
                Self::vibrant_neutral_hue(source_color_hct),
                Self::vibrant_neutral_chroma(source_color_hct, platform).times(
                    Fixed::from_hundredths(129),
                ),
            ),
            _ => PalettesSpec2021::neutral_variant(variant, source_color_hct),
        }
    }

    /// The hue of the error palette: a red that keeps its distance from
    /// the source colour.
    pub open spec fn spec_error_hue(source_color_hct: Hct) -> Fixed {
        DynamicScheme::get_piecewise_value(
            &source_color_hct,
            &[0i64, 3, 13, 23, 33, 43, 153, 273, 360],
            &[12i64, 22, 32, 12, 22, 32, 22, 12],
        )
    }

    #[verifier::when_used_as_spec(spec_error_hue)]
    pub fn error_hue(source_color_hct: Hct) -> (out: Fixed)
        ensures
            out == Self::spec_error_hue(source_color_hct),
    {
        DynamicScheme::get_piecewise_value(
            &source_color_hct,
            &[0i64, 3, 13, 23, 33, 43, 153, 273, 360],
            &[12i64, 22, 32, 12, 22, 32, 22, 12],
        )
    }

    /// The error palette, for the variants for which the rules make one.
    pub open spec fn spec_error(
        variant: Variant,
        source_color_hct: Hct,
        platform: Platform,
    ) -> Option<PaletteKey> {
        match variant {
            Variant::Neutral => Some(
                PaletteKey::from_hue_and_chroma(
                    Self::error_hue(source_color_hct),
                    by_platform(platform, 50, 40),
                ),
            ),
            Variant::TonalSpot => Some(
                PaletteKey::from_hue_and_chroma(
                    Self::error_hue(source_color_hct),
                    by_platform(platform, 60, 48),
                ),
            ),
            Variant::Expressive => Some(
                PaletteKey::from_hue_and_chroma(
                    Self::error_hue(source_color_hct),
                    by_platform(platform, 64, 48),
                ),
            ),
            Variant::Vibrant => Some(
                PaletteKey::from_hue_and_chroma(
                    Self::error_hue(source_color_hct),
                    by_platform(platform, 80, 60),
                ),
            ),
            _ => None,
        }
    }

    #[verifier::when_used_as_spec(spec_error)]
    pub fn error(
        variant: Variant,
        source_color_hct: Hct,
        platform: Platform,
    ) -> (out: Option<PaletteKey>)
        ensures
            out == Self::spec_error(variant, source_color_hct, platform),
    {
        match variant {
            Variant::Neutral => Some(
                PaletteKey::from_hue_and_chroma(
                    Self::error_hue(source_color_hct),
                    by_platform(platform, 50, 40),
                ),
            ),
            Variant::TonalSpot => Some(
                PaletteKey::from_hue_and_chroma(
                    Self::error_hue(source_color_hct),
                    by_platform(platform, 60, 48),
                ),
            ),
            Variant::Expressive => Some(
                PaletteKey::from_hue_and_chroma(
                    Self::error_hue(source_color_hct),
                    by_platform(platform, 64, 48),
                ),
            ),
            Variant::Vibrant => Some(
                PaletteKey::from_hue_and_chroma(
                    Self::error_hue(source_color_hct),
                    by_platform(platform, 80, 60),
                ),
            ),
            _ => None,
        }
    }
}

impl PalettesSpec for PalettesSpec2025 {
    fn primary_palette(&self, variant: &Variant, source_color_hct: &Hct, is_dark: bool, platform: &Platform, contrast_level: Fixed) -> (out: PaletteKey)
        ensures
            out == PalettesSpec2025::primary(*variant, *source_color_hct, is_dark, *platform),
    {
        PalettesSpec2025::primary(*variant, *source_color_hct, is_dark, *platform)
    }

    fn secondary_palette(&self, variant: &Variant, source_color_hct: &Hct, is_dark: bool, platform: &Platform, contrast_level: Fixed) -> (out: PaletteKey)
        ensures
            out == PalettesSpec2025::secondary(*variant, *source_color_hct, is_dark, *platform),
    {
        PalettesSpec2025::secondary(*variant, *source_color_hct, is_dark, *platform)
    }

    fn tertiary_palette(&self, variant: &Variant, source_color_hct: &Hct, is_dark: bool, platform: &Platform, contrast_level: Fixed) -> (out: PaletteKey)
        ensures
            out == PalettesSpec2025::tertiary(*variant, *source_color_hct, *platform),
    {
        PalettesSpec2025::tertiary(*variant, *source_color_hct, *platform)
    }

    fn neutral_palette(&self, variant: &Variant, source_color_hct: &Hct, is_dark: bool, platform: &Platform, contrast_level: Fixed) -> (out: PaletteKey)
        ensures
            out == PalettesSpec2025::neutral(*variant, *source_color_hct, is_dark, *platform),
    {
        PalettesSpec2025::neutral(*variant, *source_color_hct, is_dark, *platform)
    }

    fn neutral_variant_palette(&self, variant: &Variant, source_color_hct: &Hct, is_dark: bool, platform: &Platform, contrast_level: Fixed) -> (out: PaletteKey)
        ensures
            out == PalettesSpec2025::neutral_variant(*variant, *source_color_hct, is_dark, *platform),
    {
        PalettesSpec2025::neutral_variant(*variant, *source_color_hct, is_dark, *platform)
    }

    fn error_palette(&self, variant: &Variant, source_color_hct: &Hct, is_dark: bool, platform: &Platform, contrast_level: Fixed) -> (out: Option<PaletteKey>)
        ensures
            out == PalettesSpec2025::error(*variant, *source_color_hct, *platform),
    {
        PalettesSpec2025::error(*variant, *source_color_hct, *platform)
    }
}

} // verus!
