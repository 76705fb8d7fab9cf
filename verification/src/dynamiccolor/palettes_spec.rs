//! How the six palettes of a scheme are made from its source colour.
use vstd::prelude::*;
use crate::dynamiccolor::palettes_spec_2021::PalettesSpec2021;
use crate::dynamiccolor::palettes_spec_2025::PalettesSpec2025;
use crate::dynamiccolor::platform::Platform;
use crate::dynamiccolor::role::PaletteKind;
use crate::dynamiccolor::spec_version::SpecVersion;
use crate::dynamiccolor::variant::Variant;
use crate::fixed::Fixed;
use crate::hct::hct::Hct;
use crate::palettes::tonal_palette::PaletteKey;

verus! {

/// The hue of the error palette where the rules make none.
pub const DEFAULT_ERROR_HUE: i64 = 25;

/// The chroma of the error palette where the rules make none.
pub const DEFAULT_ERROR_CHROMA: i64 = 84;

/// The rules by which palettes are made. Every palette follows from the
/// variant, the source colour, whether the scheme is dark, the platform
/// and the contrast level.
pub trait PalettesSpec {
    fn primary_palette(&self, variant: &Variant, source_color_hct: &Hct, is_dark: bool, platform: &Platform, contrast_level: Fixed) -> PaletteKey;

    fn secondary_palette(&self, variant: &Variant, source_color_hct: &Hct, is_dark: bool, platform: &Platform, contrast_level: Fixed) -> PaletteKey;

    fn tertiary_palette(&self, variant: &Variant, source_color_hct: &Hct, is_dark: bool, platform: &Platform, contrast_level: Fixed) -> PaletteKey;

    fn neutral_palette(&self, variant: &Variant, source_color_hct: &Hct, is_dark: bool, platform: &Platform, contrast_level: Fixed) -> PaletteKey;

    fn neutral_variant_palette(&self, variant: &Variant, source_color_hct: &Hct, is_dark: bool, platform: &Platform, contrast_level: Fixed) -> PaletteKey;

    /// The error palette, where the rules make one.
    fn error_palette(&self, variant: &Variant, source_color_hct: &Hct, is_dark: bool, platform: &Platform, contrast_level: Fixed) -> Option<PaletteKey>;
}

/// The error palette of the rules, or the one of hue 25 and chroma 84.
pub open spec fn error_palette_or_default_spec(made: Option<PaletteKey>) -> PaletteKey {
    match made {
        Some(palette) => palette,
        None => PaletteKey::from_hue_and_chroma(
            Fixed::from_int(DEFAULT_ERROR_HUE),
            Fixed::from_int(DEFAULT_ERROR_CHROMA),
        ),
    }
}

#[verifier::when_used_as_spec(error_palette_or_default_spec)]
pub fn error_palette_or_default(made: Option<PaletteKey>) -> (out: PaletteKey)
    ensures
        out == error_palette_or_default_spec(made),
{
    match made {
        Some(palette) => palette,
        None => PaletteKey::from_hue_and_chroma(
            Fixed::from_int(DEFAULT_ERROR_HUE),
            Fixed::from_int(DEFAULT_ERROR_CHROMA),
        ),
    }
}

/// The error palette that a version of the rules makes, where it makes
/// one.
pub open spec fn error_palette_of_spec(
    spec_version: SpecVersion,
    variant: Variant,
    source_color_hct: Hct,
    platform: Platform,
) -> Option<PaletteKey> {
    match spec_version {
        SpecVersion::Spec2021 => None,
        SpecVersion::Spec2025 => PalettesSpec2025::error(variant, source_color_hct, platform),
    }
}

#[verifier::when_used_as_spec(error_palette_of_spec)]
pub fn error_palette_of(
    spec_version: SpecVersion,
    variant: Variant,
    source_color_hct: Hct,
    platform: Platform,
) -> (out: Option<PaletteKey>)
    ensures
        out == error_palette_of_spec(spec_version, variant, source_color_hct, platform),
{
    match spec_version {
        SpecVersion::Spec2021 => None,
        SpecVersion::Spec2025 => PalettesSpec2025::error(variant, source_color_hct, platform),
    }
}

/// The palette of a kind that a version of the rules makes.
pub open spec fn palettes_for_spec(
    spec_version: SpecVersion,
    kind: PaletteKind,
    variant: Variant,
    source_color_hct: Hct,
    is_dark: bool,
    platform: Platform,
    contrast_level: Fixed,
) -> PaletteKey {
    match spec_version {
        SpecVersion::Spec2021 => match kind {
            PaletteKind::Primary => PalettesSpec2021::primary(variant, source_color_hct),
            PaletteKind::Secondary => PalettesSpec2021::secondary(variant, source_color_hct),
            PaletteKind::Tertiary => PalettesSpec2021::tertiary(variant, source_color_hct),
            PaletteKind::Neutral => PalettesSpec2021::neutral(variant, source_color_hct),
            PaletteKind::NeutralVariant => PalettesSpec2021::neutral_variant(
                variant,
                source_color_hct,
            ),
            PaletteKind::Error => error_palette_or_default(
                error_palette_of(spec_version, variant, source_color_hct, platform),
            ),
        },
        SpecVersion::Spec2025 => match kind {
            PaletteKind::Primary => PalettesSpec2025::primary(
                variant,
                source_color_hct,
                is_dark,
                platform,
            ),
            PaletteKind::Secondary => PalettesSpec2025::secondary(
                variant,
                source_color_hct,
                is_dark,
                platform,
            ),
            PaletteKind::Tertiary => PalettesSpec2025::tertiary(
                variant,
                source_color_hct,
                platform,
            ),
            PaletteKind::Neutral => PalettesSpec2025::neutral(
                variant,
                source_color_hct,
                is_dark,
                platform,
            ),
            PaletteKind::NeutralVariant => PalettesSpec2025::neutral_variant(
                variant,
                source_color_hct,
                is_dark,
                platform,
            ),
            PaletteKind::Error => error_palette_or_default(
                error_palette_of(spec_version, variant, source_color_hct, platform),
            ),
        },
    }
}

#[verifier::when_used_as_spec(palettes_for_spec)]
pub fn palettes_for(
    spec_version: SpecVersion,
    kind: PaletteKind,
    variant: Variant,
    source_color_hct: Hct,
    is_dark: bool,
    platform: Platform,
    contrast_level: Fixed,
) -> (out: PaletteKey)
    ensures
        out == palettes_for_spec(spec_version, kind, variant, source_color_hct, is_dark, platform, contrast_level),
{
    match spec_version {
        SpecVersion::Spec2021 => match kind {
            PaletteKind::Primary => PalettesSpec2021::primary(variant, source_color_hct),
            PaletteKind::Secondary => PalettesSpec2021::secondary(variant, source_color_hct),
            PaletteKind::Tertiary => PalettesSpec2021::tertiary(variant, source_color_hct),
            PaletteKind::Neutral => PalettesSpec2021::neutral(variant, source_color_hct),
            PaletteKind::NeutralVariant => PalettesSpec2021::neutral_variant(
                variant,
                source_color_hct,
            ),
            PaletteKind::Error => error_palette_or_default(
                error_palette_of(spec_version, variant, source_color_hct, platform),
            ),
        },
        SpecVersion::Spec2025 => match kind {
            PaletteKind::Primary => PalettesSpec2025::primary(
                variant,
                source_color_hct,
                is_dark,
                platform,
            ),
            PaletteKind::Secondary => PalettesSpec2025::secondary(
                variant,
                source_color_hct,
                is_dark,
                platform,
            ),
            PaletteKind::Tertiary => PalettesSpec2025::tertiary(
                variant,
                source_color_hct,
                platform,
            ),
            PaletteKind::Neutral => PalettesSpec2025::neutral(
                variant,
                source_color_hct,
                is_dark,
                platform,
            ),
            PaletteKind::NeutralVariant => PalettesSpec2025::neutral_variant(
                variant,
                source_color_hct,
                is_dark,
                platform,
            ),
            PaletteKind::Error => error_palette_or_default(
                error_palette_of(spec_version, variant, source_color_hct, platform),
            ),
        },
    }
}

} // verus!
