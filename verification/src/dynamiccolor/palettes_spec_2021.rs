//! The palettes as the rules of 2021 make them.
use vstd::prelude::*;
use crate::dislike_analyzer::fix_if_disliked;
use crate::dynamiccolor::dynamic_scheme::DynamicScheme;
use crate::dynamiccolor::palettes_spec::PalettesSpec;
use crate::dynamiccolor::platform::Platform;
use crate::dynamiccolor::variant::Variant;
use crate::fixed::{fx, Fixed, HALF};
use crate::hct::hct::Hct;
use crate::palettes::tonal_palette::PaletteKey;
use crate::temperature::temperature_cache::{analogous_of, complement_of, TemperatureCache};
use crate::utils::math::sanitize_degrees;

verus! {

/// The rules of 2021 for making palettes. They look at the variant and
/// the source colour only.
#[derive(Clone, Copy, Debug, Default, PartialEq, Eq, Structural)]
pub struct PalettesSpec2021;

/// The colour from which the tertiary palette of a content scheme is
/// made: the last of three analogous colours from a circle of six
/// divisions, made likable.
pub open spec fn content_tertiary_seed_spec(source_color_hct: Hct) -> Hct {
    fix_if_disliked(analogous_of(source_color_hct, 3, 6)[2])
}

#[verifier::when_used_as_spec(content_tertiary_seed_spec)]
pub fn content_tertiary_seed(source_color_hct: Hct) -> (out: Hct)
    ensures
        out == content_tertiary_seed_spec(source_color_hct),
{
    let cache = TemperatureCache::new(source_color_hct);
    let analogous = cache.analogous_with(3, 6);
    fix_if_disliked(analogous[2])
}

/// The colour from which the tertiary palette of a fidelity scheme is
/// made: the complement of the source colour, made likable.
pub open spec fn fidelity_tertiary_seed_spec(source_color_hct: Hct) -> Hct {
    fix_if_disliked(complement_of(source_color_hct))
}

#[verifier::when_used_as_spec(fidelity_tertiary_seed_spec)]
pub fn fidelity_tertiary_seed(source_color_hct: Hct) -> (out: Hct)
    ensures
        out == fidelity_tertiary_seed_spec(source_color_hct),
{
    let cache = TemperatureCache::new(source_color_hct);
    fix_if_disliked(cache.complement())
}

impl PalettesSpec2021 {
    /// The rule set.
    pub fn new() -> (out: Self)
        ensures
            out == PalettesSpec2021,
    {
        PalettesSpec2021
    }

    /// The primary palette.
    pub open spec fn spec_primary(variant: Variant, source_color_hct: Hct) -> PaletteKey {
        match variant {
            Variant::Content | Variant::Fidelity => PaletteKey::from_hue_and_chroma(
                source_color_hct.hue,
                source_color_hct.chroma,
            ),
            Variant::FruitSalad => PaletteKey::from_hue_and_chroma(
                sanitize_degrees(source_color_hct.hue.minus(Fixed::from_int(50))),
                Fixed::from_int(48),
            ),
            Variant::Monochrome => PaletteKey::from_hue_and_chroma(
                source_color_hct.hue,
                Fixed::from_int(0),
            ),
            Variant::Neutral => PaletteKey::from_hue_and_chroma(
                source_color_hct.hue,
                Fixed::from_int(12),
            ),
            Variant::Rainbow => PaletteKey::from_hue_and_chroma(
                source_color_hct.hue,
                Fixed::from_int(48),
            ),
            Variant::TonalSpot => PaletteKey::from_hue_and_chroma(
                source_color_hct.hue,
                Fixed::from_int(36),
            ),
            Variant::Expressive => PaletteKey::from_hue_and_chroma(
                sanitize_degrees(source_color_hct.hue.plus(Fixed::from_int(240))),
                Fixed::from_int(40),
            ),
            Variant::Vibrant => PaletteKey::from_hue_and_chroma(
                source_color_hct.hue,
                Fixed::from_int(200),
            ),
        }
    }

    #[verifier::when_used_as_spec(spec_primary)]
    pub fn primary(variant: Variant, source_color_hct: Hct) -> (out: PaletteKey)
        ensures
            out == Self::spec_primary(variant, source_color_hct),
    {
        match variant {
            Variant::Content | Variant::Fidelity => PaletteKey::from_hue_and_chroma(
                source_color_hct.hue,
                source_color_hct.chroma,
            ),
            Variant::FruitSalad => PaletteKey::from_hue_and_chroma(
                sanitize_degrees(source_color_hct.hue.minus(Fixed::from_int(50))),
                Fixed::from_int(48),
            ),
            Variant::Monochrome => PaletteKey::from_hue_and_chroma(
                source_color_hct.hue,
                Fixed::from_int(0),
            ),
            Variant::Neutral => PaletteKey::from_hue_and_chroma(
                source_color_hct.hue,
                Fixed::from_int(12),
            ),
            Variant::Rainbow => PaletteKey::from_hue_and_chroma(
                source_color_hct.hue,
                Fixed::from_int(48),
            ),
            Variant::TonalSpot => PaletteKey::from_hue_and_chroma(
                source_color_hct.hue,
                Fixed::from_int(36),
            ),
            Variant::Expressive => PaletteKey::from_hue_and_chroma(
                sanitize_degrees(source_color_hct.hue.plus(Fixed::from_int(240))),
                Fixed::from_int(40),
            ),
            Variant::Vibrant => PaletteKey::from_hue_and_chroma(
                source_color_hct.hue,
                Fixed::from_int(200),
            ),
        }
    }

    /// The secondary palette.
    pub open spec fn spec_secondary(variant: Variant, source_color_hct: Hct) -> PaletteKey {
        match variant {
            Variant::Content | Variant::Fidelity => PaletteKey::from_hue_and_chroma(
                source_color_hct.hue,
                source_color_hct.chroma.minus(Fixed::from_int(32)).max(
                    source_color_hct.chroma.times(fx(HALF)),
                ),
            ),
            Variant::FruitSalad => PaletteKey::from_hue_and_chroma(
                sanitize_degrees(source_color_hct.hue.minus(Fixed::from_int(50))),
                Fixed::from_int(36),
            ),
            Variant::Monochrome => PaletteKey::from_hue_and_chroma(
                source_color_hct.hue,
                Fixed::from_int(0),
            ),
            Variant::Neutral => PaletteKey::from_hue_and_chroma(
                source_color_hct.hue,
                Fixed::from_int(8),
            ),
            Variant::Rainbow => PaletteKey::from_hue_and_chroma(
                source_color_hct.hue,
                Fixed::from_int(16),
            ),
            Variant::TonalSpot => PaletteKey::from_hue_and_chroma(
                source_color_hct.hue,
                Fixed::from_int(16),
            ),
            Variant::Expressive => PaletteKey::from_hue_and_chroma(
                DynamicScheme::get_rotated_hue(
                    &source_color_hct,
                    &[0i64, 21, 51, 121, 151, 191, 271, 321, 360],
                    &[45i64, 95, 45, 20, 45, 90, 45, 45, 45],
                ),
                Fixed::from_int(24),
            ),
            Variant::Vibrant => PaletteKey::from_hue_and_chroma(
                DynamicScheme::get_rotated_hue(
                    &source_color_hct,
                    &[0i64, 41, 61, 101, 131, 181, 251, 301, 360],
                    &[18i64, 15, 10, 12, 15, 18, 15, 12, 12],
                ),
                Fixed::from_int(24),
            ),
        }
    }

    #[verifier::when_used_as_spec(spec_secondary)]
    pub fn secondary(variant: Variant, source_color_hct: Hct) -> (out: PaletteKey)
        ensures
            out == Self::spec_secondary(variant, source_color_hct),
    {
        match variant {
            Variant::Content | Variant::Fidelity => PaletteKey::from_hue_and_chroma(
                source_color_hct.hue,
                source_color_hct.chroma.minus(Fixed::from_int(32)).max(
                    source_color_hct.chroma.times(fx(HALF)),
                ),
            ),
            Variant::FruitSalad => PaletteKey::from_hue_and_chroma(
                sanitize_degrees(source_color_hct.hue.minus(Fixed::from_int(50))),
                Fixed::from_int(36),
            ),
            Variant::Monochrome => PaletteKey::from_hue_and_chroma(
                source_color_hct.hue,
                Fixed::from_int(0),
            ),
            Variant::Neutral => PaletteKey::from_hue_and_chroma(
                source_color_hct.hue,
                Fixed::from_int(8),
            ),
            Variant::Rainbow => PaletteKey::from_hue_and_chroma(
                source_color_hct.hue,
                Fixed::from_int(16),
            ),
            Variant::TonalSpot => PaletteKey::from_hue_and_chroma(
                source_color_hct.hue,
                Fixed::from_int(16),
            ),
            Variant::Expressive => PaletteKey::from_hue_and_chroma(
                DynamicScheme::get_rotated_hue(
                    &source_color_hct,
                    &[0i64, 21, 51, 121, 151, 191, 271, 321, 360],
                    &[45i64, 95, 45, 20, 45, 90, 45, 45, 45],
                ),
                Fixed::from_int(24),
            ),
            Variant::Vibrant => PaletteKey::from_hue_and_chroma(
                DynamicScheme::get_rotated_hue(
                    &source_color_hct,
                    &[0i64, 41, 61, 101, 131, 181, 251, 301, 360],
                    &[18i64, 15, 10, 12, 15, 18, 15, 12, 12],
                ),
                Fixed::from_int(24),
            ),
        }
    }

    /// The tertiary palette.
    pub open spec fn spec_tertiary(variant: Variant, source_color_hct: Hct) -> PaletteKey {
        match variant {
            Variant::Content => PaletteKey::from_hct(content_tertiary_seed(source_color_hct)),
            Variant::Fidelity => PaletteKey::from_hct(fidelity_tertiary_seed(source_color_hct)),
            Variant::FruitSalad => PaletteKey::from_hue_and_chroma(
                source_color_hct.hue,
                Fixed::from_int(36),
            ),
            Variant::Monochrome => PaletteKey::from_hue_and_chroma(
                source_color_hct.hue,
                Fixed::from_int(0),
            ),
            Variant::Neutral => PaletteKey::from_hue_and_chroma(
                source_color_hct.hue,
                Fixed::from_int(16),
            ),
            Variant::Rainbow | Variant::TonalSpot => PaletteKey::from_hue_and_chroma(
                sanitize_degrees(source_color_hct.hue.plus(Fixed::from_int(60))),
                Fixed::from_int(24),
            ),
            Variant::Expressive => PaletteKey::from_hue_and_chroma(
                DynamicScheme::get_rotated_hue(
                    &source_color_hct,
                    &[0i64, 21, 51, 121, 151, 191, 271, 321, 360],
                    &[120i64, 120, 20, 45, 20, 15, 20, 120, 120],
                ),
                Fixed::from_int(32),
            ),
            Variant::Vibrant => PaletteKey::from_hue_and_chroma(
                DynamicScheme::get_rotated_hue(
                    &source_color_hct,
                    &[0i64, 41, 61, 101, 131, 181, 251, 301, 360],
                    &[35i64, 30, 20, 25, 30, 35, 30, 25, 25],
                ),
                Fixed::from_int(32),
            ),
        }
    }

    #[verifier::when_used_as_spec(spec_tertiary)]
    pub fn tertiary(variant: Variant, source_color_hct: Hct) -> (out: PaletteKey)
        ensures
            out == Self::spec_tertiary(variant, source_color_hct),
    {
        match variant {
            Variant::Content => PaletteKey::from_hct(content_tertiary_seed(source_color_hct)),
            Variant::Fidelity => PaletteKey::from_hct(fidelity_tertiary_seed(source_color_hct)),
            Variant::FruitSalad => PaletteKey::from_hue_and_chroma(
                source_color_hct.hue,
                Fixed::from_int(36),
            ),
            Variant::Monochrome => PaletteKey::from_hue_and_chroma(
                source_color_hct.hue,
                Fixed::from_int(0),
            ),
            Variant::Neutral => PaletteKey::from_hue_and_chroma(
                source_color_hct.hue,
                Fixed::from_int(16),
            ),
            Variant::Rainbow | Variant::TonalSpot => PaletteKey::from_hue_and_chroma(
                sanitize_degrees(source_color_hct.hue.plus(Fixed::from_int(60))),
                Fixed::from_int(24),
            ),
            Variant::Expressive => PaletteKey::from_hue_and_chroma(
                DynamicScheme::get_rotated_hue(
                    &source_color_hct,
                    &[0i64, 21, 51, 121, 151, 191, 271, 321, 360],
                    &[120i64, 120, 20, 45, 20, 15, 20, 120, 120],
                ),
                Fixed::from_int(32),
            ),
            Variant::Vibrant => PaletteKey::from_hue_and_chroma(
                DynamicScheme::get_rotated_hue(
                    &source_color_hct,
                    &[0i64, 41, 61, 101, 131, 181, 251, 301, 360],
                    &[35i64, 30, 20, 25, 30, 35, 30, 25, 25],
                ),
                Fixed::from_int(32),
            ),
        }
    }

    /// The neutral palette.
    pub open spec fn spec_neutral(variant: Variant, source_color_hct: Hct) -> PaletteKey {
        match variant {
            Variant::Content | Variant::Fidelity => PaletteKey::from_hue_and_chroma(
                source_color_hct.hue,
                source_color_hct.chroma.over_int(8),
            ),
            Variant::FruitSalad => PaletteKey::from_hue_and_chroma(
                source_color_hct.hue,
                Fixed::from_int(10),
            ),
            Variant::Monochrome => PaletteKey::from_hue_and_chroma(
                source_color_hct.hue,
                Fixed::from_int(0),
            ),
            Variant::Neutral => PaletteKey::from_hue_and_chroma(
                source_color_hct.hue,
                Fixed::from_int(2),
            ),
            Variant::Rainbow => PaletteKey::from_hue_and_chroma(
                source_color_hct.hue,
                Fixed::from_int(0),
            ),
            Variant::TonalSpot => PaletteKey::from_hue_and_chroma(
                source_color_hct.hue,
                Fixed::from_int(6),
            ),
            Variant::Expressive => PaletteKey::from_hue_and_chroma(
                sanitize_degrees(source_color_hct.hue.plus(Fixed::from_int(15))),
                Fixed::from_int(8),
            ),
            Variant::Vibrant => PaletteKey::from_hue_and_chroma(
                source_color_hct.hue,
                Fixed::from_int(10),
            ),
        }
    }

    #[verifier::when_used_as_spec(spec_neutral)]
    pub fn neutral(variant: Variant, source_color_hct: Hct) -> (out: PaletteKey)
        ensures
            out == Self::spec_neutral(variant, source_color_hct),
    {
        match variant {
            Variant::Content | Variant::Fidelity => PaletteKey::from_hue_and_chroma(
                source_color_hct.hue,
                source_color_hct.chroma.over_int(8),
            ),
            Variant::FruitSalad => PaletteKey::from_hue_and_chroma(
                source_color_hct.hue,
                Fixed::from_int(10),
            ),
            Variant::Monochrome => PaletteKey::from_hue_and_chroma(
                source_color_hct.hue,
                Fixed::from_int(0),
            ),
            Variant::Neutral => PaletteKey::from_hue_and_chroma(
                source_color_hct.hue,
                Fixed::from_int(2),
            ),
            Variant::Rainbow => PaletteKey::from_hue_and_chroma(
                source_color_hct.hue,
                Fixed::from_int(0),
            ),
            Variant::TonalSpot => PaletteKey::from_hue_and_chroma(
                source_color_hct.hue,
                Fixed::from_int(6),
            ),
            Variant::Expressive => PaletteKey::from_hue_and_chroma(
                sanitize_degrees(source_color_hct.hue.plus(Fixed::from_int(15))),
                Fixed::from_int(8),
            ),
            Variant::Vibrant => PaletteKey::from_hue_and_chroma(
                source_color_hct.hue,
                Fixed::from_int(10),
            ),
        }
    }

    /// The neutral variant palette.
    pub open spec fn spec_neutral_variant(variant: Variant, source_color_hct: Hct) -> PaletteKey {
        match variant {
            Variant::Content | Variant::Fidelity => PaletteKey::from_hue_and_chroma(
                source_color_hct.hue,
                source_color_hct.chroma.over_int(8).plus(Fixed::from_int(4)),
            ),
            Variant::FruitSalad => PaletteKey::from_hue_and_chroma(
                source_color_hct.hue,
                Fixed::from_int(16),
            ),
            Variant::Monochrome => PaletteKey::from_hue_and_chroma(
                source_color_hct.hue,
                Fixed::from_int(0),
            ),
            Variant::Neutral => PaletteKey::from_hue_and_chroma(
                source_color_hct.hue,
                Fixed::from_int(2),
            ),
            Variant::Rainbow => PaletteKey::from_hue_and_chroma(
                source_color_hct.hue,
                Fixed::from_int(0),
            ),
            Variant::TonalSpot => PaletteKey::from_hue_and_chroma(
                source_color_hct.hue,
                Fixed::from_int(8),
            ),
            Variant::Expressive => PaletteKey::from_hue_and_chroma(
                sanitize_degrees(source_color_hct.hue.plus(Fixed::from_int(15))),
                Fixed::from_int(12),
            ),
            Variant::Vibrant => PaletteKey::from_hue_and_chroma(
                source_color_hct.hue,
                Fixed::from_int(12),
            ),
        }
    }

    #[verifier::when_used_as_spec(spec_neutral_variant)]
    pub fn neutral_variant(variant: Variant, source_color_hct: Hct) -> (out: PaletteKey)
        ensures
            out == Self::spec_neutral_variant(variant, source_color_hct),
    {
        match variant {
            Variant::Content | Variant::Fidelity => PaletteKey::from_hue_and_chroma(
                source_color_hct.hue,
                source_color_hct.chroma.over_int(8).plus(Fixed::from_int(4)),
            ),
            Variant::FruitSalad => PaletteKey::from_hue_and_chroma(
                source_color_hct.hue,
                Fixed::from_int(16),
            ),
            Variant::Monochrome => PaletteKey::from_hue_and_chroma(
                source_color_hct.hue,
                Fixed::from_int(0),
            ),
            Variant::Neutral => PaletteKey::from_hue_and_chroma(
                source_color_hct.hue,
                Fixed::from_int(2),
            ),
            Variant::Rainbow => PaletteKey::from_hue_and_chroma(
                source_color_hct.hue,
                Fixed::from_int(0),
            ),
            Variant::TonalSpot => PaletteKey::from_hue_and_chroma(
                source_color_hct.hue,
                Fixed::from_int(8),
            ),
            Variant::Expressive => PaletteKey::from_hue_and_chroma(
                sanitize_degrees(source_color_hct.hue.plus(Fixed::from_int(15))),
                Fixed::from_int(12),
            ),
            Variant::Vibrant => PaletteKey::from_hue_and_chroma(
                source_color_hct.hue,
                Fixed::from_int(12),
            ),
        }
    }
}

impl PalettesSpec for PalettesSpec2021 {
    fn primary_palette(&self, variant: &Variant, source_color_hct: &Hct, is_dark: bool, platform: &Platform, contrast_level: Fixed) -> (out: PaletteKey)
        ensures
            out == PalettesSpec2021::primary(*variant, *source_color_hct),
    {
        PalettesSpec2021::primary(*variant, *source_color_hct)
    }

    fn secondary_palette(&self, variant: &Variant, source_color_hct: &Hct, is_dark: bool, platform: &Platform, contrast_level: Fixed) -> (out: PaletteKey)
        ensures
            out == PalettesSpec2021::secondary(*variant, *source_color_hct),
    {
        PalettesSpec2021::secondary(*variant, *source_color_hct)
    }

    fn tertiary_palette(&self, variant: &Variant, source_color_hct: &Hct, is_dark: bool, platform: &Platform, contrast_level: Fixed) -> (out: PaletteKey)
        ensures
            out == PalettesSpec2021::tertiary(*variant, *source_color_hct),
    {
        PalettesSpec2021::tertiary(*variant, *source_color_hct)
    }

    fn neutral_palette(&self, variant: &Variant, source_color_hct: &Hct, is_dark: bool, platform: &Platform, contrast_level: Fixed) -> (out: PaletteKey)
        ensures
            out == PalettesSpec2021::neutral(*variant, *source_color_hct),
    {
        PalettesSpec2021::neutral(*variant, *source_color_hct)
    }

    fn neutral_variant_palette(&self, variant: &Variant, source_color_hct: &Hct, is_dark: bool, platform: &Platform, contrast_level: Fixed) -> (out: PaletteKey)
        ensures
            out == PalettesSpec2021::neutral_variant(*variant, *source_color_hct),
    {
        PalettesSpec2021::neutral_variant(*variant, *source_color_hct)
    }

    fn error_palette(&self, variant: &Variant, source_color_hct: &Hct, is_dark: bool, platform: &Platform, contrast_level: Fixed) -> (out: Option<PaletteKey>)
        ensures
            out == None::<PaletteKey>,
    {
        None::<PaletteKey>
    }
}

} // verus!
