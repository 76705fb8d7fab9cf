//! Dynamic schemes: a seed colour, the choices that shape a theme, and the
//! six palettes that follow from them.
use vstd::prelude::*;
use crate::dynamiccolor::palettes_spec::{error_palette_of, error_palette_or_default, palettes_for};
use crate::dynamiccolor::platform::Platform;
use crate::dynamiccolor::role::PaletteKind;
use crate::dynamiccolor::spec_version::SpecVersion;
use crate::dynamiccolor::variant::Variant;
use crate::fixed::Fixed;
use crate::hct::hct::Hct;
use crate::palettes::tonal_palette::{PaletteKey, TonalPalette};
use crate::utils::math::sanitize_degrees;

verus! {

/// The seed colour of a scheme that is given none.
pub const DEFAULT_SOURCE_COLOR: u32 = 0xff6750a4;

/// Everything that the colours of a theme follow from. A scheme is a
/// plain value: two schemes with equal parts resolve every role alike.
#[derive(Clone, Copy, Debug, PartialEq, Eq, Structural)]
pub struct DynamicScheme {
    pub source_color_argb: u32,
    pub source_color_hct: Hct,
    pub variant: Variant,
    pub is_dark: bool,
    pub platform: Platform,
    /// From -1, the least contrast, over 0, the standard, to 1.
    pub contrast_level: Fixed,
    pub spec_version: SpecVersion,
    pub primary_palette: PaletteKey,
    pub secondary_palette: PaletteKey,
    pub tertiary_palette: PaletteKey,
    pub neutral_palette: PaletteKey,
    pub neutral_variant_palette: PaletteKey,
    pub error_palette: PaletteKey,
}

/// The hue that a table gives for the interval in which `source_hue`
/// lies, looked for from the interval `from` on: the `i`-th hue for a
/// source hue from the `i`-th breakpoint up to, not including, the next.
pub open spec fn piecewise_from(source_hue: Fixed, hue_breakpoints: &[i64], hues: &[i64], from: nat) -> Option<Fixed>
    decreases hues@.len() - from,
{
    if from < hues@.len() && from + 1 < hue_breakpoints@.len() {
        if source_hue.ge(Fixed::from_int(hue_breakpoints@[from as int])) && source_hue.lt(
            Fixed::from_int(hue_breakpoints@[(from + 1) as int]),
        ) {
            Some(sanitize_degrees(Fixed::from_int(hues@[from as int])))
        } else {
            piecewise_from(source_hue, hue_breakpoints, hues, from + 1)
        }
    } else {
        None
    }
}

impl DynamicScheme {
    /// The version of the rules of a scheme that names none.
    pub open spec fn spec_default_spec_version() -> SpecVersion {
        SpecVersion::Spec2021
    }

    #[verifier::when_used_as_spec(spec_default_spec_version)]
    pub fn default_spec_version() -> (out: SpecVersion)
        ensures
            out == Self::spec_default_spec_version(),
    {
        SpecVersion::Spec2021
    }

    /// The kind of device of a scheme that names none.
    pub open spec fn spec_default_platform() -> Platform {
        Platform::Phone
    }

    #[verifier::when_used_as_spec(spec_default_platform)]
    pub fn default_platform() -> (out: Platform)
        ensures
            out == Self::spec_default_platform(),
    {
        Platform::Phone
    }

    /// The hue that a table gives for the hue of the source colour, held
    /// within a full turn; the hue of the source colour itself where no
    /// interval of the table holds it.
    pub open spec fn spec_get_piecewise_value(source_color_hct: &Hct, hue_breakpoints: &[i64], hues: &[i64]) -> Fixed {
        match piecewise_from(source_color_hct.hue, hue_breakpoints, hues, 0) {
            Some(hue) => hue,
            None => source_color_hct.hue,
        }
    }

    #[verifier::when_used_as_spec(spec_get_piecewise_value)]
    pub fn get_piecewise_value(source_color_hct: &Hct, hue_breakpoints: &[i64], hues: &[i64]) -> (out: Fixed)
        ensures
            out == Self::spec_get_piecewise_value(source_color_hct, hue_breakpoints, hues),
    {
        let source_hue = source_color_hct.hue;
        let mut i: usize = 0;
        while i < hues.len() && i + 1 < hue_breakpoints.len()
            invariant
                source_hue == source_color_hct.hue,
                piecewise_from(source_hue, hue_breakpoints, hues, i as nat) == piecewise_from(
                    source_hue,
                    hue_breakpoints,
                    hues,
                    0,
                ),
            decreases hues@.len() - i,
        {
            if source_hue.ge(Fixed::from_int(hue_breakpoints[i])) && source_hue.lt(
                Fixed::from_int(hue_breakpoints[i + 1]),
            ) {
                return sanitize_degrees(Fixed::from_int(hues[i]));
            }
            i = i + 1;
        }
        source_hue
    }

    /// The hue of the source colour turned by what a table of rotations
    /// gives for it; by nothing where the table is empty.
    pub open spec fn spec_get_rotated_hue(
        source_color_hct: &Hct,
        hue_breakpoints: &[i64],
        rotations: &[i64],
    ) -> Fixed {
        if rotations.len() == 0 || hue_breakpoints.len() <= 1 {
            sanitize_degrees(source_color_hct.hue)
        } else {
            sanitize_degrees(
                source_color_hct.hue.plus(
                    Self::get_piecewise_value(source_color_hct, hue_breakpoints, rotations),
                ),
            )
        }
    }

    #[verifier::when_used_as_spec(spec_get_rotated_hue)]
    pub fn get_rotated_hue(
        source_color_hct: &Hct,
        hue_breakpoints: &[i64],
        rotations: &[i64],
    ) -> (out: Fixed)
        ensures
            out == Self::spec_get_rotated_hue(source_color_hct, hue_breakpoints, rotations),
            0 <= out.raw < crate::utils::math::FULL_TURN,
    {
        if rotations.len() == 0 || hue_breakpoints.len() <= 1 {
            sanitize_degrees(source_color_hct.hue)
        } else {
            sanitize_degrees(
                source_color_hct.hue.plus(
                    Self::get_piecewise_value(source_color_hct, hue_breakpoints, rotations),
                ),
            )
        }
    }

    /// The scheme with every part given.
    pub open spec fn spec_new(
        source_color_hct: Hct,
        variant: Variant,
        is_dark: bool,
        platform: Platform,
        contrast_level: Fixed,
        spec_version: SpecVersion,
        primary_palette: PaletteKey,
        secondary_palette: PaletteKey,
        tertiary_palette: PaletteKey,
        neutral_palette: PaletteKey,
        neutral_variant_palette: PaletteKey,
        error_palette: PaletteKey,
    ) -> DynamicScheme {
        DynamicScheme {
            source_color_argb: source_color_hct.argb,
            source_color_hct,
            variant,
            is_dark,
            platform,
            contrast_level,
            spec_version,
            primary_palette,
            secondary_palette,
            tertiary_palette,
            neutral_palette,
            neutral_variant_palette,
            error_palette,
        }
    }

    #[verifier::when_used_as_spec(spec_new)]
    pub fn new(
        source_color_hct: Hct,
        variant: Variant,
        is_dark: bool,
        platform: Platform,
        contrast_level: Fixed,
        spec_version: SpecVersion,
        primary_palette: PaletteKey,
        secondary_palette: PaletteKey,
        tertiary_palette: PaletteKey,
        neutral_palette: PaletteKey,
        neutral_variant_palette: PaletteKey,
        error_palette: PaletteKey,
    ) -> (out: DynamicScheme)
        ensures
            out == Self::spec_new(source_color_hct, variant, is_dark, platform, contrast_level, spec_version, primary_palette, secondary_palette, tertiary_palette, neutral_palette, neutral_variant_palette, error_palette),
    {
        DynamicScheme {
            source_color_argb: source_color_hct.argb,
            source_color_hct,
            variant,
            is_dark,
            platform,
            contrast_level,
            spec_version,
            primary_palette,
            secondary_palette,
            tertiary_palette,
            neutral_palette,
            neutral_variant_palette,
            error_palette,
        }
    }

    /// This scheme in its light form at standard contrast, with the same
    /// palettes.
    pub open spec fn spec_light_standard(&self) -> DynamicScheme {
        DynamicScheme {
            source_color_argb: self.source_color_argb,
            source_color_hct: self.source_color_hct,
            variant: self.variant,
            is_dark: false,
            platform: self.platform,
            contrast_level: Fixed::from_int(0),
            spec_version: self.spec_version,
            primary_palette: self.primary_palette,
            secondary_palette: self.secondary_palette,
            tertiary_palette: self.tertiary_palette,
            neutral_palette: self.neutral_palette,
            neutral_variant_palette: self.neutral_variant_palette,
            error_palette: self.error_palette,
        }
    }

    #[verifier::when_used_as_spec(spec_light_standard)]
    pub fn light_standard(&self) -> (out: DynamicScheme)
        ensures
            out == self.spec_light_standard(),
    {
        DynamicScheme {
            source_color_argb: self.source_color_argb,
            source_color_hct: self.source_color_hct,
            variant: self.variant,
            is_dark: false,
            platform: self.platform,
            contrast_level: Fixed::from_int(0),
            spec_version: self.spec_version,
            primary_palette: self.primary_palette,
            secondary_palette: self.secondary_palette,
            tertiary_palette: self.tertiary_palette,
            neutral_palette: self.neutral_palette,
            neutral_variant_palette: self.neutral_variant_palette,
            error_palette: self.error_palette,
        }
    }

    /// One of the six palettes, as what determines it.
    pub open spec fn spec_palette(&self, kind: PaletteKind) -> PaletteKey {
        match kind {
            PaletteKind::Primary => self.primary_palette,
            PaletteKind::Secondary => self.secondary_palette,
            PaletteKind::Tertiary => self.tertiary_palette,
            PaletteKind::Neutral => self.neutral_palette,
            PaletteKind::NeutralVariant => self.neutral_variant_palette,
            PaletteKind::Error => self.error_palette,
        }
    }

    #[verifier::when_used_as_spec(spec_palette)]
    pub fn palette(&self, kind: PaletteKind) -> (out: PaletteKey)
        ensures
            out == self.spec_palette(kind),
    {
        match kind {
            PaletteKind::Primary => self.primary_palette,
            PaletteKind::Secondary => self.secondary_palette,
            PaletteKind::Tertiary => self.tertiary_palette,
            PaletteKind::Neutral => self.neutral_palette,
            PaletteKind::NeutralVariant => self.neutral_variant_palette,
            PaletteKind::Error => self.error_palette,
        }
    }

    /// The seed colour.
    pub fn source_color_argb(&self) -> (out: u32)
        ensures
            out == self.source_color_argb,
    {
        self.source_color_argb
    }

    /// The seed colour, in HCT.
    pub fn source_color_hct(&self) -> (out: &Hct)
        ensures
            *out == self.source_color_hct,
    {
        &self.source_color_hct
    }

    /// The aesthetic preset.
    pub fn variant(&self) -> (out: &Variant)
        ensures
            *out == self.variant,
    {
        &self.variant
    }

    /// Whether the scheme is dark.
    pub fn is_dark(&self) -> (out: bool)
        ensures
            out == self.is_dark,
    {
        self.is_dark
    }

    /// The kind of device.
    pub fn platform(&self) -> (out: &Platform)
        ensures
            *out == self.platform,
    {
        &self.platform
    }

    /// The contrast level.
    pub fn contrast_level(&self) -> (out: Fixed)
        ensures
            out == self.contrast_level,
    {
        self.contrast_level
    }

    /// The version of the rules.
    pub fn spec_version(&self) -> (out: &SpecVersion)
        ensures
            *out == self.spec_version,
    {
        &self.spec_version
    }

    /// The primary palette.
    pub fn primary_palette(&self) -> (out: TonalPalette)
        ensures
            out.wf(),
            out.key() == self.primary_palette,
    {
        TonalPalette::from_key(self.primary_palette)
    }

    /// The secondary palette.
    pub fn secondary_palette(&self) -> (out: TonalPalette)
        ensures
            out.wf(),
            out.key() == self.secondary_palette,
    {
        TonalPalette::from_key(self.secondary_palette)
    }

    /// The tertiary palette.
    pub fn tertiary_palette(&self) -> (out: TonalPalette)
        ensures
            out.wf(),
            out.key() == self.tertiary_palette,
    {
        TonalPalette::from_key(self.tertiary_palette)
    }

    /// The neutral palette.
    pub fn neutral_palette(&self) -> (out: TonalPalette)
        ensures
            out.wf(),
            out.key() == self.neutral_palette,
    {
        TonalPalette::from_key(self.neutral_palette)
    }

    /// The neutral variant palette.
    pub fn neutral_variant_palette(&self) -> (out: TonalPalette)
        ensures
            out.wf(),
            out.key() == self.neutral_variant_palette,
    {
        TonalPalette::from_key(self.neutral_variant_palette)
    }

    /// The error palette.
    pub fn error_palette(&self) -> (out: TonalPalette)
        ensures
            out.wf(),
            out.key() == self.error_palette,
    {
        TonalPalette::from_key(self.error_palette)
    }
}

/// A palette as a builder is given it: made, or to be made from a colour.
#[derive(Clone, Copy, Debug, PartialEq, Eq, Structural)]
pub enum DynamicSchemePalette {
    /// The colour from which the rules are to make the palette.
    KeyColor(Hct),
    /// The palette itself.
    Palette(PaletteKey),
}

/// Why a scheme cannot be built.
#[derive(Clone, Copy, Debug, PartialEq, Eq, Structural)]
pub enum BuildError {
    /// A part that must be given was not: here, whether the scheme is
    /// dark.
    MissingRequiredField,
}

/// The parts of a scheme, as far as they have been chosen.
#[derive(Clone, Copy, Debug, PartialEq, Eq, Structural)]
pub struct DynamicSchemeBuilder {
    pub source_color_hct: Option<Hct>,
    pub variant: Option<Variant>,
    pub is_dark: Option<bool>,
    pub platform: Option<Platform>,
    pub contrast_level: Option<Fixed>,
    pub spec_version: Option<SpecVersion>,
    pub primary_palette: Option<DynamicSchemePalette>,
    pub secondary_palette: Option<DynamicSchemePalette>,
    pub tertiary_palette: Option<DynamicSchemePalette>,
    pub neutral_palette: Option<DynamicSchemePalette>,
    pub neutral_variant_palette: Option<DynamicSchemePalette>,
    pub error_palette: Option<DynamicSchemePalette>,
}

impl DynamicSchemePalette {
    /// The palette of a kind for a builder's choice: the palette given,
    /// the one that the rules make from the key colour given, or the one
    /// that they make from the source colour.
    pub open spec fn spec_tonal_palette(
        choice: Option<DynamicSchemePalette>,
        kind: PaletteKind,
        spec_version: SpecVersion,
        variant: Variant,
        source_color_hct: Hct,
        is_dark: bool,
        platform: Platform,
        contrast_level: Fixed,
    ) -> PaletteKey {
        match choice {
            Some(DynamicSchemePalette::Palette(palette)) => palette,
            Some(DynamicSchemePalette::KeyColor(key_color)) => palettes_for(
                spec_version,
                kind,
                variant,
                key_color,
                is_dark,
                platform,
                contrast_level,
            ),
            None => palettes_for(
                spec_version,
                kind,
                variant,
                source_color_hct,
                is_dark,
                platform,
                contrast_level,
            ),
        }
    }

    #[verifier::when_used_as_spec(spec_tonal_palette)]
    pub fn tonal_palette(
        choice: Option<DynamicSchemePalette>,
        kind: PaletteKind,
        spec_version: SpecVersion,
        variant: Variant,
        source_color_hct: Hct,
        is_dark: bool,
        platform: Platform,
        contrast_level: Fixed,
    ) -> (out: PaletteKey)
        ensures
            out == Self::spec_tonal_palette(choice, kind, spec_version, variant, source_color_hct, is_dark, platform, contrast_level),
    {
        match choice {
            Some(DynamicSchemePalette::Palette(palette)) => palette,
            Some(DynamicSchemePalette::KeyColor(key_color)) => palettes_for(
                spec_version,
                kind,
                variant,
                key_color,
                is_dark,
                platform,
                contrast_level,
            ),
            None => palettes_for(
                spec_version,
                kind,
                variant,
                source_color_hct,
                is_dark,
                platform,
                contrast_level,
            ),
        }
    }

    /// The error palette for a builder's choice, where the choice or the
    /// rules give one.
    pub open spec fn spec_tonal_palette_or_none(
        choice: Option<DynamicSchemePalette>,
        spec_version: SpecVersion,
        variant: Variant,
        source_color_hct: Hct,
        is_dark: bool,
        platform: Platform,
        contrast_level: Fixed,
    ) -> Option<PaletteKey> {
        match choice {
            Some(DynamicSchemePalette::Palette(palette)) => Some(palette),
            Some(DynamicSchemePalette::KeyColor(key_color)) => error_palette_of(
                spec_version,
                variant,
                key_color,
                platform,
            ),
            None => error_palette_of(spec_version, variant, source_color_hct, platform),
        }
    }

    #[verifier::when_used_as_spec(spec_tonal_palette_or_none)]
    pub fn tonal_palette_or_none(
        choice: Option<DynamicSchemePalette>,
        spec_version: SpecVersion,
        variant: Variant,
        source_color_hct: Hct,
        is_dark: bool,
        platform: Platform,
        contrast_level: Fixed,
    ) -> (out: Option<PaletteKey>)
        ensures
            out == Self::spec_tonal_palette_or_none(choice, spec_version, variant, source_color_hct, is_dark, platform, contrast_level),
    {
        match choice {
            Some(DynamicSchemePalette::Palette(palette)) => Some(palette),
            Some(DynamicSchemePalette::KeyColor(key_color)) => error_palette_of(
                spec_version,
                variant,
                key_color,
                platform,
            ),
            None => error_palette_of(spec_version, variant, source_color_hct, platform),
        }
    }
}

impl DynamicSchemeBuilder {
    /// The builder with nothing chosen.
    pub open spec fn spec_new() -> DynamicSchemeBuilder {
        DynamicSchemeBuilder {
            source_color_hct: None,
            variant: None,
            is_dark: None,
            platform: None,
            contrast_level: None,
            spec_version: None,
            primary_palette: None,
            secondary_palette: None,
            tertiary_palette: None,
            neutral_palette: None,
            neutral_variant_palette: None,
            error_palette: None,
        }
    }

    #[verifier::when_used_as_spec(spec_new)]
    pub fn new() -> (out: DynamicSchemeBuilder)
        ensures
            out == Self::spec_new(),
    {
        DynamicSchemeBuilder {
            source_color_hct: None,
            variant: None,
            is_dark: None,
            platform: None,
            contrast_level: None,
            spec_version: None,
            primary_palette: None,
            secondary_palette: None,
            tertiary_palette: None,
            neutral_palette: None,
            neutral_variant_palette: None,
            error_palette: None,
        }
    }

    /// The builder that builds a given scheme again.
    pub open spec fn spec_from_scheme(scheme: &DynamicScheme) -> DynamicSchemeBuilder {
        DynamicSchemeBuilder {
            source_color_hct: Some(scheme.source_color_hct),
            variant: Some(scheme.variant),
            is_dark: Some(scheme.is_dark),
            platform: Some(scheme.platform),
            contrast_level: Some(scheme.contrast_level),
            spec_version: Some(scheme.spec_version),
            primary_palette: Some(DynamicSchemePalette::Palette(scheme.primary_palette)),
            secondary_palette: Some(DynamicSchemePalette::Palette(scheme.secondary_palette)),
            tertiary_palette: Some(DynamicSchemePalette::Palette(scheme.tertiary_palette)),
            neutral_palette: Some(DynamicSchemePalette::Palette(scheme.neutral_palette)),
            neutral_variant_palette: Some(
                DynamicSchemePalette::Palette(scheme.neutral_variant_palette),
            ),
            error_palette: Some(DynamicSchemePalette::Palette(scheme.error_palette)),
        }
    }

    #[verifier::when_used_as_spec(spec_from_scheme)]
    pub fn from_scheme(scheme: &DynamicScheme) -> (out: DynamicSchemeBuilder)
        ensures
            out == Self::spec_from_scheme(scheme),
    {
        DynamicSchemeBuilder {
            source_color_hct: Some(scheme.source_color_hct),
            variant: Some(scheme.variant),
            is_dark: Some(scheme.is_dark),
            platform: Some(scheme.platform),
            contrast_level: Some(scheme.contrast_level),
            spec_version: Some(scheme.spec_version),
            primary_palette: Some(DynamicSchemePalette::Palette(scheme.primary_palette)),
            secondary_palette: Some(DynamicSchemePalette::Palette(scheme.secondary_palette)),
            tertiary_palette: Some(DynamicSchemePalette::Palette(scheme.tertiary_palette)),
            neutral_palette: Some(DynamicSchemePalette::Palette(scheme.neutral_palette)),
            neutral_variant_palette: Some(
                DynamicSchemePalette::Palette(scheme.neutral_variant_palette),
            ),
            error_palette: Some(DynamicSchemePalette::Palette(scheme.error_palette)),
        }
    }

    /// The seed colour.
    pub fn source_color_hct(self, source_color_hct: Hct) -> (out: Self)
        ensures
            out == (DynamicSchemeBuilder { source_color_hct: Some(source_color_hct), ..self }),
    {
        DynamicSchemeBuilder { source_color_hct: Some(source_color_hct), ..self }
    }

    /// The aesthetic preset.
    pub fn variant(self, variant: Variant) -> (out: Self)
        ensures
            out == (DynamicSchemeBuilder { variant: Some(variant), ..self }),
    {
        DynamicSchemeBuilder { variant: Some(variant), ..self }
    }

    /// Whether the scheme is dark.
    pub fn is_dark(self, is_dark: bool) -> (out: Self)
        ensures
            out == (DynamicSchemeBuilder { is_dark: Some(is_dark), ..self }),
    {
        DynamicSchemeBuilder { is_dark: Some(is_dark), ..self }
    }

    /// The kind of device.
    pub fn platform(self, platform: Platform) -> (out: Self)
        ensures
            out == (DynamicSchemeBuilder { platform: Some(platform), ..self }),
    {
        DynamicSchemeBuilder { platform: Some(platform), ..self }
    }

    /// The contrast level, from -1 to 1.
    pub fn contrast_level(self, contrast_level: Fixed) -> (out: Self)
        ensures
            out == (DynamicSchemeBuilder { contrast_level: Some(contrast_level), ..self }),
    {
        DynamicSchemeBuilder { contrast_level: Some(contrast_level), ..self }
    }

    /// The version of the rules.
    pub fn spec_version(self, spec_version: SpecVersion) -> (out: Self)
        ensures
            out == (DynamicSchemeBuilder { spec_version: Some(spec_version), ..self }),
    {
        DynamicSchemeBuilder { spec_version: Some(spec_version), ..self }
    }

    /// The primary palette, ready made.
    pub fn primary_palette(self, primary_palette: &TonalPalette) -> (out: Self)
        ensures
            out == (DynamicSchemeBuilder { primary_palette: Some(DynamicSchemePalette::Palette(primary_palette.key())), ..self }),
    {
        DynamicSchemeBuilder { primary_palette: Some(DynamicSchemePalette::Palette(primary_palette.key())), ..self }
    }

    /// The secondary palette, ready made.
    pub fn secondary_palette(self, secondary_palette: &TonalPalette) -> (out: Self)
        ensures
            out == (DynamicSchemeBuilder { secondary_palette: Some(DynamicSchemePalette::Palette(secondary_palette.key())), ..self }),
    {
        DynamicSchemeBuilder { secondary_palette: Some(DynamicSchemePalette::Palette(secondary_palette.key())), ..self }
    }

    /// The tertiary palette, ready made.
    pub fn tertiary_palette(self, tertiary_palette: &TonalPalette) -> (out: Self)
        ensures
            out == (DynamicSchemeBuilder { tertiary_palette: Some(DynamicSchemePalette::Palette(tertiary_palette.key())), ..self }),
    {
        DynamicSchemeBuilder { tertiary_palette: Some(DynamicSchemePalette::Palette(tertiary_palette.key())), ..self }
    }

    /// The neutral palette, ready made.
    pub fn neutral_palette(self, neutral_palette: &TonalPalette) -> (out: Self)
        ensures
            out == (DynamicSchemeBuilder { neutral_palette: Some(DynamicSchemePalette::Palette(neutral_palette.key())), ..self }),
    {
        DynamicSchemeBuilder { neutral_palette: Some(DynamicSchemePalette::Palette(neutral_palette.key())), ..self }
    }

    /// The neutral variant palette, ready made.
    pub fn neutral_variant_palette(self, neutral_variant_palette: &TonalPalette) -> (out: Self)
        ensures
            out == (DynamicSchemeBuilder { neutral_variant_palette: Some(DynamicSchemePalette::Palette(neutral_variant_palette.key())), ..self }),
    {
        DynamicSchemeBuilder { neutral_variant_palette: Some(DynamicSchemePalette::Palette(neutral_variant_palette.key())), ..self }
    }

    /// The error palette, ready made.
    pub fn error_palette(self, error_palette: &TonalPalette) -> (out: Self)
        ensures
            out == (DynamicSchemeBuilder { error_palette: Some(DynamicSchemePalette::Palette(error_palette.key())), ..self }),
    {
        DynamicSchemeBuilder { error_palette: Some(DynamicSchemePalette::Palette(error_palette.key())), ..self }
    }

    /// The colour from which the rules make the primary palette.
    pub fn primary_palette_key_color(self, primary_palette_key_color: Hct) -> (out: Self)
        ensures
            out == (DynamicSchemeBuilder { primary_palette: Some(DynamicSchemePalette::KeyColor(primary_palette_key_color)), ..self }),
    {
        DynamicSchemeBuilder { primary_palette: Some(DynamicSchemePalette::KeyColor(primary_palette_key_color)), ..self }
    }

    /// The colour from which the rules make the secondary palette.
    pub fn secondary_palette_key_color(self, secondary_palette_key_color: Hct) -> (out: Self)
        ensures
            out == (DynamicSchemeBuilder { secondary_palette: Some(DynamicSchemePalette::KeyColor(secondary_palette_key_color)), ..self }),
    {
        DynamicSchemeBuilder { secondary_palette: Some(DynamicSchemePalette::KeyColor(secondary_palette_key_color)), ..self }
    }

    /// The colour from which the rules make the tertiary palette.
    pub fn tertiary_palette_key_color(self, tertiary_palette_key_color: Hct) -> (out: Self)
        ensures
            out == (DynamicSchemeBuilder { tertiary_palette: Some(DynamicSchemePalette::KeyColor(tertiary_palette_key_color)), ..self }),
    {
        DynamicSchemeBuilder { tertiary_palette: Some(DynamicSchemePalette::KeyColor(tertiary_palette_key_color)), ..self }
    }

    /// The colour from which the rules make the neutral palette.
    pub fn neutral_palette_key_color(self, neutral_palette_key_color: Hct) -> (out: Self)
        ensures
            out == (DynamicSchemeBuilder { neutral_palette: Some(DynamicSchemePalette::KeyColor(neutral_palette_key_color)), ..self }),
    {
        DynamicSchemeBuilder { neutral_palette: Some(DynamicSchemePalette::KeyColor(neutral_palette_key_color)), ..self }
    }

    /// The colour from which the rules make the neutral variant palette.
    pub fn neutral_variant_palette_key_color(self, neutral_variant_palette_key_color: Hct) -> (out: Self)
        ensures
            out == (DynamicSchemeBuilder { neutral_variant_palette: Some(DynamicSchemePalette::KeyColor(neutral_variant_palette_key_color)), ..self }),
    {
        DynamicSchemeBuilder { neutral_variant_palette: Some(DynamicSchemePalette::KeyColor(neutral_variant_palette_key_color)), ..self }
    }

    /// The colour from which the rules make the error palette.
    pub fn error_palette_key_color(self, error_palette_key_color: Hct) -> (out: Self)
        ensures
            out == (DynamicSchemeBuilder { error_palette: Some(DynamicSchemePalette::KeyColor(error_palette_key_color)), ..self }),
    {
        DynamicSchemeBuilder { error_palette: Some(DynamicSchemePalette::KeyColor(error_palette_key_color)), ..self }
    }

    /// The scheme of what has been chosen. What has not been chosen is:
    /// the source colour `0xff6750a4`, the variant tonal spot, a light
    /// scheme, the platform phone, the contrast level 0, the rules of
    /// 2021, and for each palette what the rules make of the source
    /// colour; the error palette, where the rules make none, has hue 25
    /// and chroma 84.
    pub open spec fn spec_build(self) -> DynamicScheme {
        let source_color_hct = match self.source_color_hct {
            Some(hct) => hct,
            None => Hct::from_int(DEFAULT_SOURCE_COLOR),
        };
        let variant = match self.variant {
            Some(variant) => variant,
            None => Variant::TonalSpot,
        };
        let is_dark = match self.is_dark {
            Some(is_dark) => is_dark,
            None => false,
        };
        let platform = match self.platform {
            Some(platform) => platform,
            None => DynamicScheme::default_platform(),
        };
        let contrast_level = match self.contrast_level {
            Some(contrast_level) => contrast_level,
            None => Fixed::from_int(0),
        };
        let spec_version = match self.spec_version {
            Some(spec_version) => spec_version,
            None => DynamicScheme::default_spec_version(),
        };
        DynamicScheme::new(
            source_color_hct,
            variant,
            is_dark,
            platform,
            contrast_level,
            spec_version,
            DynamicSchemePalette::tonal_palette(self.primary_palette, PaletteKind::Primary, spec_version, variant, source_color_hct, is_dark, platform, contrast_level),
            DynamicSchemePalette::tonal_palette(self.secondary_palette, PaletteKind::Secondary, spec_version, variant, source_color_hct, is_dark, platform, contrast_level),
            DynamicSchemePalette::tonal_palette(self.tertiary_palette, PaletteKind::Tertiary, spec_version, variant, source_color_hct, is_dark, platform, contrast_level),
            DynamicSchemePalette::tonal_palette(self.neutral_palette, PaletteKind::Neutral, spec_version, variant, source_color_hct, is_dark, platform, contrast_level),
            DynamicSchemePalette::tonal_palette(self.neutral_variant_palette, PaletteKind::NeutralVariant, spec_version, variant, source_color_hct, is_dark, platform, contrast_level),
            error_palette_or_default(DynamicSchemePalette::tonal_palette_or_none(self.error_palette, spec_version, variant, source_color_hct, is_dark, platform, contrast_level)),
        )
    }

    #[verifier::when_used_as_spec(spec_build)]
    pub fn build(self) -> (out: DynamicScheme)
        ensures
            out == self.spec_build(),
    {
        let source_color_hct = match self.source_color_hct {
            Some(hct) => hct,
            None => Hct::from_int(DEFAULT_SOURCE_COLOR),
        };
        let variant = match self.variant {
            Some(variant) => variant,
            None => Variant::TonalSpot,
        };
        let is_dark = match self.is_dark {
            Some(is_dark) => is_dark,
            None => false,
        };
        let platform = match self.platform {
            Some(platform) => platform,
            None => DynamicScheme::default_platform(),
        };
        let contrast_level = match self.contrast_level {
            Some(contrast_level) => contrast_level,
            None => Fixed::from_int(0),
        };
        let spec_version = match self.spec_version {
            Some(spec_version) => spec_version,
            None => DynamicScheme::default_spec_version(),
        };
        DynamicScheme::new(
            source_color_hct,
            variant,
            is_dark,
            platform,
            contrast_level,
            spec_version,
            DynamicSchemePalette::tonal_palette(self.primary_palette, PaletteKind::Primary, spec_version, variant, source_color_hct, is_dark, platform, contrast_level),
            DynamicSchemePalette::tonal_palette(self.secondary_palette, PaletteKind::Secondary, spec_version, variant, source_color_hct, is_dark, platform, contrast_level),
            DynamicSchemePalette::tonal_palette(self.tertiary_palette, PaletteKind::Tertiary, spec_version, variant, source_color_hct, is_dark, platform, contrast_level),
            DynamicSchemePalette::tonal_palette(self.neutral_palette, PaletteKind::Neutral, spec_version, variant, source_color_hct, is_dark, platform, contrast_level),
            DynamicSchemePalette::tonal_palette(self.neutral_variant_palette, PaletteKind::NeutralVariant, spec_version, variant, source_color_hct, is_dark, platform, contrast_level),
            error_palette_or_default(DynamicSchemePalette::tonal_palette_or_none(self.error_palette, spec_version, variant, source_color_hct, is_dark, platform, contrast_level)),
        )
    }

    /// The scheme of what has been chosen, for a caller who must say
    /// whether the scheme is dark: without that choice there is no scheme.
    pub fn try_build(self) -> (out: Result<DynamicScheme, BuildError>)
        ensures
            self.is_dark.is_some() ==> out == Ok::<DynamicScheme, BuildError>(self.spec_build()),
            self.is_dark.is_none() ==> out == Err::<DynamicScheme, BuildError>(
                BuildError::MissingRequiredField,
            ),
    {
        match self.is_dark {
            Some(_) => Ok(self.build()),
            None => Err(BuildError::MissingRequiredField),
        }
    }
}

/// The choices that shape a scheme, as far as a caller makes them.
#[derive(Clone, Copy, Debug, PartialEq, Eq, Structural)]
pub struct DynamicSchemeOptions {
    pub is_dark: Option<bool>,
    pub variant: Option<Variant>,
    pub platform: Option<Platform>,
    pub spec_version: Option<SpecVersion>,
}

impl DynamicSchemeOptions {
    /// The builder with these choices made and no others.
    pub open spec fn spec_builder(&self) -> DynamicSchemeBuilder {
        DynamicSchemeBuilder {
            source_color_hct: None,
            variant: self.variant,
            is_dark: self.is_dark,
            platform: self.platform,
            contrast_level: None,
            spec_version: self.spec_version,
            primary_palette: None,
            secondary_palette: None,
            tertiary_palette: None,
            neutral_palette: None,
            neutral_variant_palette: None,
            error_palette: None,
        }
    }

    #[verifier::when_used_as_spec(spec_builder)]
    pub fn builder(&self) -> (out: DynamicSchemeBuilder)
        ensures
            out == self.spec_builder(),
    {
        DynamicSchemeBuilder {
            source_color_hct: None,
            variant: self.variant,
            is_dark: self.is_dark,
            platform: self.platform,
            contrast_level: None,
            spec_version: self.spec_version,
            primary_palette: None,
            secondary_palette: None,
            tertiary_palette: None,
            neutral_palette: None,
            neutral_variant_palette: None,
            error_palette: None,
        }
    }

    /// The scheme of these choices for the default source colour.
    pub fn scheme(&self) -> (out: DynamicScheme)
        ensures
            out == self.builder().spec_build(),
    {
        self.builder().build()
    }
}

/// A platform together with a version of the rules that knows it: the
/// rules of 2021 know the phone only.
#[derive(Clone, Copy, Debug, PartialEq, Eq, Hash, Structural)]
pub enum PlatformAndSpecVersion {
    Phone2021,
    Phone2025,
    Watch2025,
}

impl PlatformAndSpecVersion {
    /// The platform.
    pub open spec fn spec_platform(&self) -> Platform {
        match self {
            PlatformAndSpecVersion::Phone2021 | PlatformAndSpecVersion::Phone2025 => Platform::Phone,
            PlatformAndSpecVersion::Watch2025 => Platform::Watch,
        }
    }

    #[verifier::when_used_as_spec(spec_platform)]
    pub fn platform(&self) -> (out: Platform)
        ensures
            out == self.spec_platform(),
    {
        match self {
            PlatformAndSpecVersion::Phone2021 | PlatformAndSpecVersion::Phone2025 => Platform::Phone,
            PlatformAndSpecVersion::Watch2025 => Platform::Watch,
        }
    }

    /// The version of the rules.
    pub open spec fn spec_spec_version(&self) -> SpecVersion {
        match self {
            PlatformAndSpecVersion::Phone2021 => SpecVersion::Spec2021,
            PlatformAndSpecVersion::Phone2025 | PlatformAndSpecVersion::Watch2025 =>
                SpecVersion::Spec2025,
        }
    }

    #[verifier::when_used_as_spec(spec_spec_version)]
    pub fn spec_version(&self) -> (out: SpecVersion)
        ensures
            out == self.spec_spec_version(),
    {
        match self {
            PlatformAndSpecVersion::Phone2021 => SpecVersion::Spec2021,
            PlatformAndSpecVersion::Phone2025 | PlatformAndSpecVersion::Watch2025 =>
                SpecVersion::Spec2025,
        }
    }

    /// The combination for a platform and a version; for a watch under
    /// the rules of 2021, which is none, a watch under those of 2025.
    pub open spec fn spec_of(
        platform: Platform,
        spec_version: SpecVersion,
    ) -> PlatformAndSpecVersion {
        match (platform, spec_version) {
            (Platform::Phone, SpecVersion::Spec2021) => PlatformAndSpecVersion::Phone2021,
            (Platform::Phone, SpecVersion::Spec2025) => PlatformAndSpecVersion::Phone2025,
            (Platform::Watch, _) => PlatformAndSpecVersion::Watch2025,
        }
    }

    #[verifier::when_used_as_spec(spec_of)]
    pub fn of(platform: Platform, spec_version: SpecVersion) -> (out: PlatformAndSpecVersion)
        ensures
            out == Self::spec_of(platform, spec_version),
    {
        match (platform, spec_version) {
            (Platform::Phone, SpecVersion::Spec2021) => PlatformAndSpecVersion::Phone2021,
            (Platform::Phone, SpecVersion::Spec2025) => PlatformAndSpecVersion::Phone2025,
            (Platform::Watch, _) => PlatformAndSpecVersion::Watch2025,
        }
    }
}

/// A combination is that of its own platform and version.
pub proof fn lemma_combination_round_trips(combination: PlatformAndSpecVersion)
    ensures
        PlatformAndSpecVersion::of(combination.platform(), combination.spec_version())
            == combination,
{
}

impl Default for DynamicSchemeBuilder {
    /// The builder with nothing chosen.
    fn default() -> (out: Self)
        ensures
            out == DynamicSchemeBuilder::new(),
    {
        DynamicSchemeBuilder::new()
    }
}

impl<'a> From<&'a DynamicScheme> for DynamicSchemeBuilder {
    /// The builder that builds a given scheme again.
    fn from(scheme: &'a DynamicScheme) -> (out: Self) {
        DynamicSchemeBuilder::from_scheme(scheme)
    }
}

impl<'a> vstd::std_specs::convert::FromSpecImpl<&'a DynamicScheme> for DynamicSchemeBuilder {
    open spec fn obeys_from_spec() -> bool {
        true
    }

    open spec fn from_spec(scheme: &'a DynamicScheme) -> Self {
        DynamicSchemeBuilder::spec_from_scheme(scheme)
    }
}

impl From<DynamicScheme> for DynamicSchemeBuilder {
    /// The builder that builds a given scheme again.
    fn from(scheme: DynamicScheme) -> (out: Self) {
        DynamicSchemeBuilder::from_scheme(&scheme)
    }
}

impl vstd::std_specs::convert::FromSpecImpl<DynamicScheme> for DynamicSchemeBuilder {
    open spec fn obeys_from_spec() -> bool {
        true
    }

    open spec fn from_spec(scheme: DynamicScheme) -> Self {
        DynamicSchemeBuilder::spec_from_scheme(&scheme)
    }
}

} // verus!
