//! The versions of the rules by which a scheme is resolved.
use vstd::prelude::*;
use crate::dynamiccolor::color_calculation_spec::{ColorCalculationSpec, ToneInputs};
use crate::dynamiccolor::color_calculation_spec_2021::ColorCalculationSpec2021;
use crate::dynamiccolor::color_calculation_spec_2025::ColorCalculationSpec2025;
use crate::dynamiccolor::color_spec::ColorSpec;
use crate::dynamiccolor::color_spec_2021::ColorSpec2021;
use crate::dynamiccolor::color_spec_2025::ColorSpec2025;
use crate::dynamiccolor::dynamic_color::RoleDefinition;
use crate::dynamiccolor::dynamic_scheme::DynamicScheme;
use crate::dynamiccolor::palettes_spec::PalettesSpec;
use crate::dynamiccolor::palettes_spec_2021::PalettesSpec2021;
use crate::dynamiccolor::palettes_spec_2025::PalettesSpec2025;
use crate::dynamiccolor::platform::Platform;
use crate::dynamiccolor::role::Role;
use crate::dynamiccolor::variant::Variant;
use crate::fixed::Fixed;
use crate::hct::hct::Hct;
use crate::palettes::tonal_palette::PaletteKey;

verus! {

/// The version of the rules by which palettes are made and roles resolved.
#[derive(Clone, Copy, Debug, PartialEq, Eq, Structural)]
pub enum SpecVersion {
    Spec2021,
    Spec2025,
}

/// The rules of one version that define the roles.
#[derive(Clone, Copy, Debug, PartialEq, Eq, Structural)]
pub enum VersionColorSpec {
    Spec2021(ColorSpec2021),
    Spec2025(ColorSpec2025),
}

/// The rules of one version that resolve tones.
#[derive(Clone, Copy, Debug, PartialEq, Eq, Structural)]
pub enum VersionColorCalculationSpec {
    Spec2021(ColorCalculationSpec2021),
    Spec2025(ColorCalculationSpec2025),
}

/// The rules of one version that make palettes.
#[derive(Clone, Copy, Debug, PartialEq, Eq, Structural)]
pub enum VersionPalettesSpec {
    Spec2021(PalettesSpec2021),
    Spec2025(PalettesSpec2025),
}

impl SpecVersion {
    /// The year of the version.
    pub open spec fn spec_year(self) -> u16 {
        match self {
            SpecVersion::Spec2021 => 2021,
            SpecVersion::Spec2025 => 2025,
        }
    }

    #[verifier::when_used_as_spec(spec_year)]
    pub fn year(self) -> (out: u16)
        ensures
            out == self.spec_year(),
    {
        match self {
            SpecVersion::Spec2021 => 2021,
            SpecVersion::Spec2025 => 2025,
        }
    }

    /// The version as text: its year.
    pub fn label(self) -> (out: &'static str)
        ensures
            self == SpecVersion::Spec2021 ==> out@ == "2021"@,
            self == SpecVersion::Spec2025 ==> out@ == "2025"@,
    {
        match self {
            SpecVersion::Spec2021 => "2021",
            SpecVersion::Spec2025 => "2025",
        }
    }

    /// The rules of this version that define the roles.
    pub open spec fn spec_color_spec(&self) -> VersionColorSpec {
        match self {
            SpecVersion::Spec2021 => VersionColorSpec::Spec2021(ColorSpec2021),
            SpecVersion::Spec2025 => VersionColorSpec::Spec2025(ColorSpec2025),
        }
    }

    #[verifier::when_used_as_spec(spec_color_spec)]
    pub fn color_spec(&self) -> (out: VersionColorSpec)
        ensures
            out == self.spec_color_spec(),
    {
        match self {
            SpecVersion::Spec2021 => VersionColorSpec::Spec2021(ColorSpec2021),
            SpecVersion::Spec2025 => VersionColorSpec::Spec2025(ColorSpec2025),
        }
    }

    /// The rules of this version that resolve tones.
    pub open spec fn spec_color_calculation_spec(&self) -> VersionColorCalculationSpec {
        match self {
            SpecVersion::Spec2021 => VersionColorCalculationSpec::Spec2021(ColorCalculationSpec2021),
            SpecVersion::Spec2025 => VersionColorCalculationSpec::Spec2025(ColorCalculationSpec2025),
        }
    }

    #[verifier::when_used_as_spec(spec_color_calculation_spec)]
    pub fn color_calculation_spec(&self) -> (out: VersionColorCalculationSpec)
        ensures
            out == self.spec_color_calculation_spec(),
    {
        match self {
            SpecVersion::Spec2021 => VersionColorCalculationSpec::Spec2021(ColorCalculationSpec2021),
            SpecVersion::Spec2025 => VersionColorCalculationSpec::Spec2025(ColorCalculationSpec2025),
        }
    }

    /// The rules of this version that make palettes.
    pub open spec fn spec_palettes_spec(&self) -> VersionPalettesSpec {
        match self {
            SpecVersion::Spec2021 => VersionPalettesSpec::Spec2021(PalettesSpec2021),
            SpecVersion::Spec2025 => VersionPalettesSpec::Spec2025(PalettesSpec2025),
        }
    }

    #[verifier::when_used_as_spec(spec_palettes_spec)]
    pub fn palettes_spec(&self) -> (out: VersionPalettesSpec)
        ensures
            out == self.spec_palettes_spec(),
    {
        match self {
            SpecVersion::Spec2021 => VersionPalettesSpec::Spec2021(PalettesSpec2021),
            SpecVersion::Spec2025 => VersionPalettesSpec::Spec2025(PalettesSpec2025),
        }
    }
}

impl ColorSpec for VersionColorSpec {
    fn definition(&self, role: Role, scheme: &DynamicScheme) -> (out: Option<RoleDefinition>)
        ensures
            out == match self {
                VersionColorSpec::Spec2021(_) => ColorSpec2021::definition(role, scheme),
                VersionColorSpec::Spec2025(_) => Some(ColorSpec2025::definition(role, scheme)),
            },
    {
        match self {
            VersionColorSpec::Spec2021(rules) => rules.definition(role, scheme),
            VersionColorSpec::Spec2025(rules) => rules.definition(role, scheme),
        }
    }

    fn highest_surface(&self, scheme: &DynamicScheme) -> (out: Role)
        ensures
            out == match self {
                VersionColorSpec::Spec2021(_) => ColorSpec2021::highest_surface(scheme),
                VersionColorSpec::Spec2025(_) => ColorSpec2025::highest_surface(scheme),
            },
    {
        match self {
            VersionColorSpec::Spec2021(rules) => rules.highest_surface(scheme),
            VersionColorSpec::Spec2025(rules) => rules.highest_surface(scheme),
        }
    }
}

impl ColorCalculationSpec for VersionColorCalculationSpec {
    fn get_hct(&self, scheme: &DynamicScheme, definition: &RoleDefinition, tone: Fixed) -> (out: Hct)
        ensures
            out == match self {
                VersionColorCalculationSpec::Spec2021(_) => ColorCalculationSpec2021::hct(
                    scheme,
                    definition,
                    tone,
                ),
                VersionColorCalculationSpec::Spec2025(_) => ColorCalculationSpec2025::hct(
                    scheme,
                    definition,
                    tone,
                ),
            },
    {
        match self {
            VersionColorCalculationSpec::Spec2021(rules) => rules.get_hct(scheme, definition, tone),
            VersionColorCalculationSpec::Spec2025(rules) => rules.get_hct(scheme, definition, tone),
        }
    }

    fn get_tone(&self, scheme: &DynamicScheme, definition: &RoleDefinition, inputs: &ToneInputs) -> (out: Fixed)
        ensures
            out == match self {
                VersionColorCalculationSpec::Spec2021(_) => ColorCalculationSpec2021::tone(
                    scheme,
                    definition,
                    inputs,
                ),
                VersionColorCalculationSpec::Spec2025(_) => ColorCalculationSpec2025::tone(
                    scheme,
                    definition,
                    inputs,
                ),
            },
    {
        match self {
            VersionColorCalculationSpec::Spec2021(rules) => rules.get_tone(
                scheme,
                definition,
                inputs,
            ),
            VersionColorCalculationSpec::Spec2025(rules) => rules.get_tone(
                scheme,
                definition,
                inputs,
            ),
        }
    }
}

impl PalettesSpec for VersionPalettesSpec {
    fn primary_palette(&self, variant: &Variant, source_color_hct: &Hct, is_dark: bool, platform: &Platform, contrast_level: Fixed) -> (out: PaletteKey)
        ensures
            out == match self {
                VersionPalettesSpec::Spec2021(_) => PalettesSpec2021::primary(
                    *variant,
                    *source_color_hct,
                ),
                VersionPalettesSpec::Spec2025(_) => PalettesSpec2025::primary(
                    *variant,
                    *source_color_hct,
                    is_dark,
                    *platform,
                ),
            },
    {
        match self {
            VersionPalettesSpec::Spec2021(rules) => rules.primary_palette(
                variant,
                source_color_hct,
                is_dark,
                platform,
                contrast_level,
            ),
            VersionPalettesSpec::Spec2025(rules) => rules.primary_palette(
                variant,
                source_color_hct,
                is_dark,
                platform,
                contrast_level,
            ),
        }
    }

    fn secondary_palette(&self, variant: &Variant, source_color_hct: &Hct, is_dark: bool, platform: &Platform, contrast_level: Fixed) -> (out: PaletteKey)
        ensures
            out == match self {
                VersionPalettesSpec::Spec2021(_) => PalettesSpec2021::secondary(
                    *variant,
                    *source_color_hct,
                ),
                VersionPalettesSpec::Spec2025(_) => PalettesSpec2025::secondary(
                    *variant,
                    *source_color_hct,
                    is_dark,
                    *platform,
                ),
            },
    {
        match self {
            VersionPalettesSpec::Spec2021(rules) => rules.secondary_palette(
                variant,
                source_color_hct,
                is_dark,
                platform,
                contrast_level,
            ),
            VersionPalettesSpec::Spec2025(rules) => rules.secondary_palette(
                variant,
                source_color_hct,
                is_dark,
                platform,
                contrast_level,
            ),
        }
    }

    fn tertiary_palette(&self, variant: &Variant, source_color_hct: &Hct, is_dark: bool, platform: &Platform, contrast_level: Fixed) -> (out: PaletteKey)
        ensures
            out == match self {
                VersionPalettesSpec::Spec2021(_) => PalettesSpec2021::tertiary(
                    *variant,
                    *source_color_hct,
                ),
                VersionPalettesSpec::Spec2025(_) => PalettesSpec2025::tertiary(
                    *variant,
                    *source_color_hct,
                    *platform,
                ),
            },
    {
        match self {
            VersionPalettesSpec::Spec2021(rules) => rules.tertiary_palette(
                variant,
                source_color_hct,
                is_dark,
                platform,
                contrast_level,
            ),
            VersionPalettesSpec::Spec2025(rules) => rules.tertiary_palette(
                variant,
                source_color_hct,
                is_dark,
                platform,
                contrast_level,
            ),
        }
    }

    fn neutral_palette(&self, variant: &Variant, source_color_hct: &Hct, is_dark: bool, platform: &Platform, contrast_level: Fixed) -> (out: PaletteKey)
        ensures
            out == match self {
                VersionPalettesSpec::Spec2021(_) => PalettesSpec2021::neutral(
                    *variant,
                    *source_color_hct,
                ),
                VersionPalettesSpec::Spec2025(_) => PalettesSpec2025::neutral(
                    *variant,
                    *source_color_hct,
                    is_dark,
                    *platform,
                ),
            },
    {
        match self {
            VersionPalettesSpec::Spec2021(rules) => rules.neutral_palette(
                variant,
                source_color_hct,
                is_dark,
                platform,
                contrast_level,
            ),
            VersionPalettesSpec::Spec2025(rules) => rules.neutral_palette(
                variant,
                source_color_hct,
                is_dark,
                platform,
                contrast_level,
            ),
        }
    }

    fn neutral_variant_palette(&self, variant: &Variant, source_color_hct: &Hct, is_dark: bool, platform: &Platform, contrast_level: Fixed) -> (out: PaletteKey)
        ensures
            out == match self {
                VersionPalettesSpec::Spec2021(_) => PalettesSpec2021::neutral_variant(
                    *variant,
                    *source_color_hct,
                ),
                VersionPalettesSpec::Spec2025(_) => PalettesSpec2025::neutral_variant(
                    *variant,
                    *source_color_hct,
                    is_dark,
                    *platform,
                ),
            },
    {
        match self {
            VersionPalettesSpec::Spec2021(rules) => rules.neutral_variant_palette(
                variant,
                source_color_hct,
                is_dark,
                platform,
                contrast_level,
            ),
            VersionPalettesSpec::Spec2025(rules) => rules.neutral_variant_palette(
                variant,
                source_color_hct,
                is_dark,
                platform,
                contrast_level,
            ),
        }
    }

    fn error_palette(&self, variant: &Variant, source_color_hct: &Hct, is_dark: bool, platform: &Platform, contrast_level: Fixed) -> (out: Option<PaletteKey>)
        ensures
            out == match self {
                VersionPalettesSpec::Spec2021(_) => None,
                VersionPalettesSpec::Spec2025(_) => PalettesSpec2025::error(
                    *variant,
                    *source_color_hct,
                    *platform,
                ),
            },
    {
        match self {
            VersionPalettesSpec::Spec2021(rules) => rules.error_palette(
                variant,
                source_color_hct,
                is_dark,
                platform,
                contrast_level,
            ),
            VersionPalettesSpec::Spec2025(rules) => rules.error_palette(
                variant,
                source_color_hct,
                is_dark,
                platform,
                contrast_level,
            ),
        }
    }
}

} // verus!
