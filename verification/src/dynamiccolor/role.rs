//! The named roles of a user interface.
use vstd::prelude::*;

verus! {

/// One of the six tonal palettes of a scheme.
#[derive(Clone, Copy, Debug, PartialEq, Eq, Hash, Structural)]
pub enum PaletteKind {
    Primary,
    Secondary,
    Tertiary,
    Neutral,
    NeutralVariant,
    Error,
}

/// A named role: a place in a user interface that has a colour.
#[derive(Clone, Copy, Debug, PartialEq, Eq, Hash, Structural)]
pub enum Role {
    PrimaryPaletteKeyColor,
    SecondaryPaletteKeyColor,
    TertiaryPaletteKeyColor,
    NeutralPaletteKeyColor,
    NeutralVariantPaletteKeyColor,
    ErrorPaletteKeyColor,
    Background,
    OnBackground,
    Surface,
    SurfaceDim,
    SurfaceBright,
    SurfaceContainerLowest,
    SurfaceContainerLow,
    SurfaceContainer,
    SurfaceContainerHigh,
    SurfaceContainerHighest,
    OnSurface,
    SurfaceVariant,
    OnSurfaceVariant,
    InverseSurface,
    InverseOnSurface,
    Outline,
    OutlineVariant,
    Shadow,
    Scrim,
    SurfaceTint,
    Primary,
    PrimaryDim,
    OnPrimary,
    PrimaryContainer,
    OnPrimaryContainer,
    InversePrimary,
    PrimaryFixed,
    PrimaryFixedDim,
    OnPrimaryFixed,
    OnPrimaryFixedVariant,
    Secondary,
    SecondaryDim,
    OnSecondary,
    SecondaryContainer,
    OnSecondaryContainer,
    SecondaryFixed,
    SecondaryFixedDim,
    OnSecondaryFixed,
    OnSecondaryFixedVariant,
    Tertiary,
    TertiaryDim,
    OnTertiary,
    TertiaryContainer,
    OnTertiaryContainer,
    TertiaryFixed,
    TertiaryFixedDim,
    OnTertiaryFixed,
    OnTertiaryFixedVariant,
    Error,
    ErrorDim,
    OnError,
    ErrorContainer,
    OnErrorContainer,
    ControlActivated,
    ControlNormal,
    ControlHighlight,
    TextPrimaryInverse,
    TextSecondaryAndTertiaryInverse,
    TextPrimaryInverseDisableOnly,
    TextSecondaryAndTertiaryInverseDisabled,
    TextHintInverse,
}

/// The number of roles.
pub const ROLE_COUNT: usize = 67;

impl Role {
    /// The name of the role, in snake case.
    pub fn name(self) -> (out: &'static str)
        ensures
            out@ == self.spec_name(),
    {
        match self {
            Role::PrimaryPaletteKeyColor => "primary_palette_key_color",
            Role::SecondaryPaletteKeyColor => "secondary_palette_key_color",
            Role::TertiaryPaletteKeyColor => "tertiary_palette_key_color",
            Role::NeutralPaletteKeyColor => "neutral_palette_key_color",
            Role::NeutralVariantPaletteKeyColor => "neutral_variant_palette_key_color",
            Role::ErrorPaletteKeyColor => "error_palette_key_color",
            Role::Background => "background",
            Role::OnBackground => "on_background",
            Role::Surface => "surface",
            Role::SurfaceDim => "surface_dim",
            Role::SurfaceBright => "surface_bright",
            Role::SurfaceContainerLowest => "surface_container_lowest",
            Role::SurfaceContainerLow => "surface_container_low",
            Role::SurfaceContainer => "surface_container",
            Role::SurfaceContainerHigh => "surface_container_high",
            Role::SurfaceContainerHighest => "surface_container_highest",
            Role::OnSurface => "on_surface",
            Role::SurfaceVariant => "surface_variant",
            Role::OnSurfaceVariant => "on_surface_variant",
            Role::InverseSurface => "inverse_surface",
            Role::InverseOnSurface => "inverse_on_surface",
            Role::Outline => "outline",
            Role::OutlineVariant => "outline_variant",
            Role::Shadow => "shadow",
            Role::Scrim => "scrim",
            Role::SurfaceTint => "surface_tint",
            Role::Primary => "primary",
            Role::PrimaryDim => "primary_dim",
            Role::OnPrimary => "on_primary",
            Role::PrimaryContainer => "primary_container",
            Role::OnPrimaryContainer => "on_primary_container",
            Role::InversePrimary => "inverse_primary",
            Role::PrimaryFixed => "primary_fixed",
            Role::PrimaryFixedDim => "primary_fixed_dim",
            Role::OnPrimaryFixed => "on_primary_fixed",
            Role::OnPrimaryFixedVariant => "on_primary_fixed_variant",
            Role::Secondary => "secondary",
            Role::SecondaryDim => "secondary_dim",
            Role::OnSecondary => "on_secondary",
            Role::SecondaryContainer => "secondary_container",
            Role::OnSecondaryContainer => "on_secondary_container",
            Role::SecondaryFixed => "secondary_fixed",
            Role::SecondaryFixedDim => "secondary_fixed_dim",
            Role::OnSecondaryFixed => "on_secondary_fixed",
            Role::OnSecondaryFixedVariant => "on_secondary_fixed_variant",
            Role::Tertiary => "tertiary",
            Role::TertiaryDim => "tertiary_dim",
            Role::OnTertiary => "on_tertiary",
            Role::TertiaryContainer => "tertiary_container",
            Role::OnTertiaryContainer => "on_tertiary_container",
            Role::TertiaryFixed => "tertiary_fixed",
            Role::TertiaryFixedDim => "tertiary_fixed_dim",
            Role::OnTertiaryFixed => "on_tertiary_fixed",
            Role::OnTertiaryFixedVariant => "on_tertiary_fixed_variant",
            Role::Error => "error",
            Role::ErrorDim => "error_dim",
            Role::OnError => "on_error",
            Role::ErrorContainer => "error_container",
            Role::OnErrorContainer => "on_error_container",
            Role::ControlActivated => "control_activated",
            Role::ControlNormal => "control_normal",
            Role::ControlHighlight => "control_highlight",
            Role::TextPrimaryInverse => "text_primary_inverse",
            Role::TextSecondaryAndTertiaryInverse => "text_secondary_and_tertiary_inverse",
            Role::TextPrimaryInverseDisableOnly => "text_primary_inverse_disable_only",
            Role::TextSecondaryAndTertiaryInverseDisabled => "text_secondary_and_tertiary_inverse_disabled",
            Role::TextHintInverse => "text_hint_inverse",
        }
    }

    /// The name of the role, in snake case.
    pub open spec fn spec_name(self) -> Seq<char> {
        match self {
            Role::PrimaryPaletteKeyColor => "primary_palette_key_color"@,
            Role::SecondaryPaletteKeyColor => "secondary_palette_key_color"@,
            Role::TertiaryPaletteKeyColor => "tertiary_palette_key_color"@,
            Role::NeutralPaletteKeyColor => "neutral_palette_key_color"@,
            Role::NeutralVariantPaletteKeyColor => "neutral_variant_palette_key_color"@,
            Role::ErrorPaletteKeyColor => "error_palette_key_color"@,
            Role::Background => "background"@,
            Role::OnBackground => "on_background"@,
            Role::Surface => "surface"@,
            Role::SurfaceDim => "surface_dim"@,
            Role::SurfaceBright => "surface_bright"@,
            Role::SurfaceContainerLowest => "surface_container_lowest"@,
            Role::SurfaceContainerLow => "surface_container_low"@,
            Role::SurfaceContainer => "surface_container"@,
            Role::SurfaceContainerHigh => "surface_container_high"@,
            Role::SurfaceContainerHighest => "surface_container_highest"@,
            Role::OnSurface => "on_surface"@,
            Role::SurfaceVariant => "surface_variant"@,
            Role::OnSurfaceVariant => "on_surface_variant"@,
            Role::InverseSurface => "inverse_surface"@,
            Role::InverseOnSurface => "inverse_on_surface"@,
            Role::Outline => "outline"@,
            Role::OutlineVariant => "outline_variant"@,
            Role::Shadow => "shadow"@,
            Role::Scrim => "scrim"@,
            Role::SurfaceTint => "surface_tint"@,
            Role::Primary => "primary"@,
            Role::PrimaryDim => "primary_dim"@,
            Role::OnPrimary => "on_primary"@,
            Role::PrimaryContainer => "primary_container"@,
            Role::OnPrimaryContainer => "on_primary_container"@,
            Role::InversePrimary => "inverse_primary"@,
            Role::PrimaryFixed => "primary_fixed"@,
            Role::PrimaryFixedDim => "primary_fixed_dim"@,
            Role::OnPrimaryFixed => "on_primary_fixed"@,
            Role::OnPrimaryFixedVariant => "on_primary_fixed_variant"@,
            Role::Secondary => "secondary"@,
            Role::SecondaryDim => "secondary_dim"@,
            Role::OnSecondary => "on_secondary"@,
            Role::SecondaryContainer => "secondary_container"@,
            Role::OnSecondaryContainer => "on_secondary_container"@,
            Role::SecondaryFixed => "secondary_fixed"@,
            Role::SecondaryFixedDim => "secondary_fixed_dim"@,
            Role::OnSecondaryFixed => "on_secondary_fixed"@,
            Role::OnSecondaryFixedVariant => "on_secondary_fixed_variant"@,
            Role::Tertiary => "tertiary"@,
            Role::TertiaryDim => "tertiary_dim"@,
            Role::OnTertiary => "on_tertiary"@,
            Role::TertiaryContainer => "tertiary_container"@,
            Role::OnTertiaryContainer => "on_tertiary_container"@,
            Role::TertiaryFixed => "tertiary_fixed"@,
            Role::TertiaryFixedDim => "tertiary_fixed_dim"@,
            Role::OnTertiaryFixed => "on_tertiary_fixed"@,
            Role::OnTertiaryFixedVariant => "on_tertiary_fixed_variant"@,
            Role::Error => "error"@,
            Role::ErrorDim => "error_dim"@,
            Role::OnError => "on_error"@,
            Role::ErrorContainer => "error_container"@,
            Role::OnErrorContainer => "on_error_container"@,
            Role::ControlActivated => "control_activated"@,
            Role::ControlNormal => "control_normal"@,
            Role::ControlHighlight => "control_highlight"@,
            Role::TextPrimaryInverse => "text_primary_inverse"@,
            Role::TextSecondaryAndTertiaryInverse => "text_secondary_and_tertiary_inverse"@,
            Role::TextPrimaryInverseDisableOnly => "text_primary_inverse_disable_only"@,
            Role::TextSecondaryAndTertiaryInverseDisabled => "text_secondary_and_tertiary_inverse_disabled"@,
            Role::TextHintInverse => "text_hint_inverse"@,
        }
    }

    /// The place of the role in the list of all roles.
    pub open spec fn spec_index(self) -> usize {
        match self {
            Role::PrimaryPaletteKeyColor => 0,
            Role::SecondaryPaletteKeyColor => 1,
            Role::TertiaryPaletteKeyColor => 2,
            Role::NeutralPaletteKeyColor => 3,
            Role::NeutralVariantPaletteKeyColor => 4,
            Role::ErrorPaletteKeyColor => 5,
            Role::Background => 6,
            Role::OnBackground => 7,
            Role::Surface => 8,
            Role::SurfaceDim => 9,
            Role::SurfaceBright => 10,
            Role::SurfaceContainerLowest => 11,
            Role::SurfaceContainerLow => 12,
            Role::SurfaceContainer => 13,
            Role::SurfaceContainerHigh => 14,
            Role::SurfaceContainerHighest => 15,
            Role::OnSurface => 16,
            Role::SurfaceVariant => 17,
            Role::OnSurfaceVariant => 18,
            Role::InverseSurface => 19,
            Role::InverseOnSurface => 20,
            Role::Outline => 21,
            Role::OutlineVariant => 22,
            Role::Shadow => 23,
            Role::Scrim => 24,
            Role::SurfaceTint => 25,
            Role::Primary => 26,
            Role::PrimaryDim => 27,
            Role::OnPrimary => 28,
            Role::PrimaryContainer => 29,
            Role::OnPrimaryContainer => 30,
            Role::InversePrimary => 31,
            Role::PrimaryFixed => 32,
            Role::PrimaryFixedDim => 33,
            Role::OnPrimaryFixed => 34,
            Role::OnPrimaryFixedVariant => 35,
            Role::Secondary => 36,
            Role::SecondaryDim => 37,
            Role::OnSecondary => 38,
            Role::SecondaryContainer => 39,
            Role::OnSecondaryContainer => 40,
            Role::SecondaryFixed => 41,
            Role::SecondaryFixedDim => 42,
            Role::OnSecondaryFixed => 43,
            Role::OnSecondaryFixedVariant => 44,
            Role::Tertiary => 45,
            Role::TertiaryDim => 46,
            Role::OnTertiary => 47,
            Role::TertiaryContainer => 48,
            Role::OnTertiaryContainer => 49,
            Role::TertiaryFixed => 50,
            Role::TertiaryFixedDim => 51,
            Role::OnTertiaryFixed => 52,
            Role::OnTertiaryFixedVariant => 53,
            Role::Error => 54,
            Role::ErrorDim => 55,
            Role::OnError => 56,
            Role::ErrorContainer => 57,
            Role::OnErrorContainer => 58,
            Role::ControlActivated => 59,
            Role::ControlNormal => 60,
            Role::ControlHighlight => 61,
            Role::TextPrimaryInverse => 62,
            Role::TextSecondaryAndTertiaryInverse => 63,
            Role::TextPrimaryInverseDisableOnly => 64,
            Role::TextSecondaryAndTertiaryInverseDisabled => 65,
            Role::TextHintInverse => 66,
        }
    }

    #[verifier::when_used_as_spec(spec_index)]
    pub fn index(self) -> (out: usize)
        ensures
            out == self.spec_index(),
            out < ROLE_COUNT,
    {
        match self {
            Role::PrimaryPaletteKeyColor => 0,
            Role::SecondaryPaletteKeyColor => 1,
            Role::TertiaryPaletteKeyColor => 2,
            Role::NeutralPaletteKeyColor => 3,
            Role::NeutralVariantPaletteKeyColor => 4,
            Role::ErrorPaletteKeyColor => 5,
            Role::Background => 6,
            Role::OnBackground => 7,
            Role::Surface => 8,
            Role::SurfaceDim => 9,
            Role::SurfaceBright => 10,
            Role::SurfaceContainerLowest => 11,
            Role::SurfaceContainerLow => 12,
            Role::SurfaceContainer => 13,
            Role::SurfaceContainerHigh => 14,
            Role::SurfaceContainerHighest => 15,
            Role::OnSurface => 16,
            Role::SurfaceVariant => 17,
            Role::OnSurfaceVariant => 18,
            Role::InverseSurface => 19,
            Role::InverseOnSurface => 20,
            Role::Outline => 21,
            Role::OutlineVariant => 22,
            Role::Shadow => 23,
            Role::Scrim => 24,
            Role::SurfaceTint => 25,
            Role::Primary => 26,
            Role::PrimaryDim => 27,
            Role::OnPrimary => 28,
            Role::PrimaryContainer => 29,
            Role::OnPrimaryContainer => 30,
            Role::InversePrimary => 31,
            Role::PrimaryFixed => 32,
            Role::PrimaryFixedDim => 33,
            Role::OnPrimaryFixed => 34,
            Role::OnPrimaryFixedVariant => 35,
            Role::Secondary => 36,
            Role::SecondaryDim => 37,
            Role::OnSecondary => 38,
            Role::SecondaryContainer => 39,
            Role::OnSecondaryContainer => 40,
            Role::SecondaryFixed => 41,
            Role::SecondaryFixedDim => 42,
            Role::OnSecondaryFixed => 43,
            Role::OnSecondaryFixedVariant => 44,
            Role::Tertiary => 45,
            Role::TertiaryDim => 46,
            Role::OnTertiary => 47,
            Role::TertiaryContainer => 48,
            Role::OnTertiaryContainer => 49,
            Role::TertiaryFixed => 50,
            Role::TertiaryFixedDim => 51,
            Role::OnTertiaryFixed => 52,
            Role::OnTertiaryFixedVariant => 53,
            Role::Error => 54,
            Role::ErrorDim => 55,
            Role::OnError => 56,
            Role::ErrorContainer => 57,
            Role::OnErrorContainer => 58,
            Role::ControlActivated => 59,
            Role::ControlNormal => 60,
            Role::ControlHighlight => 61,
            Role::TextPrimaryInverse => 62,
            Role::TextSecondaryAndTertiaryInverse => 63,
            Role::TextPrimaryInverseDisableOnly => 64,
            Role::TextSecondaryAndTertiaryInverseDisabled => 65,
            Role::TextHintInverse => 66,
        }
    }

    /// The role at a place in the list of all roles.
    pub fn from_index(index: usize) -> (out: Option<Role>)
        ensures
            index < ROLE_COUNT ==> out.is_some() && out.unwrap().spec_index() == index,
            index >= ROLE_COUNT ==> out.is_none(),
    {
        match index {
            0 => Some(Role::PrimaryPaletteKeyColor),
            1 => Some(Role::SecondaryPaletteKeyColor),
            2 => Some(Role::TertiaryPaletteKeyColor),
            3 => Some(Role::NeutralPaletteKeyColor),
            4 => Some(Role::NeutralVariantPaletteKeyColor),
            5 => Some(Role::ErrorPaletteKeyColor),
            6 => Some(Role::Background),
            7 => Some(Role::OnBackground),
            8 => Some(Role::Surface),
            9 => Some(Role::SurfaceDim),
            10 => Some(Role::SurfaceBright),
            11 => Some(Role::SurfaceContainerLowest),
            12 => Some(Role::SurfaceContainerLow),
            13 => Some(Role::SurfaceContainer),
            14 => Some(Role::SurfaceContainerHigh),
            15 => Some(Role::SurfaceContainerHighest),
            16 => Some(Role::OnSurface),
            17 => Some(Role::SurfaceVariant),
            18 => Some(Role::OnSurfaceVariant),
            19 => Some(Role::InverseSurface),
            20 => Some(Role::InverseOnSurface),
            21 => Some(Role::Outline),
            22 => Some(Role::OutlineVariant),
            23 => Some(Role::Shadow),
            24 => Some(Role::Scrim),
            25 => Some(Role::SurfaceTint),
            26 => Some(Role::Primary),
            27 => Some(Role::PrimaryDim),
            28 => Some(Role::OnPrimary),
            29 => Some(Role::PrimaryContainer),
            30 => Some(Role::OnPrimaryContainer),
            31 => Some(Role::InversePrimary),
            32 => Some(Role::PrimaryFixed),
            33 => Some(Role::PrimaryFixedDim),
            34 => Some(Role::OnPrimaryFixed),
            35 => Some(Role::OnPrimaryFixedVariant),
            36 => Some(Role::Secondary),
            37 => Some(Role::SecondaryDim),
            38 => Some(Role::OnSecondary),
            39 => Some(Role::SecondaryContainer),
            40 => Some(Role::OnSecondaryContainer),
            41 => Some(Role::SecondaryFixed),
            42 => Some(Role::SecondaryFixedDim),
            43 => Some(Role::OnSecondaryFixed),
            44 => Some(Role::OnSecondaryFixedVariant),
            45 => Some(Role::Tertiary),
            46 => Some(Role::TertiaryDim),
            47 => Some(Role::OnTertiary),
            48 => Some(Role::TertiaryContainer),
            49 => Some(Role::OnTertiaryContainer),
            50 => Some(Role::TertiaryFixed),
            51 => Some(Role::TertiaryFixedDim),
            52 => Some(Role::OnTertiaryFixed),
            53 => Some(Role::OnTertiaryFixedVariant),
            54 => Some(Role::Error),
            55 => Some(Role::ErrorDim),
            56 => Some(Role::OnError),
            57 => Some(Role::ErrorContainer),
            58 => Some(Role::OnErrorContainer),
            59 => Some(Role::ControlActivated),
            60 => Some(Role::ControlNormal),
            61 => Some(Role::ControlHighlight),
            62 => Some(Role::TextPrimaryInverse),
            63 => Some(Role::TextSecondaryAndTertiaryInverse),
            64 => Some(Role::TextPrimaryInverseDisableOnly),
            65 => Some(Role::TextSecondaryAndTertiaryInverseDisabled),
            66 => Some(Role::TextHintInverse),
            _ => None,
        }
    }

    /// Whether the role is one of the dimmer fixed accents, whose names
    /// end in `_fixed_dim`.
    pub open spec fn spec_is_fixed_dim(self) -> bool {
        self == Role::PrimaryFixedDim || self == Role::SecondaryFixedDim || self
            == Role::TertiaryFixedDim
    }

    #[verifier::when_used_as_spec(spec_is_fixed_dim)]
    pub fn is_fixed_dim(self) -> (out: bool)
        ensures
            out == self.spec_is_fixed_dim(),
    {
        match self {
            Role::PrimaryFixedDim | Role::SecondaryFixedDim | Role::TertiaryFixedDim => true,
            _ => false,
        }
    }
}

/// Two roles with the same place in the list are the same role.
pub proof fn lemma_index_is_injective(a: Role, b: Role)
    requires
        a.spec_index() == b.spec_index(),
    ensures
        a == b,
{
}

} // verus!
