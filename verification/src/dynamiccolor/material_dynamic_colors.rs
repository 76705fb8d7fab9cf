//! The roles of Material Design, as both versions of the rules together
//! define them.
use vstd::prelude::*;
use crate::dynamiccolor::color_spec_2021::ColorSpec2021;
use crate::dynamiccolor::color_spec_2025::ColorSpec2025;
use crate::dynamiccolor::dynamic_color::{DynamicColor, RoleDefinition, ToneRule};
use crate::dynamiccolor::dynamic_scheme::DynamicScheme;
use crate::dynamiccolor::platform::Platform;
use crate::dynamiccolor::role::Role;
use crate::dynamiccolor::spec_version::SpecVersion;

verus! {

/// The roles of Material Design.
#[derive(Clone, Copy, Debug, Default, PartialEq, Eq, Structural)]
pub struct MaterialDynamicColors;

/// The number of roles that a theme is exported with: all but the ones
/// kept for older Android themes.
pub const LISTED_ROLES: usize = 59;

/// The role at a place in the list of all roles; the first role for a
/// place beyond the list.
pub open spec fn role_at(index: int) -> Role {
    if exists|role: Role| role.spec_index() == index {
        choose|role: Role| role.spec_index() == index
    } else {
        Role::PrimaryPaletteKeyColor
    }
}

impl MaterialDynamicColors {
    /// The roles.
    pub fn new() -> (out: Self)
        ensures
            out == MaterialDynamicColors,
    {
        MaterialDynamicColors
    }

    /// What a role is under a scheme: under a scheme of 2025 what the
    /// rules of 2025 say, else what the rules of 2021 say, and for the
    /// dimmer accents, which those do not know, the rules of 2025 again.
    pub open spec fn spec_definition(role: Role, scheme: &DynamicScheme) -> RoleDefinition {
        if scheme.spec_version == SpecVersion::Spec2025 {
            ColorSpec2025::definition(role, scheme)
        } else {
            match ColorSpec2021::definition(role, scheme) {
                Some(definition) => definition,
                None => ColorSpec2025::definition(role, scheme),
            }
        }
    }

    #[verifier::when_used_as_spec(spec_definition)]
    pub fn definition(role: Role, scheme: &DynamicScheme) -> (out: RoleDefinition)
        ensures
            out == Self::spec_definition(role, scheme),
    {
        if scheme.spec_version == SpecVersion::Spec2025 {
            ColorSpec2025::definition(role, scheme)
        } else {
            match ColorSpec2021::definition(role, scheme) {
                Some(definition) => definition,
                None => ColorSpec2025::definition(role, scheme),
            }
        }
    }

    /// The rank of a role under a scheme. A role refers only to roles of
    /// lower rank, and is paired only with roles of at most its own: so
    /// resolving a role comes to an end.
    pub open spec fn spec_rank(role: Role, scheme: &DynamicScheme) -> u8 {
        match (scheme.spec_version, scheme.platform) {
            (SpecVersion::Spec2021, Platform::Phone) => match role {
                Role::OnBackground | Role::OnSurface | Role::OnSurfaceVariant
                | Role::InverseOnSurface | Role::Outline | Role::OutlineVariant | Role::Primary
                | Role::PrimaryDim | Role::PrimaryContainer | Role::InversePrimary
                | Role::PrimaryFixed | Role::PrimaryFixedDim | Role::Secondary
                | Role::SecondaryDim | Role::SecondaryContainer | Role::SecondaryFixed
                | Role::SecondaryFixedDim | Role::Tertiary | Role::TertiaryDim
                | Role::TertiaryContainer | Role::TertiaryFixed | Role::TertiaryFixedDim
                | Role::Error | Role::ErrorDim | Role::ErrorContainer => 1,
                Role::OnPrimary | Role::OnPrimaryContainer | Role::OnPrimaryFixed
                | Role::OnPrimaryFixedVariant | Role::OnSecondary | Role::OnSecondaryContainer
                | Role::OnSecondaryFixed | Role::OnSecondaryFixedVariant | Role::OnTertiary
                | Role::OnTertiaryContainer | Role::OnTertiaryFixed
                | Role::OnTertiaryFixedVariant | Role::OnError | Role::OnErrorContainer => 2,
                _ => 0,
            },
            (SpecVersion::Spec2021, Platform::Watch) => match role {
                Role::OnBackground | Role::OnSurface | Role::OnSurfaceVariant
                | Role::InverseOnSurface | Role::Outline | Role::OutlineVariant | Role::Primary
                | Role::PrimaryDim | Role::PrimaryContainer | Role::InversePrimary
                | Role::PrimaryFixed | Role::PrimaryFixedDim | Role::Secondary
                | Role::SecondaryDim | Role::SecondaryContainer | Role::SecondaryFixed
                | Role::SecondaryFixedDim | Role::Tertiary | Role::TertiaryDim
                | Role::TertiaryContainer | Role::TertiaryFixed | Role::TertiaryFixedDim
                | Role::Error | Role::ErrorDim | Role::ErrorContainer => 1,
                Role::OnPrimary | Role::OnPrimaryContainer | Role::OnPrimaryFixed
                | Role::OnPrimaryFixedVariant | Role::OnSecondary | Role::OnSecondaryContainer
                | Role::OnSecondaryFixed | Role::OnSecondaryFixedVariant | Role::OnTertiary
                | Role::OnTertiaryContainer | Role::OnTertiaryFixed
                | Role::OnTertiaryFixedVariant | Role::OnError | Role::OnErrorContainer => 2,
                _ => 0,
            },
            (SpecVersion::Spec2025, Platform::Phone) => match role {
                Role::OnSurface | Role::OnSurfaceVariant | Role::InverseOnSurface
                | Role::Outline | Role::OutlineVariant | Role::PrimaryContainer
                | Role::InversePrimary | Role::SecondaryContainer | Role::TertiaryContainer
                | Role::ErrorContainer => 1,
                Role::OnBackground | Role::SurfaceTint | Role::Primary
                | Role::OnPrimaryContainer | Role::PrimaryFixed | Role::Secondary
                | Role::OnSecondaryContainer | Role::SecondaryFixed | Role::Tertiary
                | Role::OnTertiaryContainer | Role::TertiaryFixed | Role::Error
                | Role::OnErrorContainer => 2,
                Role::PrimaryDim | Role::OnPrimary | Role::PrimaryFixedDim | Role::SecondaryDim
                | Role::OnSecondary | Role::SecondaryFixedDim | Role::TertiaryDim
                | Role::OnTertiary | Role::TertiaryFixedDim | Role::ErrorDim | Role::OnError => 3,
                Role::OnPrimaryFixed | Role::OnPrimaryFixedVariant | Role::OnSecondaryFixed
                | Role::OnSecondaryFixedVariant | Role::OnTertiaryFixed
                | Role::OnTertiaryFixedVariant => 4,
                _ => 0,
            },
            (SpecVersion::Spec2025, Platform::Watch) => match role {
                Role::OnSurface | Role::OnSurfaceVariant | Role::InverseOnSurface
                | Role::Outline | Role::OutlineVariant | Role::SurfaceTint | Role::Primary
                | Role::InversePrimary | Role::Secondary | Role::Tertiary | Role::Error => 1,
                Role::OnBackground | Role::PrimaryDim | Role::SecondaryDim | Role::TertiaryDim
                | Role::ErrorDim => 2,
                Role::OnPrimary | Role::PrimaryContainer | Role::OnSecondary
                | Role::SecondaryContainer | Role::OnTertiary | Role::TertiaryContainer
                | Role::OnError | Role::ErrorContainer => 3,
                Role::OnPrimaryContainer | Role::PrimaryFixed | Role::OnSecondaryContainer
                | Role::SecondaryFixed | Role::OnTertiaryContainer | Role::TertiaryFixed
                | Role::OnErrorContainer => 4,
                Role::PrimaryFixedDim | Role::SecondaryFixedDim | Role::TertiaryFixedDim => 5,
                Role::OnPrimaryFixed | Role::OnPrimaryFixedVariant | Role::OnSecondaryFixed
                | Role::OnSecondaryFixedVariant | Role::OnTertiaryFixed
                | Role::OnTertiaryFixedVariant => 6,
                _ => 0,
            },
        }
    }

    #[verifier::when_used_as_spec(spec_rank)]
    pub fn rank(role: Role, scheme: &DynamicScheme) -> (out: u8)
        ensures
            out == Self::spec_rank(role, scheme),
    {
        match (scheme.spec_version, scheme.platform) {
            (SpecVersion::Spec2021, Platform::Phone) => match role {
                Role::OnBackground | Role::OnSurface | Role::OnSurfaceVariant
                | Role::InverseOnSurface | Role::Outline | Role::OutlineVariant | Role::Primary
                | Role::PrimaryDim | Role::PrimaryContainer | Role::InversePrimary
                | Role::PrimaryFixed | Role::PrimaryFixedDim | Role::Secondary
                | Role::SecondaryDim | Role::SecondaryContainer | Role::SecondaryFixed
                | Role::SecondaryFixedDim | Role::Tertiary | Role::TertiaryDim
                | Role::TertiaryContainer | Role::TertiaryFixed | Role::TertiaryFixedDim
                | Role::Error | Role::ErrorDim | Role::ErrorContainer => 1,
                Role::OnPrimary | Role::OnPrimaryContainer | Role::OnPrimaryFixed
                | Role::OnPrimaryFixedVariant | Role::OnSecondary | Role::OnSecondaryContainer
                | Role::OnSecondaryFixed | Role::OnSecondaryFixedVariant | Role::OnTertiary
                | Role::OnTertiaryContainer | Role::OnTertiaryFixed
                | Role::OnTertiaryFixedVariant | Role::OnError | Role::OnErrorContainer => 2,
                _ => 0,
            },
            (SpecVersion::Spec2021, Platform::Watch) => match role {
                Role::OnBackground | Role::OnSurface | Role::OnSurfaceVariant
                | Role::InverseOnSurface | Role::Outline | Role::OutlineVariant | Role::Primary
                | Role::PrimaryDim | Role::PrimaryContainer | Role::InversePrimary
                | Role::PrimaryFixed | Role::PrimaryFixedDim | Role::Secondary
                | Role::SecondaryDim | Role::SecondaryContainer | Role::SecondaryFixed
                | Role::SecondaryFixedDim | Role::Tertiary | Role::TertiaryDim
                | Role::TertiaryContainer | Role::TertiaryFixed | Role::TertiaryFixedDim
                | Role::Error | Role::ErrorDim | Role::ErrorContainer => 1,
                Role::OnPrimary | Role::OnPrimaryContainer | Role::OnPrimaryFixed
                | Role::OnPrimaryFixedVariant | Role::OnSecondary | Role::OnSecondaryContainer
                | Role::OnSecondaryFixed | Role::OnSecondaryFixedVariant | Role::OnTertiary
                | Role::OnTertiaryContainer | Role::OnTertiaryFixed
                | Role::OnTertiaryFixedVariant | Role::OnError | Role::OnErrorContainer => 2,
                _ => 0,
            },
            (SpecVersion::Spec2025, Platform::Phone) => match role {
                Role::OnSurface | Role::OnSurfaceVariant | Role::InverseOnSurface
                | Role::Outline | Role::OutlineVariant | Role::PrimaryContainer
                | Role::InversePrimary | Role::SecondaryContainer | Role::TertiaryContainer
                | Role::ErrorContainer => 1,
                Role::OnBackground | Role::SurfaceTint | Role::Primary
                | Role::OnPrimaryContainer | Role::PrimaryFixed | Role::Secondary
                | Role::OnSecondaryContainer | Role::SecondaryFixed | Role::Tertiary
                | Role::OnTertiaryContainer | Role::TertiaryFixed | Role::Error
                | Role::OnErrorContainer => 2,
                Role::PrimaryDim | Role::OnPrimary | Role::PrimaryFixedDim | Role::SecondaryDim
                | Role::OnSecondary | Role::SecondaryFixedDim | Role::TertiaryDim
                | Role::OnTertiary | Role::TertiaryFixedDim | Role::ErrorDim | Role::OnError => 3,
                Role::OnPrimaryFixed | Role::OnPrimaryFixedVariant | Role::OnSecondaryFixed
                | Role::OnSecondaryFixedVariant | Role::OnTertiaryFixed
                | Role::OnTertiaryFixedVariant => 4,
                _ => 0,
            },
            (SpecVersion::Spec2025, Platform::Watch) => match role {
                Role::OnSurface | Role::OnSurfaceVariant | Role::InverseOnSurface
                | Role::Outline | Role::OutlineVariant | Role::SurfaceTint | Role::Primary
                | Role::InversePrimary | Role::Secondary | Role::Tertiary | Role::Error => 1,
                Role::OnBackground | Role::PrimaryDim | Role::SecondaryDim | Role::TertiaryDim
                | Role::ErrorDim => 2,
                Role::OnPrimary | Role::PrimaryContainer | Role::OnSecondary
                | Role::SecondaryContainer | Role::OnTertiary | Role::TertiaryContainer
                | Role::OnError | Role::ErrorContainer => 3,
                Role::OnPrimaryContainer | Role::PrimaryFixed | Role::OnSecondaryContainer
                | Role::SecondaryFixed | Role::OnTertiaryContainer | Role::TertiaryFixed
                | Role::OnErrorContainer => 4,
                Role::PrimaryFixedDim | Role::SecondaryFixedDim | Role::TertiaryFixedDim => 5,
                Role::OnPrimaryFixed | Role::OnPrimaryFixedVariant | Role::OnSecondaryFixed
                | Role::OnSecondaryFixedVariant | Role::OnTertiaryFixed
                | Role::OnTertiaryFixedVariant => 6,
                _ => 0,
            },
        }
    }

    /// The surface on which accents are drawn.
    pub open spec fn spec_highest_surface(&self, scheme: &DynamicScheme) -> DynamicColor {
        DynamicColor::new(ColorSpec2025::highest_surface(scheme))
    }

    #[verifier::when_used_as_spec(spec_highest_surface)]
    pub fn highest_surface(&self, scheme: &DynamicScheme) -> (out: DynamicColor)
        ensures
            out == self.spec_highest_surface(scheme),
    {
        DynamicColor::new(ColorSpec2025::highest_surface(scheme))
    }

    /// The roles that a theme is exported with, in their usual order.
    pub fn all_dynamic_colors(&self) -> (out: Vec<DynamicColor>)
        ensures
            out@.len() == LISTED_ROLES,
            forall|i: int| 0 <= i < LISTED_ROLES ==> (#[trigger] out@[i]).role.spec_index() == i,
    {
        let mut colors: Vec<DynamicColor> = Vec::new();
        let mut i: usize = 0;
        while i < LISTED_ROLES
            invariant
                i <= LISTED_ROLES,
                colors@.len() == i,
                forall|k: int| 0 <= k < i ==> (#[trigger] colors@[k]).role.spec_index() == k,
            decreases LISTED_ROLES - i,
        {
            match Role::from_index(i) {
                Some(role) => {
                    colors.push(DynamicColor::new(role));
                },
                None => {
                    assert(false);
                },
            }
            i = i + 1;
        }
        colors
    }

    /// The key colour of the primary palette, at its own tone.
    pub fn primary_palette_key_color(&self) -> (out: DynamicColor)
        ensures
            out == DynamicColor::new(Role::PrimaryPaletteKeyColor),
    {
        DynamicColor::new(Role::PrimaryPaletteKeyColor)
    }

    /// The key colour of the secondary palette, at its own tone.
    pub fn secondary_palette_key_color(&self) -> (out: DynamicColor)
        ensures
            out == DynamicColor::new(Role::SecondaryPaletteKeyColor),
    {
        DynamicColor::new(Role::SecondaryPaletteKeyColor)
    }

    /// The key colour of the tertiary palette, at its own tone.
    pub fn tertiary_palette_key_color(&self) -> (out: DynamicColor)
        ensures
            out == DynamicColor::new(Role::TertiaryPaletteKeyColor),
    {
        DynamicColor::new(Role::TertiaryPaletteKeyColor)
    }

    /// The key colour of the neutral palette, at its own tone.
    pub fn neutral_palette_key_color(&self) -> (out: DynamicColor)
        ensures
            out == DynamicColor::new(Role::NeutralPaletteKeyColor),
    {
        DynamicColor::new(Role::NeutralPaletteKeyColor)
    }

    /// The key colour of the neutral variant palette, at its own tone.
    pub fn neutral_variant_palette_key_color(&self) -> (out: DynamicColor)
        ensures
            out == DynamicColor::new(Role::NeutralVariantPaletteKeyColor),
    {
        DynamicColor::new(Role::NeutralVariantPaletteKeyColor)
    }

    /// The key colour of the error palette, at its own tone.
    pub fn error_palette_key_color(&self) -> (out: DynamicColor)
        ensures
            out == DynamicColor::new(Role::ErrorPaletteKeyColor),
    {
        DynamicColor::new(Role::ErrorPaletteKeyColor)
    }

    /// The background of the whole interface.
    pub fn background(&self) -> (out: DynamicColor)
        ensures
            out == DynamicColor::new(Role::Background),
    {
        DynamicColor::new(Role::Background)
    }

    /// Text and icons on the background.
    pub fn on_background(&self) -> (out: DynamicColor)
        ensures
            out == DynamicColor::new(Role::OnBackground),
    {
        DynamicColor::new(Role::OnBackground)
    }

    /// The surface of the interface.
    pub fn surface(&self) -> (out: DynamicColor)
        ensures
            out == DynamicColor::new(Role::Surface),
    {
        DynamicColor::new(Role::Surface)
    }

    /// The dimmest surface.
    pub fn surface_dim(&self) -> (out: DynamicColor)
        ensures
            out == DynamicColor::new(Role::SurfaceDim),
    {
        DynamicColor::new(Role::SurfaceDim)
    }

    /// The brightest surface.
    pub fn surface_bright(&self) -> (out: DynamicColor)
        ensures
            out == DynamicColor::new(Role::SurfaceBright),
    {
        DynamicColor::new(Role::SurfaceBright)
    }

    /// The container of least emphasis.
    pub fn surface_container_lowest(&self) -> (out: DynamicColor)
        ensures
            out == DynamicColor::new(Role::SurfaceContainerLowest),
    {
        DynamicColor::new(Role::SurfaceContainerLowest)
    }

    /// The container of low emphasis.
    pub fn surface_container_low(&self) -> (out: DynamicColor)
        ensures
            out == DynamicColor::new(Role::SurfaceContainerLow),
    {
        DynamicColor::new(Role::SurfaceContainerLow)
    }

    /// The container of usual emphasis.
    pub fn surface_container(&self) -> (out: DynamicColor)
        ensures
            out == DynamicColor::new(Role::SurfaceContainer),
    {
        DynamicColor::new(Role::SurfaceContainer)
    }

    /// The container of high emphasis.
    pub fn surface_container_high(&self) -> (out: DynamicColor)
        ensures
            out == DynamicColor::new(Role::SurfaceContainerHigh),
    {
        DynamicColor::new(Role::SurfaceContainerHigh)
    }

    /// The container of most emphasis.
    pub fn surface_container_highest(&self) -> (out: DynamicColor)
        ensures
            out == DynamicColor::new(Role::SurfaceContainerHighest),
    {
        DynamicColor::new(Role::SurfaceContainerHighest)
    }

    /// Text and icons on any surface.
    pub fn on_surface(&self) -> (out: DynamicColor)
        ensures
            out == DynamicColor::new(Role::OnSurface),
    {
        DynamicColor::new(Role::OnSurface)
    }

    /// A surface of another tint.
    pub fn surface_variant(&self) -> (out: DynamicColor)
        ensures
            out == DynamicColor::new(Role::SurfaceVariant),
    {
        DynamicColor::new(Role::SurfaceVariant)
    }

    /// Text and icons of lower emphasis on any surface.
    pub fn on_surface_variant(&self) -> (out: DynamicColor)
        ensures
            out == DynamicColor::new(Role::OnSurfaceVariant),
    {
        DynamicColor::new(Role::OnSurfaceVariant)
    }

    /// A surface that stands out against the others.
    pub fn inverse_surface(&self) -> (out: DynamicColor)
        ensures
            out == DynamicColor::new(Role::InverseSurface),
    {
        DynamicColor::new(Role::InverseSurface)
    }

    /// Text and icons on the inverse surface.
    pub fn inverse_on_surface(&self) -> (out: DynamicColor)
        ensures
            out == DynamicColor::new(Role::InverseOnSurface),
    {
        DynamicColor::new(Role::InverseOnSurface)
    }

    /// Outlines that matter, such as that of a text field.
    pub fn outline(&self) -> (out: DynamicColor)
        ensures
            out == DynamicColor::new(Role::Outline),
    {
        DynamicColor::new(Role::Outline)
    }

    /// Outlines for decoration, such as dividers.
    pub fn outline_variant(&self) -> (out: DynamicColor)
        ensures
            out == DynamicColor::new(Role::OutlineVariant),
    {
        DynamicColor::new(Role::OutlineVariant)
    }

    /// Shadows.
    pub fn shadow(&self) -> (out: DynamicColor)
        ensures
            out == DynamicColor::new(Role::Shadow),
    {
        DynamicColor::new(Role::Shadow)
    }

    /// The veil over what lies behind a dialog.
    pub fn scrim(&self) -> (out: DynamicColor)
        ensures
            out == DynamicColor::new(Role::Scrim),
    {
        DynamicColor::new(Role::Scrim)
    }

    /// The tint that elevation gives a surface.
    pub fn surface_tint(&self) -> (out: DynamicColor)
        ensures
            out == DynamicColor::new(Role::SurfaceTint),
    {
        DynamicColor::new(Role::SurfaceTint)
    }

    /// The accent that stands out most.
    pub fn primary(&self) -> (out: DynamicColor)
        ensures
            out == DynamicColor::new(Role::Primary),
    {
        DynamicColor::new(Role::Primary)
    }

    /// The dimmer form of primary.
    pub fn primary_dim(&self) -> (out: DynamicColor)
        ensures
            out == DynamicColor::new(Role::PrimaryDim),
    {
        DynamicColor::new(Role::PrimaryDim)
    }

    /// Text and icons on primary.
    pub fn on_primary(&self) -> (out: DynamicColor)
        ensures
            out == DynamicColor::new(Role::OnPrimary),
    {
        DynamicColor::new(Role::OnPrimary)
    }

    /// A container in the primary accent.
    pub fn primary_container(&self) -> (out: DynamicColor)
        ensures
            out == DynamicColor::new(Role::PrimaryContainer),
    {
        DynamicColor::new(Role::PrimaryContainer)
    }

    /// Text and icons on the primary container.
    pub fn on_primary_container(&self) -> (out: DynamicColor)
        ensures
            out == DynamicColor::new(Role::OnPrimaryContainer),
    {
        DynamicColor::new(Role::OnPrimaryContainer)
    }

    /// The primary accent on the inverse surface.
    pub fn inverse_primary(&self) -> (out: DynamicColor)
        ensures
            out == DynamicColor::new(Role::InversePrimary),
    {
        DynamicColor::new(Role::InversePrimary)
    }

    /// The primary accent that is the same in light and dark schemes.
    pub fn primary_fixed(&self) -> (out: DynamicColor)
        ensures
            out == DynamicColor::new(Role::PrimaryFixed),
    {
        DynamicColor::new(Role::PrimaryFixed)
    }

    /// The dimmer form of the fixed primary accent.
    pub fn primary_fixed_dim(&self) -> (out: DynamicColor)
        ensures
            out == DynamicColor::new(Role::PrimaryFixedDim),
    {
        DynamicColor::new(Role::PrimaryFixedDim)
    }

    /// Text and icons on the fixed primary accent.
    pub fn on_primary_fixed(&self) -> (out: DynamicColor)
        ensures
            out == DynamicColor::new(Role::OnPrimaryFixed),
    {
        DynamicColor::new(Role::OnPrimaryFixed)
    }

    /// Text and icons of lower emphasis on the fixed primary accent.
    pub fn on_primary_fixed_variant(&self) -> (out: DynamicColor)
        ensures
            out == DynamicColor::new(Role::OnPrimaryFixedVariant),
    {
        DynamicColor::new(Role::OnPrimaryFixedVariant)
    }

    /// The accent of less weight.
    pub fn secondary(&self) -> (out: DynamicColor)
        ensures
            out == DynamicColor::new(Role::Secondary),
    {
        DynamicColor::new(Role::Secondary)
    }

    /// The dimmer form of secondary.
    pub fn secondary_dim(&self) -> (out: DynamicColor)
        ensures
            out == DynamicColor::new(Role::SecondaryDim),
    {
        DynamicColor::new(Role::SecondaryDim)
    }

    /// Text and icons on secondary.
    pub fn on_secondary(&self) -> (out: DynamicColor)
        ensures
            out == DynamicColor::new(Role::OnSecondary),
    {
        DynamicColor::new(Role::OnSecondary)
    }

    /// A container in the secondary accent.
    pub fn secondary_container(&self) -> (out: DynamicColor)
        ensures
            out == DynamicColor::new(Role::SecondaryContainer),
    {
        DynamicColor::new(Role::SecondaryContainer)
    }

    /// Text and icons on the secondary container.
    pub fn on_secondary_container(&self) -> (out: DynamicColor)
        ensures
            out == DynamicColor::new(Role::OnSecondaryContainer),
    {
        DynamicColor::new(Role::OnSecondaryContainer)
    }

    /// The secondary accent that is the same in light and dark schemes.
    pub fn secondary_fixed(&self) -> (out: DynamicColor)
        ensures
            out == DynamicColor::new(Role::SecondaryFixed),
    {
        DynamicColor::new(Role::SecondaryFixed)
    }

    /// The dimmer form of the fixed secondary accent.
    pub fn secondary_fixed_dim(&self) -> (out: DynamicColor)
        ensures
            out == DynamicColor::new(Role::SecondaryFixedDim),
    {
        DynamicColor::new(Role::SecondaryFixedDim)
    }

    /// Text and icons on the fixed secondary accent.
    pub fn on_secondary_fixed(&self) -> (out: DynamicColor)
        ensures
            out == DynamicColor::new(Role::OnSecondaryFixed),
    {
        DynamicColor::new(Role::OnSecondaryFixed)
    }

    /// Text and icons of lower emphasis on the fixed secondary accent.
    pub fn on_secondary_fixed_variant(&self) -> (out: DynamicColor)
        ensures
            out == DynamicColor::new(Role::OnSecondaryFixedVariant),
    {
        DynamicColor::new(Role::OnSecondaryFixedVariant)
    }

    /// The accent that balances the other two.
    pub fn tertiary(&self) -> (out: DynamicColor)
        ensures
            out == DynamicColor::new(Role::Tertiary),
    {
        DynamicColor::new(Role::Tertiary)
    }

    /// The dimmer form of tertiary.
    pub fn tertiary_dim(&self) -> (out: DynamicColor)
        ensures
            out == DynamicColor::new(Role::TertiaryDim),
    {
        DynamicColor::new(Role::TertiaryDim)
    }

    /// Text and icons on tertiary.
    pub fn on_tertiary(&self) -> (out: DynamicColor)
        ensures
            out == DynamicColor::new(Role::OnTertiary),
    {
        DynamicColor::new(Role::OnTertiary)
    }

    /// A container in the tertiary accent.
    pub fn tertiary_container(&self) -> (out: DynamicColor)
        ensures
            out == DynamicColor::new(Role::TertiaryContainer),
    {
        DynamicColor::new(Role::TertiaryContainer)
    }

    /// Text and icons on the tertiary container.
    pub fn on_tertiary_container(&self) -> (out: DynamicColor)
        ensures
            out == DynamicColor::new(Role::OnTertiaryContainer),
    {
        DynamicColor::new(Role::OnTertiaryContainer)
    }

    /// The tertiary accent that is the same in light and dark schemes.
    pub fn tertiary_fixed(&self) -> (out: DynamicColor)
        ensures
            out == DynamicColor::new(Role::TertiaryFixed),
    {
        DynamicColor::new(Role::TertiaryFixed)
    }

    /// The dimmer form of the fixed tertiary accent.
    pub fn tertiary_fixed_dim(&self) -> (out: DynamicColor)
        ensures
            out == DynamicColor::new(Role::TertiaryFixedDim),
    {
        DynamicColor::new(Role::TertiaryFixedDim)
    }

    /// Text and icons on the fixed tertiary accent.
    pub fn on_tertiary_fixed(&self) -> (out: DynamicColor)
        ensures
            out == DynamicColor::new(Role::OnTertiaryFixed),
    {
        DynamicColor::new(Role::OnTertiaryFixed)
    }

    /// Text and icons of lower emphasis on the fixed tertiary accent.
    pub fn on_tertiary_fixed_variant(&self) -> (out: DynamicColor)
        ensures
            out == DynamicColor::new(Role::OnTertiaryFixedVariant),
    {
        DynamicColor::new(Role::OnTertiaryFixedVariant)
    }

    /// The colour of errors.
    pub fn error(&self) -> (out: DynamicColor)
        ensures
            out == DynamicColor::new(Role::Error),
    {
        DynamicColor::new(Role::Error)
    }

    /// The dimmer form of error.
    pub fn error_dim(&self) -> (out: DynamicColor)
        ensures
            out == DynamicColor::new(Role::ErrorDim),
    {
        DynamicColor::new(Role::ErrorDim)
    }

    /// Text and icons on error.
    pub fn on_error(&self) -> (out: DynamicColor)
        ensures
            out == DynamicColor::new(Role::OnError),
    {
        DynamicColor::new(Role::OnError)
    }

    /// A container in the colour of errors.
    pub fn error_container(&self) -> (out: DynamicColor)
        ensures
            out == DynamicColor::new(Role::ErrorContainer),
    {
        DynamicColor::new(Role::ErrorContainer)
    }

    /// Text and icons on the error container.
    pub fn on_error_container(&self) -> (out: DynamicColor)
        ensures
            out == DynamicColor::new(Role::OnErrorContainer),
    {
        DynamicColor::new(Role::OnErrorContainer)
    }

    /// A control that is switched on.
    pub fn control_activated(&self) -> (out: DynamicColor)
        ensures
            out == DynamicColor::new(Role::ControlActivated),
    {
        DynamicColor::new(Role::ControlActivated)
    }

    /// A control at rest.
    pub fn control_normal(&self) -> (out: DynamicColor)
        ensures
            out == DynamicColor::new(Role::ControlNormal),
    {
        DynamicColor::new(Role::ControlNormal)
    }

    /// The highlight of a control that is pressed.
    pub fn control_highlight(&self) -> (out: DynamicColor)
        ensures
            out == DynamicColor::new(Role::ControlHighlight),
    {
        DynamicColor::new(Role::ControlHighlight)
    }

    /// Primary text on an inverse surface.
    pub fn text_primary_inverse(&self) -> (out: DynamicColor)
        ensures
            out == DynamicColor::new(Role::TextPrimaryInverse),
    {
        DynamicColor::new(Role::TextPrimaryInverse)
    }

    /// Secondary and tertiary text on an inverse surface.
    pub fn text_secondary_and_tertiary_inverse(&self) -> (out: DynamicColor)
        ensures
            out == DynamicColor::new(Role::TextSecondaryAndTertiaryInverse),
    {
        DynamicColor::new(Role::TextSecondaryAndTertiaryInverse)
    }

    /// Disabled primary text on an inverse surface.
    pub fn text_primary_inverse_disable_only(&self) -> (out: DynamicColor)
        ensures
            out == DynamicColor::new(Role::TextPrimaryInverseDisableOnly),
    {
        DynamicColor::new(Role::TextPrimaryInverseDisableOnly)
    }

    /// Disabled secondary and tertiary text on an inverse surface.
    pub fn text_secondary_and_tertiary_inverse_disabled(&self) -> (out: DynamicColor)
        ensures
            out == DynamicColor::new(Role::TextSecondaryAndTertiaryInverseDisabled),
    {
        DynamicColor::new(Role::TextSecondaryAndTertiaryInverseDisabled)
    }

    /// Hints on an inverse surface.
    pub fn text_hint_inverse(&self) -> (out: DynamicColor)
        ensures
            out == DynamicColor::new(Role::TextHintInverse),
    {
        DynamicColor::new(Role::TextHintInverse)
    }

}

/// Whether a tone rule says a tone without looking at other roles.
pub open spec fn is_flat_rule(rule: ToneRule) -> bool {
    match rule {
        ToneRule::Value(_) => true,
        ToneRule::MaxChroma { .. } => true,
        ToneRule::MinChroma { .. } => true,
        _ => false,
    }
}

/// Whether what a definition refers to is of lower rank than the role
/// itself, or, for a partner of equal rank, has a tone of its own. Under the rules of 2025 the partner of a role's pair must
/// be of lower rank too.
pub open spec fn refers_downwards(definition: RoleDefinition, role: Role, scheme: &DynamicScheme) -> bool {
    let rank = MaterialDynamicColors::rank(role, scheme);
    &&& match definition.background {
        Some(background) => MaterialDynamicColors::rank(background, scheme) < rank,
        None => true,
    }
    &&& match definition.second_background {
        Some(background) => MaterialDynamicColors::rank(background, scheme) < rank,
        None => true,
    }
    &&& match definition.tone {
        ToneRule::SameAs(other) => MaterialDynamicColors::rank(other, scheme) < rank,
        ToneRule::LightStandard(other) => MaterialDynamicColors::rank(
            other,
            &scheme.light_standard(),
        ) < rank,
        _ => true,
    }
    &&& match definition.tone_delta_pair {
        Some(pair) => {
            &&& MaterialDynamicColors::rank(pair.role_a, scheme) <= rank
            &&& MaterialDynamicColors::rank(pair.role_b, scheme) <= rank
            &&& pair.role_a == role || MaterialDynamicColors::rank(pair.role_a, scheme) < rank
                || is_flat_rule(MaterialDynamicColors::definition(pair.role_a, scheme).tone)
            &&& pair.role_b == role || MaterialDynamicColors::rank(pair.role_b, scheme) < rank
                || is_flat_rule(MaterialDynamicColors::definition(pair.role_b, scheme).tone)
            &&& scheme.spec_version == SpecVersion::Spec2025 ==> MaterialDynamicColors::rank(
                if role == pair.role_a {
                    pair.role_b
                } else {
                    pair.role_a
                },
                scheme,
            ) < rank
        },
        None => true,
    }
}

/// The roles from `primary_palette_key_color` to `error_palette_key_color` refer downwards.
proof fn lemma_refer_downwards_0(role: Role, scheme: &DynamicScheme)
    requires
        role == Role::PrimaryPaletteKeyColor || role == Role::SecondaryPaletteKeyColor
        || role == Role::TertiaryPaletteKeyColor || role == Role::NeutralPaletteKeyColor
        || role == Role::NeutralVariantPaletteKeyColor || role == Role::ErrorPaletteKeyColor,
    ensures
        refers_downwards(MaterialDynamicColors::definition(role, scheme), role, scheme),
{
}

/// The roles from `background` to `surface_container_lowest` refer downwards.
proof fn lemma_refer_downwards_1(role: Role, scheme: &DynamicScheme)
    requires
        role == Role::Background || role == Role::OnBackground || role == Role::Surface
        || role == Role::SurfaceDim || role == Role::SurfaceBright
        || role == Role::SurfaceContainerLowest,
    ensures
        refers_downwards(MaterialDynamicColors::definition(role, scheme), role, scheme),
{
}

/// The roles from `surface_container_low` to `surface_variant` refer downwards.
proof fn lemma_refer_downwards_2(role: Role, scheme: &DynamicScheme)
    requires
        role == Role::SurfaceContainerLow || role == Role::SurfaceContainer
        || role == Role::SurfaceContainerHigh || role == Role::SurfaceContainerHighest
        || role == Role::OnSurface || role == Role::SurfaceVariant,
    ensures
        refers_downwards(MaterialDynamicColors::definition(role, scheme), role, scheme),
{
}

/// The roles from `on_surface_variant` to `shadow` refer downwards.
proof fn lemma_refer_downwards_3(role: Role, scheme: &DynamicScheme)
    requires
        role == Role::OnSurfaceVariant || role == Role::InverseSurface
        || role == Role::InverseOnSurface || role == Role::Outline
        || role == Role::OutlineVariant || role == Role::Shadow,
    ensures
        refers_downwards(MaterialDynamicColors::definition(role, scheme), role, scheme),
{
}

/// The roles from `scrim` to `primary_container` refer downwards.
proof fn lemma_refer_downwards_4(role: Role, scheme: &DynamicScheme)
    requires
        role == Role::Scrim || role == Role::SurfaceTint || role == Role::Primary
        || role == Role::PrimaryDim || role == Role::OnPrimary
        || role == Role::PrimaryContainer,
    ensures
        refers_downwards(MaterialDynamicColors::definition(role, scheme), role, scheme),
{
}

/// The roles from `on_primary_container` to `on_primary_fixed_variant` refer downwards.
proof fn lemma_refer_downwards_5(role: Role, scheme: &DynamicScheme)
    requires
        role == Role::OnPrimaryContainer || role == Role::InversePrimary
        || role == Role::PrimaryFixed || role == Role::PrimaryFixedDim
        || role == Role::OnPrimaryFixed || role == Role::OnPrimaryFixedVariant,
    ensures
        refers_downwards(MaterialDynamicColors::definition(role, scheme), role, scheme),
{
}

/// The roles from `secondary` to `secondary_fixed` refer downwards.
proof fn lemma_refer_downwards_6(role: Role, scheme: &DynamicScheme)
    requires
        role == Role::Secondary || role == Role::SecondaryDim || role == Role::OnSecondary
        || role == Role::SecondaryContainer || role == Role::OnSecondaryContainer
        || role == Role::SecondaryFixed,
    ensures
        refers_downwards(MaterialDynamicColors::definition(role, scheme), role, scheme),
{
}

/// The roles from `secondary_fixed_dim` to `on_tertiary` refer downwards.
proof fn lemma_refer_downwards_7(role: Role, scheme: &DynamicScheme)
    requires
        role == Role::SecondaryFixedDim || role == Role::OnSecondaryFixed
        || role == Role::OnSecondaryFixedVariant || role == Role::Tertiary
        || role == Role::TertiaryDim || role == Role::OnTertiary,
    ensures
        refers_downwards(MaterialDynamicColors::definition(role, scheme), role, scheme),
{
}

/// The roles from `tertiary_container` to `on_tertiary_fixed_variant` refer downwards.
proof fn lemma_refer_downwards_8(role: Role, scheme: &DynamicScheme)
    requires
        role == Role::TertiaryContainer || role == Role::OnTertiaryContainer
        || role == Role::TertiaryFixed || role == Role::TertiaryFixedDim
        || role == Role::OnTertiaryFixed || role == Role::OnTertiaryFixedVariant,
    ensures
        refers_downwards(MaterialDynamicColors::definition(role, scheme), role, scheme),
{
}

/// The roles from `error` to `control_activated` refer downwards.
proof fn lemma_refer_downwards_9(role: Role, scheme: &DynamicScheme)
    requires
        role == Role::Error || role == Role::ErrorDim || role == Role::OnError
        || role == Role::ErrorContainer || role == Role::OnErrorContainer
        || role == Role::ControlActivated,
    ensures
        refers_downwards(MaterialDynamicColors::definition(role, scheme), role, scheme),
{
}

/// The roles from `control_normal` to `text_secondary_and_tertiary_inverse_disabled` refer downwards.
proof fn lemma_refer_downwards_10(role: Role, scheme: &DynamicScheme)
    requires
        role == Role::ControlNormal || role == Role::ControlHighlight
        || role == Role::TextPrimaryInverse || role == Role::TextSecondaryAndTertiaryInverse
        || role == Role::TextPrimaryInverseDisableOnly
        || role == Role::TextSecondaryAndTertiaryInverseDisabled,
    ensures
        refers_downwards(MaterialDynamicColors::definition(role, scheme), role, scheme),
{
}

/// The roles from `text_hint_inverse` to `text_hint_inverse` refer downwards.
proof fn lemma_refer_downwards_11(role: Role, scheme: &DynamicScheme)
    requires
        role == Role::TextHintInverse,
    ensures
        refers_downwards(MaterialDynamicColors::definition(role, scheme), role, scheme),
{
}

/// No role refers to itself, however far the references are followed:
/// under every scheme, what the definition of a role refers to is of
/// lower rank than the role.
pub proof fn lemma_roles_refer_downwards(role: Role, scheme: &DynamicScheme)
    ensures
        refers_downwards(MaterialDynamicColors::definition(role, scheme), role, scheme),
{
    match role {
        Role::PrimaryPaletteKeyColor | Role::SecondaryPaletteKeyColor
        | Role::TertiaryPaletteKeyColor | Role::NeutralPaletteKeyColor
        | Role::NeutralVariantPaletteKeyColor | Role::ErrorPaletteKeyColor => {
            lemma_refer_downwards_0(role, scheme);
        },
        Role::Background | Role::OnBackground | Role::Surface | Role::SurfaceDim
        | Role::SurfaceBright | Role::SurfaceContainerLowest => {
            lemma_refer_downwards_1(role, scheme);
        },
        Role::SurfaceContainerLow | Role::SurfaceContainer | Role::SurfaceContainerHigh
        | Role::SurfaceContainerHighest | Role::OnSurface | Role::SurfaceVariant => {
            lemma_refer_downwards_2(role, scheme);
        },
        Role::OnSurfaceVariant | Role::InverseSurface | Role::InverseOnSurface | Role::Outline
        | Role::OutlineVariant | Role::Shadow => {
            lemma_refer_downwards_3(role, scheme);
        },
        Role::Scrim | Role::SurfaceTint | Role::Primary | Role::PrimaryDim | Role::OnPrimary
        | Role::PrimaryContainer => {
            lemma_refer_downwards_4(role, scheme);
        },
        Role::OnPrimaryContainer | Role::InversePrimary | Role::PrimaryFixed
        | Role::PrimaryFixedDim | Role::OnPrimaryFixed | Role::OnPrimaryFixedVariant => {
            lemma_refer_downwards_5(role, scheme);
        },
        Role::Secondary | Role::SecondaryDim | Role::OnSecondary | Role::SecondaryContainer
        | Role::OnSecondaryContainer | Role::SecondaryFixed => {
            lemma_refer_downwards_6(role, scheme);
        },
        Role::SecondaryFixedDim | Role::OnSecondaryFixed | Role::OnSecondaryFixedVariant
        | Role::Tertiary | Role::TertiaryDim | Role::OnTertiary => {
            lemma_refer_downwards_7(role, scheme);
        },
        Role::TertiaryContainer | Role::OnTertiaryContainer | Role::TertiaryFixed
        | Role::TertiaryFixedDim | Role::OnTertiaryFixed | Role::OnTertiaryFixedVariant => {
            lemma_refer_downwards_8(role, scheme);
        },
        Role::Error | Role::ErrorDim | Role::OnError | Role::ErrorContainer
        | Role::OnErrorContainer | Role::ControlActivated => {
            lemma_refer_downwards_9(role, scheme);
        },
        Role::ControlNormal | Role::ControlHighlight | Role::TextPrimaryInverse
        | Role::TextSecondaryAndTertiaryInverse | Role::TextPrimaryInverseDisableOnly
        | Role::TextSecondaryAndTertiaryInverseDisabled => {
            lemma_refer_downwards_10(role, scheme);
        },
        Role::TextHintInverse => {
            lemma_refer_downwards_11(role, scheme);
        },
    }
}

/// A scheme has the same ranks in its light form at standard contrast.
pub proof fn lemma_rank_ignores_light_and_contrast(role: Role, scheme: &DynamicScheme)
    ensures
        MaterialDynamicColors::rank(role, &scheme.light_standard()) == MaterialDynamicColors::rank(
            role,
            scheme,
        ),
{
}

/// The definitions of the two versions are of the same role, and both or
/// neither of a background: each definition of 2025 can stand in for the
/// one of 2021.
pub proof fn lemma_versions_define_the_same_roles(role: Role, scheme: &DynamicScheme)
    ensures
        ColorSpec2025::definition(role, scheme).role == role,
        ColorSpec2021::definition(role, scheme) matches Some(definition) ==> definition.role
            == role && definition.is_background == ColorSpec2025::definition(
            role,
            scheme,
        ).is_background,
{
}

} // verus!
