//! Dynamic colour: the named roles of a user interface, resolved from a
//! seed colour under contrast and tone-distance constraints.
pub mod color_calculation_spec;
pub mod color_calculation_spec_2021;
pub mod color_calculation_spec_2025;
pub mod color_spec;
pub mod color_spec_2021;
pub mod color_spec_2025;
pub mod contrast_curve;
pub mod dynamic_color;
pub mod dynamic_scheme;
pub mod laws;
pub mod material_dynamic_colors;
pub mod palettes_spec;
pub mod palettes_spec_2021;
pub mod palettes_spec_2025;
pub mod platform;
pub mod resolution;
pub mod role;
pub mod spec_version;
pub mod tone_delta_pair;
pub mod variant;

pub use crate::dynamiccolor::color_calculation_spec::{ColorCalculationSpec, PairInputs, ToneInputs};
pub use crate::dynamiccolor::color_calculation_spec_2021::ColorCalculationSpec2021;
pub use crate::dynamiccolor::color_calculation_spec_2025::ColorCalculationSpec2025;
pub use crate::dynamiccolor::color_spec::ColorSpec;
pub use crate::dynamiccolor::color_spec_2021::ColorSpec2021;
pub use crate::dynamiccolor::color_spec_2025::ColorSpec2025;
pub use crate::dynamiccolor::contrast_curve::ContrastCurve;
pub use crate::dynamiccolor::dynamic_color::{
    DynamicColor, DynamicColorBuilder, ExtendError, RoleDefinition, ToneRule,
};
pub use crate::dynamiccolor::dynamic_scheme::{
    BuildError, DynamicScheme, DynamicSchemeBuilder, DynamicSchemeOptions, DynamicSchemePalette,
    PlatformAndSpecVersion,
};
pub use crate::dynamiccolor::material_dynamic_colors::MaterialDynamicColors;
pub use crate::dynamiccolor::palettes_spec::PalettesSpec;
pub use crate::dynamiccolor::palettes_spec_2021::PalettesSpec2021;
pub use crate::dynamiccolor::palettes_spec_2025::PalettesSpec2025;
pub use crate::dynamiccolor::platform::Platform;
pub use crate::dynamiccolor::resolution::{DynamicColors, SchemeColors};
pub use crate::dynamiccolor::role::{PaletteKind, Role};
pub use crate::dynamiccolor::spec_version::{
    SpecVersion, VersionColorCalculationSpec, VersionColorSpec, VersionPalettesSpec,
};
pub use crate::dynamiccolor::tone_delta_pair::{DeltaConstraint, ToneDeltaPair, TonePolarity};
pub use crate::dynamiccolor::variant::Variant;
