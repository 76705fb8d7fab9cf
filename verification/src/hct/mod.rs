//! The HCT colour space: hue and chroma as CAM16 measures them, tone as
//! L*a*b* measures lightness.
pub mod cam16;
pub mod hct;
pub mod hct_solver;
pub mod viewing_conditions;

pub use crate::hct::cam16::Cam16;
pub use crate::hct::hct::Hct;
pub use crate::hct::viewing_conditions::ViewingConditions;
