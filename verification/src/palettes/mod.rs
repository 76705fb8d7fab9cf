//! Palettes.
pub mod palette;
pub mod tonal_palette;

pub use crate::palettes::palette::{Palette, Palettes};
pub use crate::palettes::tonal_palette::{PaletteKey, TonalPalette};
