//! Quantizers: from the pixels of an image to a few colours.
pub mod point_provider;
pub mod quantizer;
pub mod quantizer_celebi;
pub mod quantizer_map;
pub mod quantizer_wsmeans;
pub mod quantizer_wu;

pub use crate::quantize::point_provider::{PointProvider, PointProviderLab};
pub use crate::quantize::quantizer::{Quantizer, QuantizerResult};
pub use crate::quantize::quantizer_celebi::QuantizerCelebi;
pub use crate::quantize::quantizer_map::QuantizerMap;
pub use crate::quantize::quantizer_wsmeans::QuantizerWsmeans;
pub use crate::quantize::quantizer_wu::QuantizerWu;
