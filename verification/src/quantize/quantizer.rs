//! What a quantizer is and what it returns.
use std::collections::HashMap;
use vstd::prelude::*;

verus! {

/// The colours that stand for an image, each with the number of pixels
/// that it stands for.
#[derive(Debug, Default, Clone, PartialEq, Eq)]
pub struct QuantizerResult {
    pub color_to_count: HashMap<u32, usize>,
}

/// A way to reduce the pixels of an image to at most `max_colors`
/// colours.
pub trait Quantizer {
    fn quantize(self, pixels: &[u32], max_colors: usize) -> QuantizerResult;
}

} // verus!
