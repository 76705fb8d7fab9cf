//! Weighted square means.
use vstd::prelude::*;

verus! {

/// K-means with the shortcuts of M. Emre Celebi (Improving the Performance
/// of K-Means for Color Quantization, 2011): equal pixels are counted
/// once, and the triangle inequality saves comparisons.
#[derive(Clone, Copy, Debug, Default, PartialEq, Eq, Hash)]
pub struct QuantizerWsmeans {}

impl QuantizerWsmeans {
    /// The most rounds of K-means.
    pub const MAX_ITERATIONS: usize = 10;
}

} // verus!
