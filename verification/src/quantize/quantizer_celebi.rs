//! Celebi's quantizer.
use vstd::prelude::*;

verus! {

/// K-means started from the clusters of Wu's quantizer instead of random
/// ones.
#[derive(Clone, Copy, Debug, Default, PartialEq, Eq, Hash)]
pub struct QuantizerCelebi;

} // verus!
