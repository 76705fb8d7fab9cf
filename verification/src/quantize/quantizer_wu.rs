//! Wu's quantizer.
use vstd::prelude::*;

verus! {

/// The quantizer of Xiaolin Wu (Graphics Gems II, 1991): it cuts the RGB
/// cube again and again by the weight of the pixels on either side.
#[derive(Clone, Copy, Debug, Default, PartialEq, Eq)]
pub struct QuantizerWu {}

} // verus!
