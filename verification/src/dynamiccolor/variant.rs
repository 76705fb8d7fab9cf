//! The aesthetic presets of a scheme.
use vstd::prelude::*;

verus! {

/// The aesthetic preset of a dynamic scheme.
#[derive(Clone, Copy, Debug, PartialEq, Eq, Structural)]
pub enum Variant {
    Monochrome,
    Neutral,
    TonalSpot,
    Vibrant,
    Expressive,
    Fidelity,
    Content,
    Rainbow,
    FruitSalad,
}

} // verus!
