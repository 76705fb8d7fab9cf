//! The kinds of device that a scheme is made for.
use vstd::prelude::*;

verus! {

/// The kind of device that a scheme is made for.
#[derive(Clone, Copy, Debug, PartialEq, Eq, Hash, Structural)]
pub enum Platform {
    Phone,
    Watch,
}

} // verus!
