//! How the tone of a role follows from its definition and from the tones
//! of the roles that it refers to.
use vstd::prelude::*;
use crate::dynamiccolor::contrast_curve::ContrastCurve;
use crate::dynamiccolor::dynamic_color::RoleDefinition;
use crate::dynamiccolor::dynamic_scheme::DynamicScheme;
use crate::fixed::Fixed;
use crate::hct::hct::Hct;

verus! {

/// What the resolution of a pair of roles needs to know of the two.
#[derive(Clone, Copy, Debug, PartialEq, Eq, Structural)]
pub struct PairInputs {
    /// The tone of the first role before constraints.
    pub a_nominal: Fixed,
    /// The tone of the second role before constraints.
    pub b_nominal: Fixed,
    /// The contrast curve of the first role.
    pub a_curve: Option<ContrastCurve>,
    /// The contrast curve of the second role.
    pub b_curve: Option<ContrastCurve>,
    /// The resolved tone of the role of the pair that is not being
    /// resolved; the rules of 2021 do not look at it.
    pub reference_tone: Fixed,
}

/// What the resolution of a role needs to know of other roles.
#[derive(Clone, Copy, Debug, PartialEq, Eq, Structural)]
pub struct ToneInputs {
    /// The tone of the role before constraints.
    pub nominal: Fixed,
    /// The resolved tone of the background, where the role has one.
    pub background: Option<Fixed>,
    /// The resolved tone of the second background, where the role has
    /// one.
    pub second_background: Option<Fixed>,
    /// The roles of the pair, where the role belongs to one.
    pub pair: Option<PairInputs>,
}

/// A version of the rules by which tones are resolved.
pub trait ColorCalculationSpec {
    /// The colour of a role at its resolved tone.
    fn get_hct(&self, scheme: &DynamicScheme, definition: &RoleDefinition, tone: Fixed) -> Hct;

    /// The resolved tone of a role.
    fn get_tone(&self, scheme: &DynamicScheme, definition: &RoleDefinition, inputs: &ToneInputs) -> Fixed;
}

} // verus!
