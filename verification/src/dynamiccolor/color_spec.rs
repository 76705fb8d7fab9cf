//! What a version of the rules says of the roles.
use vstd::prelude::*;
use crate::dynamiccolor::color_spec_2021::ColorSpec2021;
use crate::dynamiccolor::color_spec_2025::ColorSpec2025;
use crate::dynamiccolor::dynamic_color::RoleDefinition;
use crate::dynamiccolor::dynamic_scheme::DynamicScheme;
use crate::dynamiccolor::role::Role;

verus! {

/// A version of the rules that define the roles.
pub trait ColorSpec {
    /// What a role is under a scheme; `None` where the rules do not know
    /// the role.
    fn definition(&self, role: Role, scheme: &DynamicScheme) -> Option<RoleDefinition>;

    /// The surface on which accents are drawn.
    fn highest_surface(&self, scheme: &DynamicScheme) -> Role;
}

impl ColorSpec for ColorSpec2021 {
    fn definition(&self, role: Role, scheme: &DynamicScheme) -> (out: Option<RoleDefinition>)
        ensures
            out == ColorSpec2021::definition(role, scheme),
    {
        ColorSpec2021::definition(role, scheme)
    }

    fn highest_surface(&self, scheme: &DynamicScheme) -> (out: Role)
        ensures
            out == ColorSpec2021::highest_surface(scheme),
    {
        ColorSpec2021::highest_surface(scheme)
    }
}

impl ColorSpec for ColorSpec2025 {
    fn definition(&self, role: Role, scheme: &DynamicScheme) -> (out: Option<RoleDefinition>)
        ensures
            out == Some(ColorSpec2025::definition(role, scheme)),
    {
        Some(ColorSpec2025::definition(role, scheme))
    }

    fn highest_surface(&self, scheme: &DynamicScheme) -> (out: Role)
        ensures
            out == ColorSpec2025::highest_surface(scheme),
    {
        ColorSpec2025::highest_surface(scheme)
    }
}

} // verus!
