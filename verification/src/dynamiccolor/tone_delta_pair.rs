//! A constraint on the distance in tone between two roles.
use vstd::prelude::*;
use crate::dynamiccolor::role::Role;
use crate::fixed::Fixed;

verus! {

/// How a distance in tone binds: exactly, as a most, or as a least.
#[derive(Clone, Copy, Debug, PartialEq, Eq, Hash, Structural)]
pub enum DeltaConstraint {
    /// The tones are exactly the distance apart.
    Exact,
    /// The tones are at most the distance apart.
    Nearer,
    /// The tones are at least the distance apart.
    Farther,
}

/// Which of the two roles of a pair is the lighter.
#[derive(Clone, Copy, Debug, PartialEq, Eq, Hash, Structural)]
pub enum TonePolarity {
    /// The first role is darker than the second.
    Darker,
    /// The first role is lighter than the second.
    Ligher,
    /// The first role is darker than the second in a light scheme, and
    /// lighter in a dark one.
    RelativeDarker,
    /// The first role is lighter than the second in a light scheme, and
    /// darker in a dark one.
    RelativeLighter,
}

/// Two roles whose tones must keep a distance: for colours that are seen
/// side by side but are not background and foreground to each other.
#[derive(Clone, Copy, Debug, PartialEq, Eq, Structural)]
pub struct ToneDeltaPair {
    pub role_a: Role,
    pub role_b: Role,
    pub delta: Fixed,
    pub polarity: TonePolarity,
    pub stay_together: bool,
    pub constraint: DeltaConstraint,
}

impl ToneDeltaPair {
    /// The pair with every part given.
    pub open spec fn spec_new(
        role_a: Role,
        role_b: Role,
        delta: Fixed,
        polarity: TonePolarity,
        stay_together: bool,
        constraint: DeltaConstraint,
    ) -> ToneDeltaPair {
        ToneDeltaPair { role_a, role_b, delta, polarity, stay_together, constraint }
    }

    #[verifier::when_used_as_spec(spec_new)]
    pub fn new(
        role_a: Role,
        role_b: Role,
        delta: Fixed,
        polarity: TonePolarity,
        stay_together: bool,
        constraint: DeltaConstraint,
    ) -> (out: ToneDeltaPair)
        ensures
            out == Self::spec_new(role_a, role_b, delta, polarity, stay_together, constraint),
    {
        ToneDeltaPair { role_a, role_b, delta, polarity, stay_together, constraint }
    }

    /// The pair whose distance binds exactly.
    pub open spec fn spec_with_stay_together(
        role_a: Role,
        role_b: Role,
        delta: Fixed,
        polarity: TonePolarity,
        stay_together: bool,
    ) -> ToneDeltaPair {
        Self::new(role_a, role_b, delta, polarity, stay_together, DeltaConstraint::Exact)
    }

    #[verifier::when_used_as_spec(spec_with_stay_together)]
    pub fn with_stay_together(
        role_a: Role,
        role_b: Role,
        delta: Fixed,
        polarity: TonePolarity,
        stay_together: bool,
    ) -> (out: ToneDeltaPair)
        ensures
            out == Self::spec_with_stay_together(role_a, role_b, delta, polarity, stay_together),
    {
        Self::new(role_a, role_b, delta, polarity, stay_together, DeltaConstraint::Exact)
    }

    /// The pair whose roles stay on one side of the middle tones.
    pub open spec fn spec_with_constraint(
        role_a: Role,
        role_b: Role,
        delta: Fixed,
        polarity: TonePolarity,
        constraint: DeltaConstraint,
    ) -> ToneDeltaPair {
        Self::new(role_a, role_b, delta, polarity, true, constraint)
    }

    #[verifier::when_used_as_spec(spec_with_constraint)]
    pub fn with_constraint(
        role_a: Role,
        role_b: Role,
        delta: Fixed,
        polarity: TonePolarity,
        constraint: DeltaConstraint,
    ) -> (out: ToneDeltaPair)
        ensures
            out == Self::spec_with_constraint(role_a, role_b, delta, polarity, constraint),
    {
        Self::new(role_a, role_b, delta, polarity, true, constraint)
    }

    /// The first role.
    pub fn role_a(&self) -> (out: Role)
        ensures
            out == self.role_a,
    {
        self.role_a
    }

    /// The second role.
    pub fn role_b(&self) -> (out: Role)
        ensures
            out == self.role_b,
    {
        self.role_b
    }

    /// The distance in tone.
    pub fn delta(&self) -> (out: Fixed)
        ensures
            out == self.delta,
    {
        self.delta
    }

    /// Which role is the lighter.
    pub fn polarity(&self) -> (out: TonePolarity)
        ensures
            out == self.polarity,
    {
        self.polarity
    }

    /// Whether both roles leave the middle tones together.
    pub fn stay_together(&self) -> (out: bool)
        ensures
            out == self.stay_together,
    {
        self.stay_together
    }

    /// How the distance binds.
    pub fn constraint(&self) -> (out: DeltaConstraint)
        ensures
            out == self.constraint,
    {
        self.constraint
    }
}

} // verus!
