//! What a role is under a scheme, and the arithmetic of foreground tones.
use vstd::prelude::*;
use crate::contrast::{darker_unsafe, lighter_unsafe, ratio_of_tones};
use crate::dynamiccolor::contrast_curve::ContrastCurve;
use crate::dynamiccolor::dynamic_scheme::DynamicScheme;
use crate::dynamiccolor::role::{PaletteKind, Role};
use crate::dynamiccolor::spec_version::SpecVersion;
use crate::dynamiccolor::tone_delta_pair::ToneDeltaPair;
use crate::fixed::{fx, Fixed, TENTH};

verus! {

/// Where the tone of a role comes from before any constraint is applied.
#[derive(Clone, Copy, Debug, PartialEq, Eq, Structural)]
pub enum ToneRule {
    /// The tone itself.
    Value(Fixed),
    /// The resolved tone of the role's background; 50 for a role without
    /// one.
    FromBackground,
    /// The resolved tone of another role under the same scheme.
    SameAs(Role),
    /// The resolved tone of another role under the light form of the
    /// scheme at standard contrast.
    LightStandard(Role),
    /// The tone, from 100 downwards, at which a palette shows most of
    /// its chroma times a factor, held within two bounds.
    MaxChroma { palette: PaletteKind, lower: Fixed, upper: Fixed, chroma_multiplier: Fixed },
    /// The tone, from 0 upwards, at which a palette shows most of its
    /// chroma, held within two bounds.
    MinChroma { palette: PaletteKind, lower: Fixed, upper: Fixed },
}

/// What a role is under one scheme: where its colour comes from and what
/// constrains it.
#[derive(Clone, Copy, Debug, PartialEq, Eq, Structural)]
pub struct RoleDefinition {
    pub role: Role,
    /// The palette that gives hue and chroma.
    pub palette: PaletteKind,
    /// The tone before constraints.
    pub tone: ToneRule,
    /// Whether other roles are drawn on this one.
    pub is_background: bool,
    /// The factor on the palette's chroma; 1 leaves it as it is.
    pub chroma_multiplier: Fixed,
    /// The role that this one is drawn on.
    pub background: Option<Role>,
    /// A second role that this one is drawn on.
    pub second_background: Option<Role>,
    /// The contrast wanted against the background.
    pub contrast_curve: Option<ContrastCurve>,
    /// The role whose tone must keep a distance from this one's.
    pub tone_delta_pair: Option<ToneDeltaPair>,
    /// The opacity, from 0 to 1; `None` for an opaque role.
    pub opacity: Option<Fixed>,
}

/// Why one definition cannot stand in for another under a version of the
/// rules.
#[derive(Clone, Copy, Debug, PartialEq, Eq, Structural)]
pub enum ExtendError {
    /// The two definitions are of different roles.
    DifferentName,
    /// One definition is of a background and the other is not.
    DifferentKind,
}

impl RoleDefinition {
    /// A definition with a palette and a tone and nothing else: not a
    /// background, drawn on nothing, unconstrained and opaque.
    pub open spec fn spec_plain(
        role: Role,
        palette: PaletteKind,
        tone: ToneRule,
    ) -> RoleDefinition {
        RoleDefinition {
            role,
            palette,
            tone,
            is_background: false,
            chroma_multiplier: Fixed::from_int(1),
            background: None,
            second_background: None,
            contrast_curve: None,
            tone_delta_pair: None,
            opacity: None,
        }
    }

    #[verifier::when_used_as_spec(spec_plain)]
    pub fn plain(role: Role, palette: PaletteKind, tone: ToneRule) -> (out: RoleDefinition)
        ensures
            out == Self::spec_plain(role, palette, tone),
    {
        RoleDefinition {
            role,
            palette,
            tone,
            is_background: false,
            chroma_multiplier: Fixed::from_int(1),
            background: None,
            second_background: None,
            contrast_curve: None,
            tone_delta_pair: None,
            opacity: None,
        }
    }

    /// This definition, or `extended` in its place under the schemes of
    /// the version `spec_version`. The two must be of the same role, and
    /// both or neither of a background.
    pub open spec fn spec_extend_spec_version(self, spec_version: SpecVersion, extended: RoleDefinition, scheme: &DynamicScheme) -> Result<RoleDefinition, ExtendError> {
        if self.role != extended.role {
            Err(ExtendError::DifferentName)
        } else if self.is_background != extended.is_background {
            Err(ExtendError::DifferentKind)
        } else if scheme.spec_version == spec_version {
            Ok(extended)
        } else {
            Ok(self)
        }
    }

    #[verifier::when_used_as_spec(spec_extend_spec_version)]
    pub fn extend_spec_version(self, spec_version: SpecVersion, extended: RoleDefinition, scheme: &DynamicScheme) -> (out: Result<RoleDefinition, ExtendError>)
        ensures
            out == self.spec_extend_spec_version(spec_version, extended, scheme),
    {
        if self.role != extended.role {
            Err(ExtendError::DifferentName)
        } else if self.is_background != extended.is_background {
            Err(ExtendError::DifferentKind)
        } else if scheme.spec_version == spec_version {
            Ok(extended)
        } else {
            Ok(self)
        }
    }
}

/// The parts of a definition, as far as they have been given.
#[derive(Clone, Copy, Debug, PartialEq, Eq, Structural)]
pub struct DynamicColorBuilder {
    pub name: Option<Role>,
    pub palette: Option<PaletteKind>,
    pub tone: Option<ToneRule>,
    pub is_background: Option<bool>,
    pub chroma_multiplier: Option<Fixed>,
    pub background: Option<Role>,
    pub second_background: Option<Role>,
    pub contrast_curve: Option<ContrastCurve>,
    pub tone_delta_pair: Option<ToneDeltaPair>,
    pub opacity: Option<Fixed>,
}

impl DynamicColorBuilder {
    /// The builder with nothing given.
    pub open spec fn spec_new() -> DynamicColorBuilder {
        DynamicColorBuilder {
            name: None,
            palette: None,
            tone: None,
            is_background: None,
            chroma_multiplier: None,
            background: None,
            second_background: None,
            contrast_curve: None,
            tone_delta_pair: None,
            opacity: None,
        }
    }

    #[verifier::when_used_as_spec(spec_new)]
    pub fn new() -> (out: DynamicColorBuilder)
        ensures
            out == Self::spec_new(),
    {
        DynamicColorBuilder {
            name: None,
            palette: None,
            tone: None,
            is_background: None,
            chroma_multiplier: None,
            background: None,
            second_background: None,
            contrast_curve: None,
            tone_delta_pair: None,
            opacity: None,
        }
    }

    /// The builder that builds a given definition again.
    pub open spec fn spec_from_definition(definition: RoleDefinition) -> DynamicColorBuilder {
        DynamicColorBuilder {
            name: Some(definition.role),
            palette: Some(definition.palette),
            tone: Some(definition.tone),
            is_background: Some(definition.is_background),
            chroma_multiplier: Some(definition.chroma_multiplier),
            background: definition.background,
            second_background: definition.second_background,
            contrast_curve: definition.contrast_curve,
            tone_delta_pair: definition.tone_delta_pair,
            opacity: definition.opacity,
        }
    }

    #[verifier::when_used_as_spec(spec_from_definition)]
    pub fn from_definition(definition: RoleDefinition) -> (out: DynamicColorBuilder)
        ensures
            out == Self::spec_from_definition(definition),
    {
        DynamicColorBuilder {
            name: Some(definition.role),
            palette: Some(definition.palette),
            tone: Some(definition.tone),
            is_background: Some(definition.is_background),
            chroma_multiplier: Some(definition.chroma_multiplier),
            background: definition.background,
            second_background: definition.second_background,
            contrast_curve: definition.contrast_curve,
            tone_delta_pair: definition.tone_delta_pair,
            opacity: definition.opacity,
        }
    }

    /// The role that is defined.
    pub fn name(self, name: Role) -> (out: Self)
        ensures
            out == (DynamicColorBuilder { name: Some(name), ..self }),
    {
        DynamicColorBuilder { name: Some(name), ..self }
    }

    /// The palette that gives hue and chroma.
    pub fn palette(self, palette: PaletteKind) -> (out: Self)
        ensures
            out == (DynamicColorBuilder { palette: Some(palette), ..self }),
    {
        DynamicColorBuilder { palette: Some(palette), ..self }
    }

    /// The tone before constraints.
    pub fn tone(self, tone: ToneRule) -> (out: Self)
        ensures
            out == (DynamicColorBuilder { tone: Some(tone), ..self }),
    {
        DynamicColorBuilder { tone: Some(tone), ..self }
    }

    /// Whether other roles are drawn on this one.
    pub fn is_background(self, is_background: bool) -> (out: Self)
        ensures
            out == (DynamicColorBuilder { is_background: Some(is_background), ..self }),
    {
        DynamicColorBuilder { is_background: Some(is_background), ..self }
    }

    /// The factor on the chroma of the palette.
    pub fn chroma_multiplier(self, chroma_multiplier: Fixed) -> (out: Self)
        ensures
            out == (DynamicColorBuilder { chroma_multiplier: Some(chroma_multiplier), ..self }),
    {
        DynamicColorBuilder { chroma_multiplier: Some(chroma_multiplier), ..self }
    }

    /// The role that this one is drawn on.
    pub fn background(self, background: Role) -> (out: Self)
        ensures
            out == (DynamicColorBuilder { background: Some(background), ..self }),
    {
        DynamicColorBuilder { background: Some(background), ..self }
    }

    /// A second role that this one is drawn on.
    pub fn second_background(self, second_background: Role) -> (out: Self)
        ensures
            out == (DynamicColorBuilder { second_background: Some(second_background), ..self }),
    {
        DynamicColorBuilder { second_background: Some(second_background), ..self }
    }

    /// The contrast wanted against the background.
    pub fn contrast_curve(self, contrast_curve: ContrastCurve) -> (out: Self)
        ensures
            out == (DynamicColorBuilder { contrast_curve: Some(contrast_curve), ..self }),
    {
        DynamicColorBuilder { contrast_curve: Some(contrast_curve), ..self }
    }

    /// The pair that the role belongs to.
    pub fn tone_delta_pair(self, tone_delta_pair: ToneDeltaPair) -> (out: Self)
        ensures
            out == (DynamicColorBuilder { tone_delta_pair: Some(tone_delta_pair), ..self }),
    {
        DynamicColorBuilder { tone_delta_pair: Some(tone_delta_pair), ..self }
    }

    /// The opacity, from 0 to 1.
    pub fn opacity(self, opacity: Fixed) -> (out: Self)
        ensures
            out == (DynamicColorBuilder { opacity: Some(opacity), ..self }),
    {
        DynamicColorBuilder { opacity: Some(opacity), ..self }
    }

    /// This builder, or the one of `extended` in its place under the
    /// schemes of the version `spec_version`. The role and whether it is a
    /// background must have been given, and `extended` must agree with
    /// both.
    pub open spec fn spec_extend_spec_version(
        self,
        spec_version: SpecVersion,
        extended: RoleDefinition,
        scheme: &DynamicScheme,
    ) -> Result<DynamicColorBuilder, ExtendError> {
        if self.name != Some(extended.role) {
            Err(ExtendError::DifferentName)
        } else if self.is_background != Some(extended.is_background) {
            Err(ExtendError::DifferentKind)
        } else if scheme.spec_version == spec_version {
            Ok(Self::from_definition(extended))
        } else {
            Ok(self)
        }
    }

    #[verifier::when_used_as_spec(spec_extend_spec_version)]
    pub fn extend_spec_version(
        self,
        spec_version: SpecVersion,
        extended: RoleDefinition,
        scheme: &DynamicScheme,
    ) -> (out: Result<DynamicColorBuilder, ExtendError>)
        requires
            self.name.is_some(),
            self.is_background.is_some(),
        ensures
            out == self.spec_extend_spec_version(spec_version, extended, scheme),
    {
        if self.name != Some(extended.role) {
            Err(ExtendError::DifferentName)
        } else if self.is_background != Some(extended.is_background) {
            Err(ExtendError::DifferentKind)
        } else if scheme.spec_version == spec_version {
            Ok(Self::from_definition(extended))
        } else {
            Ok(self)
        }
    }

    /// The definition of what has been given; `None` without a role or a
    /// palette. A role without a tone takes the tone of its background,
    /// a role is no background unless it is said to be one, and chroma is
    /// left as it is unless a factor is given.
    pub open spec fn spec_build(self) -> Option<RoleDefinition> {
        match (self.name, self.palette) {
            (Some(role), Some(palette)) => Some(
                RoleDefinition {
                    role,
                    palette,
                    tone: match self.tone {
                        Some(tone) => tone,
                        None => ToneRule::FromBackground,
                    },
                    is_background: match self.is_background {
                        Some(is_background) => is_background,
                        None => false,
                    },
                    chroma_multiplier: match self.chroma_multiplier {
                        Some(factor) => factor,
                        None => Fixed::from_int(1),
                    },
                    background: self.background,
                    second_background: self.second_background,
                    contrast_curve: self.contrast_curve,
                    tone_delta_pair: self.tone_delta_pair,
                    opacity: self.opacity,
                },
            ),
            _ => None,
        }
    }

    #[verifier::when_used_as_spec(spec_build)]
    pub fn build(self) -> (out: Option<RoleDefinition>)
        ensures
            out == self.spec_build(),
    {
        match (self.name, self.palette) {
            (Some(role), Some(palette)) => Some(
                RoleDefinition {
                    role,
                    palette,
                    tone: match self.tone {
                        Some(tone) => tone,
                        None => ToneRule::FromBackground,
                    },
                    is_background: match self.is_background {
                        Some(is_background) => is_background,
                        None => false,
                    },
                    chroma_multiplier: match self.chroma_multiplier {
                        Some(factor) => factor,
                        None => Fixed::from_int(1),
                    },
                    background: self.background,
                    second_background: self.second_background,
                    contrast_curve: self.contrast_curve,
                    tone_delta_pair: self.tone_delta_pair,
                    opacity: self.opacity,
                },
            ),
            _ => None,
        }
    }
}

/// A definition built again from its own parts is the same definition.
pub proof fn lemma_builder_rebuilds(definition: RoleDefinition)
    ensures
        DynamicColorBuilder::from_definition(definition).build() == Some(definition),
{
}

/// Extending a builder agrees with extending the definition that it
/// builds.
pub proof fn lemma_builder_extends_as_its_definition(base: RoleDefinition, spec_version: SpecVersion, extended: RoleDefinition, scheme: &DynamicScheme)
    ensures
        match DynamicColorBuilder::from_definition(base).extend_spec_version(
            spec_version,
            extended,
            scheme,
        ) {
            Ok(builder) => builder.build() == Some(
                base.extend_spec_version(spec_version, extended, scheme).unwrap(),
            ) && base.extend_spec_version(spec_version, extended, scheme).is_ok(),
            Err(error) => base.extend_spec_version(spec_version, extended, scheme) == Err::<
                RoleDefinition,
                ExtendError,
            >(error),
        },
{
}

/// A role, as a value that can be asked for its colour under a scheme.
#[derive(Clone, Copy, Debug, PartialEq, Eq, Structural)]
pub struct DynamicColor {
    pub role: Role,
}

impl DynamicColor {
    /// The dynamic colour of a role.
    pub open spec fn spec_new(role: Role) -> DynamicColor {
        DynamicColor { role }
    }

    #[verifier::when_used_as_spec(spec_new)]
    pub fn new(role: Role) -> (out: DynamicColor)
        ensures
            out == Self::spec_new(role),
    {
        DynamicColor { role }
    }

    /// The name of the role.
    pub fn name(&self) -> (out: &'static str)
        ensures
            out@ == self.role.spec_name(),
    {
        self.role.name()
    }

    /// Whether a light foreground suits a background of the given tone:
    /// the tone, rounded, is below 60.
    pub open spec fn spec_tone_prefers_light_foreground(tone: Fixed) -> bool {
        tone.round().lt(Fixed::from_int(60))
    }

    #[verifier::when_used_as_spec(spec_tone_prefers_light_foreground)]
    pub fn tone_prefers_light_foreground(tone: Fixed) -> (out: bool)
        ensures
            out == Self::spec_tone_prefers_light_foreground(tone),
    {
        tone.round().lt(Fixed::from_int(60))
    }

    /// Whether a light foreground can reach the usual contrast on a
    /// background of the given tone: the tone, rounded, is at most 49.
    pub open spec fn spec_tone_allows_light_foreground(tone: Fixed) -> bool {
        tone.round().le(Fixed::from_int(49))
    }

    #[verifier::when_used_as_spec(spec_tone_allows_light_foreground)]
    pub fn tone_allows_light_foreground(tone: Fixed) -> (out: bool)
        ensures
            out == Self::spec_tone_allows_light_foreground(tone),
    {
        tone.round().le(Fixed::from_int(49))
    }

    /// A background tone on which a light foreground works: tones that
    /// prefer a light foreground but do not allow one become 49.
    pub open spec fn spec_enable_light_foreground(tone: Fixed) -> Fixed {
        if Self::tone_prefers_light_foreground(tone) && !Self::tone_allows_light_foreground(tone) {
            Fixed::from_int(49)
        } else {
            tone
        }
    }

    #[verifier::when_used_as_spec(spec_enable_light_foreground)]
    pub fn enable_light_foreground(tone: Fixed) -> (out: Fixed)
        ensures
            out == Self::spec_enable_light_foreground(tone),
    {
        if Self::tone_prefers_light_foreground(tone) && !Self::tone_allows_light_foreground(tone) {
            Fixed::from_int(49)
        } else {
            tone
        }
    }

    /// The tone of a foreground that has the contrast `ratio` to a
    /// background of tone `bg_tone`. On a background that prefers a light
    /// foreground the lighter answer is taken where it reaches the ratio,
    /// or comes at least as near to it as the darker one, or where both
    /// fall short of it by nearly the same; else the darker. On other
    /// backgrounds the darker answer is taken where it reaches the ratio
    /// or comes at least as near; else the lighter.
    pub open spec fn spec_foreground_tone(bg_tone: Fixed, ratio: Fixed) -> Fixed {
        let lighter_tone = lighter_unsafe(bg_tone, ratio);
        let darker_tone = darker_unsafe(bg_tone, ratio);
        let lighter_ratio = ratio_of_tones(lighter_tone, bg_tone);
        let darker_ratio = ratio_of_tones(darker_tone, bg_tone);
        if Self::tone_prefers_light_foreground(bg_tone) {
            let negligible_difference = lighter_ratio.minus(darker_ratio).abs().lt(fx(TENTH))
                && lighter_ratio.lt(ratio) && darker_ratio.lt(ratio);
            if lighter_ratio.ge(ratio) || lighter_ratio.ge(darker_ratio) || negligible_difference {
                lighter_tone
            } else {
                darker_tone
            }
        } else if darker_ratio.ge(ratio) || darker_ratio.ge(lighter_ratio) {
            darker_tone
        } else {
            lighter_tone
        }
    }

    #[verifier::when_used_as_spec(spec_foreground_tone)]
    pub fn foreground_tone(bg_tone: Fixed, ratio: Fixed) -> (out: Fixed)
        ensures
            out == Self::spec_foreground_tone(bg_tone, ratio),
            0 <= out.raw <= 100_000_000_000_000,
    {
        let lighter_tone = lighter_unsafe(bg_tone, ratio);
        let darker_tone = darker_unsafe(bg_tone, ratio);
        let lighter_ratio = ratio_of_tones(lighter_tone, bg_tone);
        let darker_ratio = ratio_of_tones(darker_tone, bg_tone);
        if Self::tone_prefers_light_foreground(bg_tone) {
            let negligible_difference = lighter_ratio.minus(darker_ratio).abs().lt(fx(TENTH))
                && lighter_ratio.lt(ratio) && darker_ratio.lt(ratio);
            if lighter_ratio.ge(ratio) || lighter_ratio.ge(darker_ratio) || negligible_difference {
                lighter_tone
            } else {
                darker_tone
            }
        } else if darker_ratio.ge(ratio) || darker_ratio.ge(lighter_ratio) {
            darker_tone
        } else {
            lighter_tone
        }
    }
}

impl From<RoleDefinition> for DynamicColorBuilder {
    /// The builder that rebuilds a given definition.
    fn from(definition: RoleDefinition) -> (out: Self) {
        DynamicColorBuilder::from_definition(definition)
    }
}

impl vstd::std_specs::convert::FromSpecImpl<RoleDefinition> for DynamicColorBuilder {
    open spec fn obeys_from_spec() -> bool {
        true
    }

    open spec fn from_spec(definition: RoleDefinition) -> Self {
        DynamicColorBuilder::spec_from_definition(definition)
    }
}

} // verus!
