//! Resolving roles: from a scheme and a role to a tone and a colour.
use vstd::prelude::*;
use crate::dynamiccolor::color_calculation_spec::{PairInputs, ToneInputs};
use crate::dynamiccolor::color_calculation_spec_2021::ColorCalculationSpec2021;
use crate::dynamiccolor::color_calculation_spec_2025::ColorCalculationSpec2025;
use crate::dynamiccolor::color_spec_2025::ColorSpec2025;
use crate::dynamiccolor::contrast_curve::ContrastCurve;
use crate::dynamiccolor::dynamic_color::{DynamicColor, RoleDefinition, ToneRule};
use crate::dynamiccolor::dynamic_scheme::DynamicScheme;
use crate::dynamiccolor::material_dynamic_colors::{
    is_flat_rule, lemma_roles_refer_downwards, MaterialDynamicColors,
};
use crate::dynamiccolor::role::{lemma_index_is_injective, Role, ROLE_COUNT};
use crate::dynamiccolor::spec_version::SpecVersion;
use crate::dynamiccolor::tone_delta_pair::ToneDeltaPair;
use crate::fixed::Fixed;
use crate::hct::hct::Hct;
use crate::palettes::tonal_palette::PaletteKey;
use crate::utils::color::is_opaque;

verus! {

/// The tone of a role that refers to nothing.
pub const DEFAULT_TONE: i64 = 50;

/// The tone of a role before constraints: what its tone rule says. A
/// reference to a role that is not of lower rank counts as no reference,
/// and gives the tone 50.
pub open spec fn nominal_tone_spec(scheme: &DynamicScheme, role: Role) -> Fixed
    decreases MaterialDynamicColors::rank(role, scheme), 0nat, 0nat,
{
    let definition = MaterialDynamicColors::definition(role, scheme);
    match definition.tone {
        ToneRule::FromBackground => match definition.background {
            Some(background) => if MaterialDynamicColors::rank(background, scheme)
                < MaterialDynamicColors::rank(role, scheme) {
                resolved_tone_spec(scheme, background)
            } else {
                Fixed::from_int(DEFAULT_TONE)
            },
            None => Fixed::from_int(DEFAULT_TONE),
        },
        ToneRule::SameAs(other) => if MaterialDynamicColors::rank(other, scheme)
            < MaterialDynamicColors::rank(role, scheme) {
            resolved_tone_spec(scheme, other)
        } else {
            Fixed::from_int(DEFAULT_TONE)
        },
        ToneRule::LightStandard(other) => if MaterialDynamicColors::rank(
            other,
            &scheme.light_standard(),
        ) < MaterialDynamicColors::rank(role, scheme) {
            resolved_tone_spec(&scheme.light_standard(), other)
        } else {
            Fixed::from_int(DEFAULT_TONE)
        },
        rule => flat_tone(scheme, rule),
    }
}

/// The resolved tone of a role that a definition refers to; `None` for no
/// reference, and for one to a role that is not of lower rank.
pub open spec fn referred_tone_spec(scheme: &DynamicScheme, role: Role, referred: Option<Role>) -> Option<Fixed>
    decreases MaterialDynamicColors::rank(role, scheme), 0nat, 0nat,
{
    match referred {
        Some(other) => if MaterialDynamicColors::rank(other, scheme) < MaterialDynamicColors::rank(
            role,
            scheme,
        ) {
            Some(resolved_tone_spec(scheme, other))
        } else {
            None
        },
        None => None,
    }
}

/// What the resolution of a role needs to know of its pair; `None` for a
/// role without a pair, and for a pair with a role of higher rank.
pub open spec fn pair_inputs_spec(scheme: &DynamicScheme, role: Role, pair: Option<ToneDeltaPair>) -> Option<PairInputs>
    decreases MaterialDynamicColors::rank(role, scheme), 0nat, 2nat,
{
    match pair {
        Some(pair) => if MaterialDynamicColors::rank(pair.role_a, scheme)
            <= MaterialDynamicColors::rank(role, scheme) && MaterialDynamicColors::rank(
            pair.role_b,
            scheme,
        ) <= MaterialDynamicColors::rank(role, scheme) {
            Some(
                PairInputs {
                    a_nominal: nominal_of_partner_spec(scheme, role, pair.role_a),
                    b_nominal: nominal_of_partner_spec(scheme, role, pair.role_b),
                    a_curve: MaterialDynamicColors::definition(pair.role_a, scheme).contrast_curve,
                    b_curve: MaterialDynamicColors::definition(pair.role_b, scheme).contrast_curve,
                    reference_tone: match referred_tone_spec(
                        scheme,
                        role,
                        if scheme.spec_version == SpecVersion::Spec2025 {
                            Some(
                                if role == pair.role_a {
                                    pair.role_b
                                } else {
                                    pair.role_a
                                },
                            )
                        } else {
                            None
                        },
                    ) {
                        Some(tone) => tone,
                        None => Fixed::from_int(DEFAULT_TONE),
                    },
                },
            )
        } else {
            None
        },
        None => None,
    }
}

/// The tone before constraints of a role of the pair of `role`: that of
/// the role itself or of a partner of lower rank, and for a partner of
/// equal rank what its tone rule says without looking at other roles.
pub open spec fn nominal_of_partner_spec(scheme: &DynamicScheme, role: Role, partner: Role) -> Fixed
    decreases MaterialDynamicColors::rank(role, scheme), 0nat, 1nat,
{
    if partner == role {
        nominal_tone_spec(scheme, role)
    } else if MaterialDynamicColors::rank(partner, scheme) < MaterialDynamicColors::rank(
        role,
        scheme,
    ) {
        nominal_tone_spec(scheme, partner)
    } else {
        flat_tone(scheme, MaterialDynamicColors::definition(partner, scheme).tone)
    }
}

/// The tone that a tone rule says without looking at other roles; 50
/// for a rule that refers to one.
pub open spec fn flat_tone_spec(scheme: &DynamicScheme, rule: ToneRule) -> Fixed {
    match rule {
        ToneRule::Value(tone) => tone,
        ToneRule::MaxChroma { palette, lower, upper, chroma_multiplier } =>
            ColorSpec2025::t_max_c_with_chroma_multiplier(
            &scheme.palette(palette),
            lower,
            upper,
            chroma_multiplier,
        ),
        ToneRule::MinChroma { palette, lower, upper } => ColorSpec2025::t_min_c_clamped(
            &scheme.palette(palette),
            lower,
            upper,
        ),
        _ => Fixed::from_int(DEFAULT_TONE),
    }
}

#[verifier::when_used_as_spec(flat_tone_spec)]
pub fn flat_tone(scheme: &DynamicScheme, rule: ToneRule) -> (out: Fixed)
    ensures
        out == flat_tone_spec(scheme, rule),
{
    match rule {
        ToneRule::Value(tone) => tone,
        ToneRule::MaxChroma { palette, lower, upper, chroma_multiplier } =>
            ColorSpec2025::t_max_c_with_chroma_multiplier(
            &scheme.palette(palette),
            lower,
            upper,
            chroma_multiplier,
        ),
        ToneRule::MinChroma { palette, lower, upper } => ColorSpec2025::t_min_c_clamped(
            &scheme.palette(palette),
            lower,
            upper,
        ),
        _ => Fixed::from_int(DEFAULT_TONE),
    }
}

/// The resolved tone of a role under a scheme: what the rules of the
/// scheme's version make of the role's definition, its tone before
/// constraints, and the resolved tones of the roles that it refers to.
pub open spec fn resolved_tone_spec(scheme: &DynamicScheme, role: Role) -> Fixed
    decreases MaterialDynamicColors::rank(role, scheme), 1nat, 0nat,
{
    let definition = MaterialDynamicColors::definition(role, scheme);
    let inputs = ToneInputs {
        nominal: nominal_tone_spec(scheme, role),
        background: referred_tone_spec(scheme, role, definition.background),
        second_background: referred_tone_spec(scheme, role, definition.second_background),
        pair: pair_inputs_spec(scheme, role, definition.tone_delta_pair),
    };
    match scheme.spec_version {
        SpecVersion::Spec2021 => ColorCalculationSpec2021::tone(scheme, &definition, &inputs),
        SpecVersion::Spec2025 => ColorCalculationSpec2025::tone(scheme, &definition, &inputs),
    }
}

/// The colour of a role under a scheme, in HCT.
#[verifier::opaque]
pub open spec fn hct_of(scheme: &DynamicScheme, role: Role) -> Hct {
    match scheme.spec_version {
        SpecVersion::Spec2021 => ColorCalculationSpec2021::hct(
            scheme,
            &MaterialDynamicColors::definition(role, scheme),
            resolved_tone_spec(scheme, role),
        ),
        SpecVersion::Spec2025 => ColorCalculationSpec2025::hct(
            scheme,
            &MaterialDynamicColors::definition(role, scheme),
            resolved_tone_spec(scheme, role),
        ),
    }
}

/// A colour with another alpha: the share `opacity` of 255, rounded and
/// held within 0 and 255.
pub open spec fn with_opacity_spec(argb: u32, opacity: Fixed) -> u32 {
    (argb % 0x100_0000 + opacity.times_int(255).round().clamp(
        Fixed::from_int(0),
        Fixed::from_int(255),
    ).floor_int() * 0x100_0000) as u32
}

#[verifier::when_used_as_spec(with_opacity_spec)]
pub fn with_opacity(argb: u32, opacity: Fixed) -> (out: u32)
    ensures
        out == with_opacity_spec(argb, opacity),
{
    let held = opacity.times_int(255).round().clamp(Fixed::from_int(0), Fixed::from_int(255));
    let whole = held.floor_int();
    assert(0 <= whole <= 255);
    let alpha: u32 = whole as u32;
    let out: u32 = (argb & 0x00ff_ffff) | (alpha << 24);
    assert(out == argb % 0x100_0000 + alpha * 0x100_0000) by (bit_vector)
        requires
            alpha < 256,
            out == (argb & 0x00ff_ffff) | (alpha << 24),
    ;
    out
}

/// The colour of a role under a scheme, with the role's opacity for its
/// alpha where it has one.
#[verifier::opaque]
pub open spec fn argb_of(scheme: &DynamicScheme, role: Role) -> u32 {
    match MaterialDynamicColors::definition(role, scheme).opacity {
        Some(opacity) => with_opacity(hct_of(scheme, role).argb, opacity),
        None => hct_of(scheme, role).argb,
    }
}

/// Every reference of a role is followed: no role is resolved as if it
/// had no background, no pair or no tone of its own because what it
/// refers to were not of lower rank.
pub proof fn lemma_every_reference_is_followed(scheme: &DynamicScheme, role: Role)
    ensures
        MaterialDynamicColors::definition(role, scheme).background matches Some(background)
            ==> referred_tone_spec(scheme, role, Some(background)) == Some(
            resolved_tone_spec(scheme, background),
        ),
        MaterialDynamicColors::definition(role, scheme).second_background matches Some(background)
            ==> referred_tone_spec(scheme, role, Some(background)) == Some(
            resolved_tone_spec(scheme, background),
        ),
        MaterialDynamicColors::definition(role, scheme).tone_delta_pair.is_some()
            ==> pair_inputs_spec(
            scheme,
            role,
            MaterialDynamicColors::definition(role, scheme).tone_delta_pair,
        ).is_some(),
        MaterialDynamicColors::definition(role, scheme).tone matches ToneRule::SameAs(other)
            ==> nominal_tone_spec(scheme, role) == resolved_tone_spec(scheme, other),
        MaterialDynamicColors::definition(role, scheme).tone matches ToneRule::LightStandard(other)
            ==> nominal_tone_spec(scheme, role) == resolved_tone_spec(
            &scheme.light_standard(),
            other,
        ),
        MaterialDynamicColors::definition(role, scheme).tone_delta_pair matches Some(pair) ==> {
            &&& nominal_of_partner_spec(scheme, role, pair.role_a) == if pair.role_a == role
                || MaterialDynamicColors::rank(pair.role_a, scheme) < MaterialDynamicColors::rank(
                role,
                scheme,
            ) {
                nominal_tone_spec(scheme, pair.role_a)
            } else {
                flat_tone(scheme, MaterialDynamicColors::definition(pair.role_a, scheme).tone)
            }
            &&& pair.role_a == role || MaterialDynamicColors::rank(pair.role_a, scheme)
                < MaterialDynamicColors::rank(role, scheme) || is_flat_rule(
                MaterialDynamicColors::definition(pair.role_a, scheme).tone,
            )
            &&& pair.role_b == role || MaterialDynamicColors::rank(pair.role_b, scheme)
                < MaterialDynamicColors::rank(role, scheme) || is_flat_rule(
                MaterialDynamicColors::definition(pair.role_b, scheme).tone,
            )
        },
        MaterialDynamicColors::definition(role, scheme).tone == ToneRule::FromBackground
            ==> nominal_tone_spec(scheme, role) == match MaterialDynamicColors::definition(
            role,
            scheme,
        ).background {
            Some(background) => resolved_tone_spec(scheme, background),
            None => Fixed::from_int(DEFAULT_TONE),
        },
{
    lemma_roles_refer_downwards(role, scheme);
}

/// The tone of a role before constraints.
pub fn nominal_tone(scheme: &DynamicScheme, role: Role) -> (out: Fixed)
    ensures
        out == nominal_tone_spec(scheme, role),
    decreases MaterialDynamicColors::rank(role, scheme), 0nat, 0nat,
{
    let definition = MaterialDynamicColors::definition(role, scheme);
    match definition.tone {
        ToneRule::FromBackground => match definition.background {
            Some(background) => if MaterialDynamicColors::rank(background, scheme)
                < MaterialDynamicColors::rank(role, scheme) {
                resolved_tone(scheme, background)
            } else {
                Fixed::from_int(DEFAULT_TONE)
            },
            None => Fixed::from_int(DEFAULT_TONE),
        },
        ToneRule::SameAs(other) => if MaterialDynamicColors::rank(other, scheme)
            < MaterialDynamicColors::rank(role, scheme) {
            resolved_tone(scheme, other)
        } else {
            Fixed::from_int(DEFAULT_TONE)
        },
        ToneRule::LightStandard(other) => {
            let light = scheme.light_standard();
            if MaterialDynamicColors::rank(other, &light) < MaterialDynamicColors::rank(
                role,
                scheme,
            ) {
                resolved_tone(&light, other)
            } else {
                Fixed::from_int(DEFAULT_TONE)
            }
        },
        rule => flat_tone(scheme, rule),
    }
}

/// The resolved tone of a role that a definition refers to.
pub fn referred_tone(scheme: &DynamicScheme, role: Role, referred: Option<Role>) -> (out: Option<Fixed>)
    ensures
        out == referred_tone_spec(scheme, role, referred),
    decreases MaterialDynamicColors::rank(role, scheme), 0nat, 0nat,
{
    match referred {
        Some(other) => if MaterialDynamicColors::rank(other, scheme) < MaterialDynamicColors::rank(
            role,
            scheme,
        ) {
            Some(resolved_tone(scheme, other))
        } else {
            None
        },
        None => None,
    }
}

/// The tone before constraints of a role of the pair of `role`.
pub fn nominal_of_partner(scheme: &DynamicScheme, role: Role, partner: Role) -> (out: Fixed)
    ensures
        out == nominal_of_partner_spec(scheme, role, partner),
    decreases MaterialDynamicColors::rank(role, scheme), 0nat, 1nat,
{
    if partner == role {
        nominal_tone(scheme, role)
    } else if MaterialDynamicColors::rank(partner, scheme) < MaterialDynamicColors::rank(
        role,
        scheme,
    ) {
        nominal_tone(scheme, partner)
    } else {
        flat_tone(scheme, MaterialDynamicColors::definition(partner, scheme).tone)
    }
}

/// What the resolution of a role needs to know of its pair.
pub fn pair_inputs(scheme: &DynamicScheme, role: Role, pair: Option<ToneDeltaPair>) -> (out: Option<PairInputs>)
    ensures
        out == pair_inputs_spec(scheme, role, pair),
    decreases MaterialDynamicColors::rank(role, scheme), 0nat, 2nat,
{
    match pair {
        Some(pair) => if MaterialDynamicColors::rank(pair.role_a, scheme)
            <= MaterialDynamicColors::rank(role, scheme) && MaterialDynamicColors::rank(
            pair.role_b,
            scheme,
        ) <= MaterialDynamicColors::rank(role, scheme) {
            let reference = referred_tone(
                scheme,
                role,
                if scheme.spec_version == SpecVersion::Spec2025 {
                    Some(
                        if role == pair.role_a {
                            pair.role_b
                        } else {
                            pair.role_a
                        },
                    )
                } else {
                    None
                },
            );
            Some(
                PairInputs {
                    a_nominal: nominal_of_partner(scheme, role, pair.role_a),
                    b_nominal: nominal_of_partner(scheme, role, pair.role_b),
                    a_curve: MaterialDynamicColors::definition(pair.role_a, scheme).contrast_curve,
                    b_curve: MaterialDynamicColors::definition(pair.role_b, scheme).contrast_curve,
                    reference_tone: match reference {
                        Some(tone) => tone,
                        None => Fixed::from_int(DEFAULT_TONE),
                    },
                },
            )
        } else {
            None
        },
        None => None,
    }
}

/// The resolved tone of a role under a scheme.
pub fn resolved_tone(scheme: &DynamicScheme, role: Role) -> (out: Fixed)
    ensures
        out == resolved_tone_spec(scheme, role),
    decreases MaterialDynamicColors::rank(role, scheme), 1nat, 0nat,
{
    let definition = MaterialDynamicColors::definition(role, scheme);
    let inputs = ToneInputs {
        nominal: nominal_tone(scheme, role),
        background: referred_tone(scheme, role, definition.background),
        second_background: referred_tone(scheme, role, definition.second_background),
        pair: pair_inputs(scheme, role, definition.tone_delta_pair),
    };
    match scheme.spec_version {
        SpecVersion::Spec2021 => ColorCalculationSpec2021::tone(scheme, &definition, &inputs),
        SpecVersion::Spec2025 => ColorCalculationSpec2025::tone(scheme, &definition, &inputs),
    }
}

impl DynamicColor {
    /// What the role is under a scheme.
    pub fn definition(&self, scheme: &DynamicScheme) -> (out: RoleDefinition)
        ensures
            out == MaterialDynamicColors::definition(self.role, scheme),
    {
        MaterialDynamicColors::definition(self.role, scheme)
    }

    /// The palette of the role under a scheme.
    pub fn palette(&self, scheme: &DynamicScheme) -> (out: PaletteKey)
        ensures
            out == scheme.palette(MaterialDynamicColors::definition(self.role, scheme).palette),
    {
        scheme.palette(MaterialDynamicColors::definition(self.role, scheme).palette)
    }

    /// The tone of the role under a scheme before constraints.
    pub fn tone(&self, scheme: &DynamicScheme) -> (out: Fixed)
        ensures
            out == nominal_tone_spec(scheme, self.role),
    {
        nominal_tone(scheme, self.role)
    }

    /// Whether other roles are drawn on this one.
    pub fn is_background(&self, scheme: &DynamicScheme) -> (out: bool)
        ensures
            out == MaterialDynamicColors::definition(self.role, scheme).is_background,
    {
        MaterialDynamicColors::definition(self.role, scheme).is_background
    }

    /// The factor on the chroma of the palette.
    pub fn chroma_multiplier(&self, scheme: &DynamicScheme) -> (out: Fixed)
        ensures
            out == MaterialDynamicColors::definition(self.role, scheme).chroma_multiplier,
    {
        MaterialDynamicColors::definition(self.role, scheme).chroma_multiplier
    }

    /// The role that this one is drawn on.
    pub fn background(&self, scheme: &DynamicScheme) -> (out: Option<DynamicColor>)
        ensures
            out == match MaterialDynamicColors::definition(self.role, scheme).background {
                Some(role) => Some(DynamicColor { role }),
                None => None,
            },
    {
        match MaterialDynamicColors::definition(self.role, scheme).background {
            Some(role) => Some(DynamicColor { role }),
            None => None,
        }
    }

    /// A second role that this one is drawn on.
    pub fn second_background(&self, scheme: &DynamicScheme) -> (out: Option<DynamicColor>)
        ensures
            out == match MaterialDynamicColors::definition(self.role, scheme).second_background {
                Some(role) => Some(DynamicColor { role }),
                None => None,
            },
    {
        match MaterialDynamicColors::definition(self.role, scheme).second_background {
            Some(role) => Some(DynamicColor { role }),
            None => None,
        }
    }

    /// The contrast wanted against the background.
    pub fn contrast_curve(&self, scheme: &DynamicScheme) -> (out: Option<ContrastCurve>)
        ensures
            out == MaterialDynamicColors::definition(self.role, scheme).contrast_curve,
    {
        MaterialDynamicColors::definition(self.role, scheme).contrast_curve
    }

    /// The pair that the role belongs to.
    pub fn tone_delta_pair(&self, scheme: &DynamicScheme) -> (out: Option<ToneDeltaPair>)
        ensures
            out == MaterialDynamicColors::definition(self.role, scheme).tone_delta_pair,
    {
        MaterialDynamicColors::definition(self.role, scheme).tone_delta_pair
    }

    /// The opacity of the role, where it is not opaque.
    pub fn opacity(&self, scheme: &DynamicScheme) -> (out: Option<Fixed>)
        ensures
            out == MaterialDynamicColors::definition(self.role, scheme).opacity,
    {
        MaterialDynamicColors::definition(self.role, scheme).opacity
    }

    /// The tone that a role takes from a background: the resolved tone
    /// of the background, or 50 without one.
    pub fn get_initial_tone_from_background(background: Option<DynamicColor>, scheme: &DynamicScheme) -> (out: Fixed)
        ensures
            out == match background {
                Some(color) => resolved_tone_spec(scheme, color.role),
                None => Fixed::from_int(DEFAULT_TONE),
            },
    {
        match background {
            Some(color) => resolved_tone(scheme, color.role),
            None => Fixed::from_int(DEFAULT_TONE),
        }
    }

    /// The resolved tone of the role under a scheme.
    pub fn get_tone(&self, scheme: &DynamicScheme) -> (out: Fixed)
        ensures
            out == resolved_tone_spec(scheme, self.role),
    {
        resolved_tone(scheme, self.role)
    }

    /// The colour of the role under a scheme, in HCT.
    pub fn get_hct(&self, scheme: &DynamicScheme) -> (out: Hct)
        ensures
            out == hct_of(scheme, self.role),
            out.wf(),
            is_opaque(out.argb),
    {
        proof {
            reveal(hct_of);
        }
        let definition = MaterialDynamicColors::definition(self.role, scheme);
        let tone = resolved_tone(scheme, self.role);
        match scheme.spec_version {
            SpecVersion::Spec2021 => ColorCalculationSpec2021::hct(scheme, &definition, tone),
            SpecVersion::Spec2025 => ColorCalculationSpec2025::hct(scheme, &definition, tone),
        }
    }

    /// The colour of the role under a scheme, with the role's opacity
    /// for its alpha where it has one.
    pub fn get_argb(&self, scheme: &DynamicScheme) -> (out: u32)
        ensures
            out == argb_of(scheme, self.role),
    {
        proof {
            reveal(argb_of);
        }
        let argb = self.get_hct(scheme).argb;
        match MaterialDynamicColors::definition(self.role, scheme).opacity {
            Some(opacity) => with_opacity(argb, opacity),
            None => argb,
        }
    }
}

impl DynamicScheme {
    /// The colour of a role under this scheme, in HCT.
    pub fn get_hct(&self, dynamic_color: &DynamicColor) -> (out: Hct)
        ensures
            out == hct_of(self, dynamic_color.role),
    {
        dynamic_color.get_hct(self)
    }

    /// The colour of a role under this scheme.
    pub fn get_argb(&self, dynamic_color: &DynamicColor) -> (out: u32)
        ensures
            out == argb_of(self, dynamic_color.role),
    {
        dynamic_color.get_argb(self)
    }

    /// The colour of the role `primary_palette_key_color`.
    pub fn primary_palette_key_color(&self) -> (out: u32)
        ensures
            out == argb_of(self, Role::PrimaryPaletteKeyColor),
    {
        DynamicColor::new(Role::PrimaryPaletteKeyColor).get_argb(self)
    }

    /// The colour of the role `secondary_palette_key_color`.
    pub fn secondary_palette_key_color(&self) -> (out: u32)
        ensures
            out == argb_of(self, Role::SecondaryPaletteKeyColor),
    {
        DynamicColor::new(Role::SecondaryPaletteKeyColor).get_argb(self)
    }

    /// The colour of the role `tertiary_palette_key_color`.
    pub fn tertiary_palette_key_color(&self) -> (out: u32)
        ensures
            out == argb_of(self, Role::TertiaryPaletteKeyColor),
    {
        DynamicColor::new(Role::TertiaryPaletteKeyColor).get_argb(self)
    }

    /// The colour of the role `neutral_palette_key_color`.
    pub fn neutral_palette_key_color(&self) -> (out: u32)
        ensures
            out == argb_of(self, Role::NeutralPaletteKeyColor),
    {
        DynamicColor::new(Role::NeutralPaletteKeyColor).get_argb(self)
    }

    /// The colour of the role `neutral_variant_palette_key_color`.
    pub fn neutral_variant_palette_key_color(&self) -> (out: u32)
        ensures
            out == argb_of(self, Role::NeutralVariantPaletteKeyColor),
    {
        DynamicColor::new(Role::NeutralVariantPaletteKeyColor).get_argb(self)
    }

    /// The colour of the role `error_palette_key_color`.
    pub fn error_palette_key_color(&self) -> (out: u32)
        ensures
            out == argb_of(self, Role::ErrorPaletteKeyColor),
    {
        DynamicColor::new(Role::ErrorPaletteKeyColor).get_argb(self)
    }

    /// The colour of the role `background`.
    pub fn background(&self) -> (out: u32)
        ensures
            out == argb_of(self, Role::Background),
    {
        DynamicColor::new(Role::Background).get_argb(self)
    }

    /// The colour of the role `on_background`.
    pub fn on_background(&self) -> (out: u32)
        ensures
            out == argb_of(self, Role::OnBackground),
    {
        DynamicColor::new(Role::OnBackground).get_argb(self)
    }

    /// The colour of the role `surface`.
    pub fn surface(&self) -> (out: u32)
        ensures
            out == argb_of(self, Role::Surface),
    {
        DynamicColor::new(Role::Surface).get_argb(self)
    }

    /// The colour of the role `surface_dim`.
    pub fn surface_dim(&self) -> (out: u32)
        ensures
            out == argb_of(self, Role::SurfaceDim),
    {
        DynamicColor::new(Role::SurfaceDim).get_argb(self)
    }

    /// The colour of the role `surface_bright`.
    pub fn surface_bright(&self) -> (out: u32)
        ensures
            out == argb_of(self, Role::SurfaceBright),
    {
        DynamicColor::new(Role::SurfaceBright).get_argb(self)
    }

    /// The colour of the role `surface_container_lowest`.
    pub fn surface_container_lowest(&self) -> (out: u32)
        ensures
            out == argb_of(self, Role::SurfaceContainerLowest),
    {
        DynamicColor::new(Role::SurfaceContainerLowest).get_argb(self)
    }

    /// The colour of the role `surface_container_low`.
    pub fn surface_container_low(&self) -> (out: u32)
        ensures
            out == argb_of(self, Role::SurfaceContainerLow),
    {
        DynamicColor::new(Role::SurfaceContainerLow).get_argb(self)
    }

    /// The colour of the role `surface_container`.
    pub fn surface_container(&self) -> (out: u32)
        ensures
            out == argb_of(self, Role::SurfaceContainer),
    {
        DynamicColor::new(Role::SurfaceContainer).get_argb(self)
    }

    /// The colour of the role `surface_container_high`.
    pub fn surface_container_high(&self) -> (out: u32)
        ensures
            out == argb_of(self, Role::SurfaceContainerHigh),
    {
        DynamicColor::new(Role::SurfaceContainerHigh).get_argb(self)
    }

    /// The colour of the role `surface_container_highest`.
    pub fn surface_container_highest(&self) -> (out: u32)
        ensures
            out == argb_of(self, Role::SurfaceContainerHighest),
    {
        DynamicColor::new(Role::SurfaceContainerHighest).get_argb(self)
    }

    /// The colour of the role `on_surface`.
    pub fn on_surface(&self) -> (out: u32)
        ensures
            out == argb_of(self, Role::OnSurface),
    {
        DynamicColor::new(Role::OnSurface).get_argb(self)
    }

    /// The colour of the role `surface_variant`.
    pub fn surface_variant(&self) -> (out: u32)
        ensures
            out == argb_of(self, Role::SurfaceVariant),
    {
        DynamicColor::new(Role::SurfaceVariant).get_argb(self)
    }

    /// The colour of the role `on_surface_variant`.
    pub fn on_surface_variant(&self) -> (out: u32)
        ensures
            out == argb_of(self, Role::OnSurfaceVariant),
    {
        DynamicColor::new(Role::OnSurfaceVariant).get_argb(self)
    }

    /// The colour of the role `inverse_surface`.
    pub fn inverse_surface(&self) -> (out: u32)
        ensures
            out == argb_of(self, Role::InverseSurface),
    {
        DynamicColor::new(Role::InverseSurface).get_argb(self)
    }

    /// The colour of the role `inverse_on_surface`.
    pub fn inverse_on_surface(&self) -> (out: u32)
        ensures
            out == argb_of(self, Role::InverseOnSurface),
    {
        DynamicColor::new(Role::InverseOnSurface).get_argb(self)
    }

    /// The colour of the role `outline`.
    pub fn outline(&self) -> (out: u32)
        ensures
            out == argb_of(self, Role::Outline),
    {
        DynamicColor::new(Role::Outline).get_argb(self)
    }

    /// The colour of the role `outline_variant`.
    pub fn outline_variant(&self) -> (out: u32)
        ensures
            out == argb_of(self, Role::OutlineVariant),
    {
        DynamicColor::new(Role::OutlineVariant).get_argb(self)
    }

    /// The colour of the role `shadow`.
    pub fn shadow(&self) -> (out: u32)
        ensures
            out == argb_of(self, Role::Shadow),
    {
        DynamicColor::new(Role::Shadow).get_argb(self)
    }

    /// The colour of the role `scrim`.
    pub fn scrim(&self) -> (out: u32)
        ensures
            out == argb_of(self, Role::Scrim),
    {
        DynamicColor::new(Role::Scrim).get_argb(self)
    }

    /// The colour of the role `surface_tint`.
    pub fn surface_tint(&self) -> (out: u32)
        ensures
            out == argb_of(self, Role::SurfaceTint),
    {
        DynamicColor::new(Role::SurfaceTint).get_argb(self)
    }

    /// The colour of the role `primary`.
    pub fn primary(&self) -> (out: u32)
        ensures
            out == argb_of(self, Role::Primary),
    {
        DynamicColor::new(Role::Primary).get_argb(self)
    }

    /// The colour of the role `primary_dim`.
    pub fn primary_dim(&self) -> (out: u32)
        ensures
            out == argb_of(self, Role::PrimaryDim),
    {
        DynamicColor::new(Role::PrimaryDim).get_argb(self)
    }

    /// The colour of the role `on_primary`.
    pub fn on_primary(&self) -> (out: u32)
        ensures
            out == argb_of(self, Role::OnPrimary),
    {
        DynamicColor::new(Role::OnPrimary).get_argb(self)
    }

    /// The colour of the role `primary_container`.
    pub fn primary_container(&self) -> (out: u32)
        ensures
            out == argb_of(self, Role::PrimaryContainer),
    {
        DynamicColor::new(Role::PrimaryContainer).get_argb(self)
    }

    /// The colour of the role `on_primary_container`.
    pub fn on_primary_container(&self) -> (out: u32)
        ensures
            out == argb_of(self, Role::OnPrimaryContainer),
    {
        DynamicColor::new(Role::OnPrimaryContainer).get_argb(self)
    }

    /// The colour of the role `inverse_primary`.
    pub fn inverse_primary(&self) -> (out: u32)
        ensures
            out == argb_of(self, Role::InversePrimary),
    {
        DynamicColor::new(Role::InversePrimary).get_argb(self)
    }

    /// The colour of the role `primary_fixed`.
    pub fn primary_fixed(&self) -> (out: u32)
        ensures
            out == argb_of(self, Role::PrimaryFixed),
    {
        DynamicColor::new(Role::PrimaryFixed).get_argb(self)
    }

    /// The colour of the role `primary_fixed_dim`.
    pub fn primary_fixed_dim(&self) -> (out: u32)
        ensures
            out == argb_of(self, Role::PrimaryFixedDim),
    {
        DynamicColor::new(Role::PrimaryFixedDim).get_argb(self)
    }

    /// The colour of the role `on_primary_fixed`.
    pub fn on_primary_fixed(&self) -> (out: u32)
        ensures
            out == argb_of(self, Role::OnPrimaryFixed),
    {
        DynamicColor::new(Role::OnPrimaryFixed).get_argb(self)
    }

    /// The colour of the role `on_primary_fixed_variant`.
    pub fn on_primary_fixed_variant(&self) -> (out: u32)
        ensures
            out == argb_of(self, Role::OnPrimaryFixedVariant),
    {
        DynamicColor::new(Role::OnPrimaryFixedVariant).get_argb(self)
    }

    /// The colour of the role `secondary`.
    pub fn secondary(&self) -> (out: u32)
        ensures
            out == argb_of(self, Role::Secondary),
    {
        DynamicColor::new(Role::Secondary).get_argb(self)
    }

    /// The colour of the role `secondary_dim`.
    pub fn secondary_dim(&self) -> (out: u32)
        ensures
            out == argb_of(self, Role::SecondaryDim),
    {
        DynamicColor::new(Role::SecondaryDim).get_argb(self)
    }

    /// The colour of the role `on_secondary`.
    pub fn on_secondary(&self) -> (out: u32)
        ensures
            out == argb_of(self, Role::OnSecondary),
    {
        DynamicColor::new(Role::OnSecondary).get_argb(self)
    }

    /// The colour of the role `secondary_container`.
    pub fn secondary_container(&self) -> (out: u32)
        ensures
            out == argb_of(self, Role::SecondaryContainer),
    {
        DynamicColor::new(Role::SecondaryContainer).get_argb(self)
    }

    /// The colour of the role `on_secondary_container`.
    pub fn on_secondary_container(&self) -> (out: u32)
        ensures
            out == argb_of(self, Role::OnSecondaryContainer),
    {
        DynamicColor::new(Role::OnSecondaryContainer).get_argb(self)
    }

    /// The colour of the role `secondary_fixed`.
    pub fn secondary_fixed(&self) -> (out: u32)
        ensures
            out == argb_of(self, Role::SecondaryFixed),
    {
        DynamicColor::new(Role::SecondaryFixed).get_argb(self)
    }

    /// The colour of the role `secondary_fixed_dim`.
    pub fn secondary_fixed_dim(&self) -> (out: u32)
        ensures
            out == argb_of(self, Role::SecondaryFixedDim),
    {
        DynamicColor::new(Role::SecondaryFixedDim).get_argb(self)
    }

    /// The colour of the role `on_secondary_fixed`.
    pub fn on_secondary_fixed(&self) -> (out: u32)
        ensures
            out == argb_of(self, Role::OnSecondaryFixed),
    {
        DynamicColor::new(Role::OnSecondaryFixed).get_argb(self)
    }

    /// The colour of the role `on_secondary_fixed_variant`.
    pub fn on_secondary_fixed_variant(&self) -> (out: u32)
        ensures
            out == argb_of(self, Role::OnSecondaryFixedVariant),
    {
        DynamicColor::new(Role::OnSecondaryFixedVariant).get_argb(self)
    }

    /// The colour of the role `tertiary`.
    pub fn tertiary(&self) -> (out: u32)
        ensures
            out == argb_of(self, Role::Tertiary),
    {
        DynamicColor::new(Role::Tertiary).get_argb(self)
    }

    /// The colour of the role `tertiary_dim`.
    pub fn tertiary_dim(&self) -> (out: u32)
        ensures
            out == argb_of(self, Role::TertiaryDim),
    {
        DynamicColor::new(Role::TertiaryDim).get_argb(self)
    }

    /// The colour of the role `on_tertiary`.
    pub fn on_tertiary(&self) -> (out: u32)
        ensures
            out == argb_of(self, Role::OnTertiary),
    {
        DynamicColor::new(Role::OnTertiary).get_argb(self)
    }

    /// The colour of the role `tertiary_container`.
    pub fn tertiary_container(&self) -> (out: u32)
        ensures
            out == argb_of(self, Role::TertiaryContainer),
    {
        DynamicColor::new(Role::TertiaryContainer).get_argb(self)
    }

    /// The colour of the role `on_tertiary_container`.
    pub fn on_tertiary_container(&self) -> (out: u32)
        ensures
            out == argb_of(self, Role::OnTertiaryContainer),
    {
        DynamicColor::new(Role::OnTertiaryContainer).get_argb(self)
    }

    /// The colour of the role `tertiary_fixed`.
    pub fn tertiary_fixed(&self) -> (out: u32)
        ensures
            out == argb_of(self, Role::TertiaryFixed),
    {
        DynamicColor::new(Role::TertiaryFixed).get_argb(self)
    }

    /// The colour of the role `tertiary_fixed_dim`.
    pub fn tertiary_fixed_dim(&self) -> (out: u32)
        ensures
            out == argb_of(self, Role::TertiaryFixedDim),
    {
        DynamicColor::new(Role::TertiaryFixedDim).get_argb(self)
    }

    /// The colour of the role `on_tertiary_fixed`.
    pub fn on_tertiary_fixed(&self) -> (out: u32)
        ensures
            out == argb_of(self, Role::OnTertiaryFixed),
    {
        DynamicColor::new(Role::OnTertiaryFixed).get_argb(self)
    }

    /// The colour of the role `on_tertiary_fixed_variant`.
    pub fn on_tertiary_fixed_variant(&self) -> (out: u32)
        ensures
            out == argb_of(self, Role::OnTertiaryFixedVariant),
    {
        DynamicColor::new(Role::OnTertiaryFixedVariant).get_argb(self)
    }

    /// The colour of the role `error`.
    pub fn error(&self) -> (out: u32)
        ensures
            out == argb_of(self, Role::Error),
    {
        DynamicColor::new(Role::Error).get_argb(self)
    }

    /// The colour of the role `error_dim`.
    pub fn error_dim(&self) -> (out: u32)
        ensures
            out == argb_of(self, Role::ErrorDim),
    {
        DynamicColor::new(Role::ErrorDim).get_argb(self)
    }

    /// The colour of the role `on_error`.
    pub fn on_error(&self) -> (out: u32)
        ensures
            out == argb_of(self, Role::OnError),
    {
        DynamicColor::new(Role::OnError).get_argb(self)
    }

    /// The colour of the role `error_container`.
    pub fn error_container(&self) -> (out: u32)
        ensures
            out == argb_of(self, Role::ErrorContainer),
    {
        DynamicColor::new(Role::ErrorContainer).get_argb(self)
    }

    /// The colour of the role `on_error_container`.
    pub fn on_error_container(&self) -> (out: u32)
        ensures
            out == argb_of(self, Role::OnErrorContainer),
    {
        DynamicColor::new(Role::OnErrorContainer).get_argb(self)
    }

    /// The colour of the role `control_activated`.
    pub fn control_activated(&self) -> (out: u32)
        ensures
            out == argb_of(self, Role::ControlActivated),
    {
        DynamicColor::new(Role::ControlActivated).get_argb(self)
    }

    /// The colour of the role `control_normal`.
    pub fn control_normal(&self) -> (out: u32)
        ensures
            out == argb_of(self, Role::ControlNormal),
    {
        DynamicColor::new(Role::ControlNormal).get_argb(self)
    }

    /// The colour of the role `control_highlight`.
    pub fn control_highlight(&self) -> (out: u32)
        ensures
            out == argb_of(self, Role::ControlHighlight),
    {
        DynamicColor::new(Role::ControlHighlight).get_argb(self)
    }

    /// The colour of the role `text_primary_inverse`.
    pub fn text_primary_inverse(&self) -> (out: u32)
        ensures
            out == argb_of(self, Role::TextPrimaryInverse),
    {
        DynamicColor::new(Role::TextPrimaryInverse).get_argb(self)
    }

    /// The colour of the role `text_secondary_and_tertiary_inverse`.
    pub fn text_secondary_and_tertiary_inverse(&self) -> (out: u32)
        ensures
            out == argb_of(self, Role::TextSecondaryAndTertiaryInverse),
    {
        DynamicColor::new(Role::TextSecondaryAndTertiaryInverse).get_argb(self)
    }

    /// The colour of the role `text_primary_inverse_disable_only`.
    pub fn text_primary_inverse_disable_only(&self) -> (out: u32)
        ensures
            out == argb_of(self, Role::TextPrimaryInverseDisableOnly),
    {
        DynamicColor::new(Role::TextPrimaryInverseDisableOnly).get_argb(self)
    }

    /// The colour of the role `text_secondary_and_tertiary_inverse_disabled`.
    pub fn text_secondary_and_tertiary_inverse_disabled(&self) -> (out: u32)
        ensures
            out == argb_of(self, Role::TextSecondaryAndTertiaryInverseDisabled),
    {
        DynamicColor::new(Role::TextSecondaryAndTertiaryInverseDisabled).get_argb(self)
    }

    /// The colour of the role `text_hint_inverse`.
    pub fn text_hint_inverse(&self) -> (out: u32)
        ensures
            out == argb_of(self, Role::TextHintInverse),
    {
        DynamicColor::new(Role::TextHintInverse).get_argb(self)
    }

}

/// Whether what is kept for a role is nothing or the colour of the role
/// under the scheme.
pub open spec fn is_kept_right(scheme: &DynamicScheme, role: Role, kept: Option<Hct>) -> bool {
    match kept {
        Some(hct) => hct == hct_of(scheme, role) && hct.wf() && is_opaque(hct.argb),
        None => true,
    }
}

/// A scheme together with the colours of its roles that have been asked
/// for. Resolving a role takes many steps; what has been resolved is kept,
/// and what is kept never changes an answer.
pub struct SchemeColors {
    pub scheme: DynamicScheme,
    /// For each role, by its place in the list, its colour if it has
    /// been resolved.
    pub resolved: Vec<Option<Hct>>,
}

impl SchemeColors {
    /// Whether every colour kept is the colour of its role under the
    /// scheme.
    pub open spec fn wf(&self) -> bool {
        &&& self.resolved@.len() == ROLE_COUNT
        &&& forall|role: Role| #[trigger]
            is_kept_right(&self.scheme, role, self.resolved@[role.spec_index() as int])
    }

    /// The colours of a scheme, none resolved yet.
    pub fn new(scheme: DynamicScheme) -> (out: Self)
        ensures
            out.wf(),
            out.scheme == scheme,
    {
        let mut resolved: Vec<Option<Hct>> = Vec::new();
        let mut i: usize = 0;
        while i < ROLE_COUNT
            invariant
                i <= ROLE_COUNT,
                resolved@.len() == i,
                forall|k: int| 0 <= k < i ==> (#[trigger] resolved@[k]).is_none(),
            decreases ROLE_COUNT - i,
        {
            resolved.push(None);
            i = i + 1;
        }
        SchemeColors { scheme, resolved }
    }

    /// The colour of a role under the scheme, in HCT: resolved when it
    /// is first asked for, and the same whenever it is asked for again.
    pub fn get_hct(&mut self, role: Role) -> (out: Hct)
        requires
            old(self).wf(),
        ensures
            out == hct_of(&old(self).scheme, role),
            out.wf(),
            is_opaque(out.argb),
            final(self).wf(),
            final(self).scheme == old(self).scheme,
    {
        let index = role.index();
        assert(is_kept_right(&self.scheme, role, self.resolved@[role.spec_index() as int]));
        match self.resolved[index] {
            Some(hct) => hct,
            None => {
                let hct = DynamicColor::new(role).get_hct(&self.scheme);
                self.resolved.set(index, Some(hct));
                proof {
                    assert forall|other: Role| #[trigger]
                        is_kept_right(
                            &self.scheme,
                            other,
                            self.resolved@[other.spec_index() as int],
                        ) by {
                        if other.spec_index() == index {
                            lemma_index_is_injective(other, role);
                        } else {
                            assert(is_kept_right(
                                &old(self).scheme,
                                other,
                                old(self).resolved@[other.spec_index() as int],
                            ));
                        }
                    }
                }
                hct
            },
        }
    }

    /// The colour of a role under the scheme, with the role's opacity
    /// for its alpha where it has one.
    pub fn get_argb(&mut self, role: Role) -> (out: u32)
        requires
            old(self).wf(),
        ensures
            out == argb_of(&old(self).scheme, role),
            final(self).wf(),
            final(self).scheme == old(self).scheme,
    {
        proof {
            reveal(argb_of);
        }
        let argb = self.get_hct(role).argb;
        match MaterialDynamicColors::definition(role, &self.scheme).opacity {
            Some(opacity) => with_opacity(argb, opacity),
            None => argb,
        }
    }
}

/// The colours of all roles under one scheme.
#[derive(Clone, Copy, Debug, PartialEq, Eq)]
pub struct DynamicColors {
    pub primary_palette_key_color: u32,
    pub secondary_palette_key_color: u32,
    pub tertiary_palette_key_color: u32,
    pub neutral_palette_key_color: u32,
    pub neutral_variant_palette_key_color: u32,
    pub error_palette_key_color: u32,
    pub background: u32,
    pub on_background: u32,
    pub surface: u32,
    pub surface_dim: u32,
    pub surface_bright: u32,
    pub surface_container_lowest: u32,
    pub surface_container_low: u32,
    pub surface_container: u32,
    pub surface_container_high: u32,
    pub surface_container_highest: u32,
    pub on_surface: u32,
    pub surface_variant: u32,
    pub on_surface_variant: u32,
    pub inverse_surface: u32,
    pub inverse_on_surface: u32,
    pub outline: u32,
    pub outline_variant: u32,
    pub shadow: u32,
    pub scrim: u32,
    pub surface_tint: u32,
    pub primary: u32,
    pub primary_dim: u32,
    pub on_primary: u32,
    pub primary_container: u32,
    pub on_primary_container: u32,
    pub inverse_primary: u32,
    pub primary_fixed: u32,
    pub primary_fixed_dim: u32,
    pub on_primary_fixed: u32,
    pub on_primary_fixed_variant: u32,
    pub secondary: u32,
    pub secondary_dim: u32,
    pub on_secondary: u32,
    pub secondary_container: u32,
    pub on_secondary_container: u32,
    pub secondary_fixed: u32,
    pub secondary_fixed_dim: u32,
    pub on_secondary_fixed: u32,
    pub on_secondary_fixed_variant: u32,
    pub tertiary: u32,
    pub tertiary_dim: u32,
    pub on_tertiary: u32,
    pub tertiary_container: u32,
    pub on_tertiary_container: u32,
    pub tertiary_fixed: u32,
    pub tertiary_fixed_dim: u32,
    pub on_tertiary_fixed: u32,
    pub on_tertiary_fixed_variant: u32,
    pub error: u32,
    pub error_dim: u32,
    pub on_error: u32,
    pub error_container: u32,
    pub on_error_container: u32,
    pub control_activated: u32,
    pub control_normal: u32,
    pub control_highlight: u32,
    pub text_primary_inverse: u32,
    pub text_secondary_and_tertiary_inverse: u32,
    pub text_primary_inverse_disable_only: u32,
    pub text_secondary_and_tertiary_inverse_disabled: u32,
    pub text_hint_inverse: u32,
}

impl DynamicColors {
    /// Whether these are the colours of the roles under `scheme`.
    pub open spec fn is_resolution_of(&self, scheme: &DynamicScheme) -> bool {
        &&& self.primary_palette_key_color == argb_of(scheme, Role::PrimaryPaletteKeyColor)
        &&& self.secondary_palette_key_color == argb_of(scheme, Role::SecondaryPaletteKeyColor)
        &&& self.tertiary_palette_key_color == argb_of(scheme, Role::TertiaryPaletteKeyColor)
        &&& self.neutral_palette_key_color == argb_of(scheme, Role::NeutralPaletteKeyColor)
        &&& self.neutral_variant_palette_key_color == argb_of(scheme, Role::NeutralVariantPaletteKeyColor)
        &&& self.error_palette_key_color == argb_of(scheme, Role::ErrorPaletteKeyColor)
        &&& self.background == argb_of(scheme, Role::Background)
        &&& self.on_background == argb_of(scheme, Role::OnBackground)
        &&& self.surface == argb_of(scheme, Role::Surface)
        &&& self.surface_dim == argb_of(scheme, Role::SurfaceDim)
        &&& self.surface_bright == argb_of(scheme, Role::SurfaceBright)
        &&& self.surface_container_lowest == argb_of(scheme, Role::SurfaceContainerLowest)
        &&& self.surface_container_low == argb_of(scheme, Role::SurfaceContainerLow)
        &&& self.surface_container == argb_of(scheme, Role::SurfaceContainer)
        &&& self.surface_container_high == argb_of(scheme, Role::SurfaceContainerHigh)
        &&& self.surface_container_highest == argb_of(scheme, Role::SurfaceContainerHighest)
        &&& self.on_surface == argb_of(scheme, Role::OnSurface)
        &&& self.surface_variant == argb_of(scheme, Role::SurfaceVariant)
        &&& self.on_surface_variant == argb_of(scheme, Role::OnSurfaceVariant)
        &&& self.inverse_surface == argb_of(scheme, Role::InverseSurface)
        &&& self.inverse_on_surface == argb_of(scheme, Role::InverseOnSurface)
        &&& self.outline == argb_of(scheme, Role::Outline)
        &&& self.outline_variant == argb_of(scheme, Role::OutlineVariant)
        &&& self.shadow == argb_of(scheme, Role::Shadow)
        &&& self.scrim == argb_of(scheme, Role::Scrim)
        &&& self.surface_tint == argb_of(scheme, Role::SurfaceTint)
        &&& self.primary == argb_of(scheme, Role::Primary)
        &&& self.primary_dim == argb_of(scheme, Role::PrimaryDim)
        &&& self.on_primary == argb_of(scheme, Role::OnPrimary)
        &&& self.primary_container == argb_of(scheme, Role::PrimaryContainer)
        &&& self.on_primary_container == argb_of(scheme, Role::OnPrimaryContainer)
        &&& self.inverse_primary == argb_of(scheme, Role::InversePrimary)
        &&& self.primary_fixed == argb_of(scheme, Role::PrimaryFixed)
        &&& self.primary_fixed_dim == argb_of(scheme, Role::PrimaryFixedDim)
        &&& self.on_primary_fixed == argb_of(scheme, Role::OnPrimaryFixed)
        &&& self.on_primary_fixed_variant == argb_of(scheme, Role::OnPrimaryFixedVariant)
        &&& self.secondary == argb_of(scheme, Role::Secondary)
        &&& self.secondary_dim == argb_of(scheme, Role::SecondaryDim)
        &&& self.on_secondary == argb_of(scheme, Role::OnSecondary)
        &&& self.secondary_container == argb_of(scheme, Role::SecondaryContainer)
        &&& self.on_secondary_container == argb_of(scheme, Role::OnSecondaryContainer)
        &&& self.secondary_fixed == argb_of(scheme, Role::SecondaryFixed)
        &&& self.secondary_fixed_dim == argb_of(scheme, Role::SecondaryFixedDim)
        &&& self.on_secondary_fixed == argb_of(scheme, Role::OnSecondaryFixed)
        &&& self.on_secondary_fixed_variant == argb_of(scheme, Role::OnSecondaryFixedVariant)
        &&& self.tertiary == argb_of(scheme, Role::Tertiary)
        &&& self.tertiary_dim == argb_of(scheme, Role::TertiaryDim)
        &&& self.on_tertiary == argb_of(scheme, Role::OnTertiary)
        &&& self.tertiary_container == argb_of(scheme, Role::TertiaryContainer)
        &&& self.on_tertiary_container == argb_of(scheme, Role::OnTertiaryContainer)
        &&& self.tertiary_fixed == argb_of(scheme, Role::TertiaryFixed)
        &&& self.tertiary_fixed_dim == argb_of(scheme, Role::TertiaryFixedDim)
        &&& self.on_tertiary_fixed == argb_of(scheme, Role::OnTertiaryFixed)
        &&& self.on_tertiary_fixed_variant == argb_of(scheme, Role::OnTertiaryFixedVariant)
        &&& self.error == argb_of(scheme, Role::Error)
        &&& self.error_dim == argb_of(scheme, Role::ErrorDim)
        &&& self.on_error == argb_of(scheme, Role::OnError)
        &&& self.error_container == argb_of(scheme, Role::ErrorContainer)
        &&& self.on_error_container == argb_of(scheme, Role::OnErrorContainer)
        &&& self.control_activated == argb_of(scheme, Role::ControlActivated)
        &&& self.control_normal == argb_of(scheme, Role::ControlNormal)
        &&& self.control_highlight == argb_of(scheme, Role::ControlHighlight)
        &&& self.text_primary_inverse == argb_of(scheme, Role::TextPrimaryInverse)
        &&& self.text_secondary_and_tertiary_inverse == argb_of(scheme, Role::TextSecondaryAndTertiaryInverse)
        &&& self.text_primary_inverse_disable_only == argb_of(scheme, Role::TextPrimaryInverseDisableOnly)
        &&& self.text_secondary_and_tertiary_inverse_disabled == argb_of(scheme, Role::TextSecondaryAndTertiaryInverseDisabled)
        &&& self.text_hint_inverse == argb_of(scheme, Role::TextHintInverse)
    }

    /// The colours of all roles under a scheme, as a value.
    pub open spec fn spec_from_scheme(scheme: &DynamicScheme) -> Self {
        DynamicColors {
            primary_palette_key_color: argb_of(scheme, Role::PrimaryPaletteKeyColor),
            secondary_palette_key_color: argb_of(scheme, Role::SecondaryPaletteKeyColor),
            tertiary_palette_key_color: argb_of(scheme, Role::TertiaryPaletteKeyColor),
            neutral_palette_key_color: argb_of(scheme, Role::NeutralPaletteKeyColor),
            neutral_variant_palette_key_color: argb_of(scheme, Role::NeutralVariantPaletteKeyColor),
            error_palette_key_color: argb_of(scheme, Role::ErrorPaletteKeyColor),
            background: argb_of(scheme, Role::Background),
            on_background: argb_of(scheme, Role::OnBackground),
            surface: argb_of(scheme, Role::Surface),
            surface_dim: argb_of(scheme, Role::SurfaceDim),
            surface_bright: argb_of(scheme, Role::SurfaceBright),
            surface_container_lowest: argb_of(scheme, Role::SurfaceContainerLowest),
            surface_container_low: argb_of(scheme, Role::SurfaceContainerLow),
            surface_container: argb_of(scheme, Role::SurfaceContainer),
            surface_container_high: argb_of(scheme, Role::SurfaceContainerHigh),
            surface_container_highest: argb_of(scheme, Role::SurfaceContainerHighest),
            on_surface: argb_of(scheme, Role::OnSurface),
            surface_variant: argb_of(scheme, Role::SurfaceVariant),
            on_surface_variant: argb_of(scheme, Role::OnSurfaceVariant),
            inverse_surface: argb_of(scheme, Role::InverseSurface),
            inverse_on_surface: argb_of(scheme, Role::InverseOnSurface),
            outline: argb_of(scheme, Role::Outline),
            outline_variant: argb_of(scheme, Role::OutlineVariant),
            shadow: argb_of(scheme, Role::Shadow),
            scrim: argb_of(scheme, Role::Scrim),
            surface_tint: argb_of(scheme, Role::SurfaceTint),
            primary: argb_of(scheme, Role::Primary),
            primary_dim: argb_of(scheme, Role::PrimaryDim),
            on_primary: argb_of(scheme, Role::OnPrimary),
            primary_container: argb_of(scheme, Role::PrimaryContainer),
            on_primary_container: argb_of(scheme, Role::OnPrimaryContainer),
            inverse_primary: argb_of(scheme, Role::InversePrimary),
            primary_fixed: argb_of(scheme, Role::PrimaryFixed),
            primary_fixed_dim: argb_of(scheme, Role::PrimaryFixedDim),
            on_primary_fixed: argb_of(scheme, Role::OnPrimaryFixed),
            on_primary_fixed_variant: argb_of(scheme, Role::OnPrimaryFixedVariant),
            secondary: argb_of(scheme, Role::Secondary),
            secondary_dim: argb_of(scheme, Role::SecondaryDim),
            on_secondary: argb_of(scheme, Role::OnSecondary),
            secondary_container: argb_of(scheme, Role::SecondaryContainer),
            on_secondary_container: argb_of(scheme, Role::OnSecondaryContainer),
            secondary_fixed: argb_of(scheme, Role::SecondaryFixed),
            secondary_fixed_dim: argb_of(scheme, Role::SecondaryFixedDim),
            on_secondary_fixed: argb_of(scheme, Role::OnSecondaryFixed),
            on_secondary_fixed_variant: argb_of(scheme, Role::OnSecondaryFixedVariant),
            tertiary: argb_of(scheme, Role::Tertiary),
            tertiary_dim: argb_of(scheme, Role::TertiaryDim),
            on_tertiary: argb_of(scheme, Role::OnTertiary),
            tertiary_container: argb_of(scheme, Role::TertiaryContainer),
            on_tertiary_container: argb_of(scheme, Role::OnTertiaryContainer),
            tertiary_fixed: argb_of(scheme, Role::TertiaryFixed),
            tertiary_fixed_dim: argb_of(scheme, Role::TertiaryFixedDim),
            on_tertiary_fixed: argb_of(scheme, Role::OnTertiaryFixed),
            on_tertiary_fixed_variant: argb_of(scheme, Role::OnTertiaryFixedVariant),
            error: argb_of(scheme, Role::Error),
            error_dim: argb_of(scheme, Role::ErrorDim),
            on_error: argb_of(scheme, Role::OnError),
            error_container: argb_of(scheme, Role::ErrorContainer),
            on_error_container: argb_of(scheme, Role::OnErrorContainer),
            control_activated: argb_of(scheme, Role::ControlActivated),
            control_normal: argb_of(scheme, Role::ControlNormal),
            control_highlight: argb_of(scheme, Role::ControlHighlight),
            text_primary_inverse: argb_of(scheme, Role::TextPrimaryInverse),
            text_secondary_and_tertiary_inverse: argb_of(scheme, Role::TextSecondaryAndTertiaryInverse),
            text_primary_inverse_disable_only: argb_of(scheme, Role::TextPrimaryInverseDisableOnly),
            text_secondary_and_tertiary_inverse_disabled: argb_of(scheme, Role::TextSecondaryAndTertiaryInverseDisabled),
            text_hint_inverse: argb_of(scheme, Role::TextHintInverse),
        }
    }

    /// The colours of all roles under a scheme.
    #[verifier::when_used_as_spec(spec_from_scheme)]
    pub fn from_scheme(scheme: &DynamicScheme) -> (out: Self)
        ensures
            out == Self::spec_from_scheme(scheme),
            out.is_resolution_of(scheme),
    {
        DynamicColors {
            primary_palette_key_color: scheme.primary_palette_key_color(),
            secondary_palette_key_color: scheme.secondary_palette_key_color(),
            tertiary_palette_key_color: scheme.tertiary_palette_key_color(),
            neutral_palette_key_color: scheme.neutral_palette_key_color(),
            neutral_variant_palette_key_color: scheme.neutral_variant_palette_key_color(),
            error_palette_key_color: scheme.error_palette_key_color(),
            background: scheme.background(),
            on_background: scheme.on_background(),
            surface: scheme.surface(),
            surface_dim: scheme.surface_dim(),
            surface_bright: scheme.surface_bright(),
            surface_container_lowest: scheme.surface_container_lowest(),
            surface_container_low: scheme.surface_container_low(),
            surface_container: scheme.surface_container(),
            surface_container_high: scheme.surface_container_high(),
            surface_container_highest: scheme.surface_container_highest(),
            on_surface: scheme.on_surface(),
            surface_variant: scheme.surface_variant(),
            on_surface_variant: scheme.on_surface_variant(),
            inverse_surface: scheme.inverse_surface(),
            inverse_on_surface: scheme.inverse_on_surface(),
            outline: scheme.outline(),
            outline_variant: scheme.outline_variant(),
            shadow: scheme.shadow(),
            scrim: scheme.scrim(),
            surface_tint: scheme.surface_tint(),
            primary: scheme.primary(),
            primary_dim: scheme.primary_dim(),
            on_primary: scheme.on_primary(),
            primary_container: scheme.primary_container(),
            on_primary_container: scheme.on_primary_container(),
            inverse_primary: scheme.inverse_primary(),
            primary_fixed: scheme.primary_fixed(),
            primary_fixed_dim: scheme.primary_fixed_dim(),
            on_primary_fixed: scheme.on_primary_fixed(),
            on_primary_fixed_variant: scheme.on_primary_fixed_variant(),
            secondary: scheme.secondary(),
            secondary_dim: scheme.secondary_dim(),
            on_secondary: scheme.on_secondary(),
            secondary_container: scheme.secondary_container(),
            on_secondary_container: scheme.on_secondary_container(),
            secondary_fixed: scheme.secondary_fixed(),
            secondary_fixed_dim: scheme.secondary_fixed_dim(),
            on_secondary_fixed: scheme.on_secondary_fixed(),
            on_secondary_fixed_variant: scheme.on_secondary_fixed_variant(),
            tertiary: scheme.tertiary(),
            tertiary_dim: scheme.tertiary_dim(),
            on_tertiary: scheme.on_tertiary(),
            tertiary_container: scheme.tertiary_container(),
            on_tertiary_container: scheme.on_tertiary_container(),
            tertiary_fixed: scheme.tertiary_fixed(),
            tertiary_fixed_dim: scheme.tertiary_fixed_dim(),
            on_tertiary_fixed: scheme.on_tertiary_fixed(),
            on_tertiary_fixed_variant: scheme.on_tertiary_fixed_variant(),
            error: scheme.error(),
            error_dim: scheme.error_dim(),
            on_error: scheme.on_error(),
            error_container: scheme.error_container(),
            on_error_container: scheme.on_error_container(),
            control_activated: scheme.control_activated(),
            control_normal: scheme.control_normal(),
            control_highlight: scheme.control_highlight(),
            text_primary_inverse: scheme.text_primary_inverse(),
            text_secondary_and_tertiary_inverse: scheme.text_secondary_and_tertiary_inverse(),
            text_primary_inverse_disable_only: scheme.text_primary_inverse_disable_only(),
            text_secondary_and_tertiary_inverse_disabled: scheme.text_secondary_and_tertiary_inverse_disabled(),
            text_hint_inverse: scheme.text_hint_inverse(),
        }
    }
}

impl<'a> From<&'a DynamicScheme> for DynamicColors {
    /// The colours of all roles under a scheme.
    fn from(scheme: &'a DynamicScheme) -> (out: Self) {
        DynamicColors::from_scheme(scheme)
    }
}

impl<'a> vstd::std_specs::convert::FromSpecImpl<&'a DynamicScheme> for DynamicColors {
    open spec fn obeys_from_spec() -> bool {
        true
    }

    open spec fn from_spec(scheme: &'a DynamicScheme) -> Self {
        DynamicColors::spec_from_scheme(scheme)
    }
}

} // verus!
