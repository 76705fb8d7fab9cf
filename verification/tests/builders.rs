use material_color_utilities::dynamiccolor::dynamic_scheme::DynamicSchemePalette;
use material_color_utilities::dynamiccolor::{
    ColorCalculationSpec, ColorSpec, ColorSpec2021, ColorSpec2025, ContrastCurve, DynamicColor,
    DynamicColorBuilder, DynamicSchemeBuilder, ExtendError, MaterialDynamicColors, PaletteKind,
    PalettesSpec, PalettesSpec2025, Platform, Role, RoleDefinition, SpecVersion, ToneInputs,
    ToneRule, Variant,
};
use material_color_utilities::fixed::Fixed;
use material_color_utilities::hct::Hct;
use material_color_utilities::palettes::{PaletteKey, TonalPalette};
use material_color_utilities::utils::string::{
    ParseColorError, TryFromArgb, TryParseArgb,
};

#[test]
fn a_definition_is_built_from_its_parts() {
    let built = DynamicColorBuilder::new()
        .name(Role::OnPrimary)
        .palette(PaletteKind::Primary)
        .background(Role::Primary)
        .contrast_curve(ContrastCurve::new(Fixed::from_int(3), Fixed::from_int(4), Fixed::from_int(5), Fixed::from_int(6)))
        .build()
        .unwrap();
    assert_eq!(built.tone, ToneRule::FromBackground);
    assert!(!built.is_background);
    assert_eq!(built.chroma_multiplier, Fixed::from_int(1));
    assert_eq!(built.background, Some(Role::Primary));
    assert_eq!(built.second_background, None);
    assert_eq!(DynamicColorBuilder::new().name(Role::Primary).build(), None);
    assert_eq!(DynamicColorBuilder::new().palette(PaletteKind::Primary).build(), None);
    let full = DynamicColorBuilder::new()
        .name(Role::ControlHighlight)
        .palette(PaletteKind::Neutral)
        .tone(ToneRule::Value(Fixed::from_int(100)))
        .is_background(true)
        .chroma_multiplier(Fixed::from_int(2))
        .second_background(Role::Surface)
        .opacity(Fixed::from_tenths(2))
        .build()
        .unwrap();
    assert_eq!(full.opacity, Some(Fixed::from_tenths(2)));
    assert_eq!(full.second_background, Some(Role::Surface));
    assert!(full.is_background);
    assert_eq!(DynamicColorBuilder::from_definition(full).build(), Some(full));
}

#[test]
fn a_builder_is_extended_for_one_version() {
    let old = DynamicSchemeBuilder::new().spec_version(SpecVersion::Spec2021).build();
    let new = DynamicSchemeBuilder::new().spec_version(SpecVersion::Spec2025).build();
    let base = DynamicColorBuilder::from_definition(ColorSpec2021::primary(&old));
    let extended = ColorSpec2025::primary(&new);
    assert_eq!(base.extend_spec_version(SpecVersion::Spec2025, extended, &new).unwrap().build(), Some(extended));
    assert_eq!(base.extend_spec_version(SpecVersion::Spec2025, extended, &old).unwrap(), base);
    assert_eq!(base.extend_spec_version(SpecVersion::Spec2025, ColorSpec2025::secondary(&new), &new), Err(ExtendError::DifferentName));
    let foreground = RoleDefinition { is_background: false, ..extended };
    assert_eq!(base.extend_spec_version(SpecVersion::Spec2025, foreground, &new), Err(ExtendError::DifferentKind));
    let pair = ColorSpec2021::primary(&old).tone_delta_pair.unwrap();
    let with_pair = DynamicColorBuilder::new().name(Role::Primary).palette(PaletteKind::Primary).tone_delta_pair(pair).build().unwrap();
    assert_eq!(with_pair.tone_delta_pair, Some(pair));
}

#[test]
fn a_role_answers_for_its_parts() {
    let scheme = DynamicSchemeBuilder::new().spec_version(SpecVersion::Spec2021).build();
    let on_primary = MaterialDynamicColors::new().on_primary();
    assert_eq!(on_primary.background(&scheme), Some(DynamicColor::new(Role::Primary)));
    assert_eq!(on_primary.second_background(&scheme), None);
    assert!(!on_primary.is_background(&scheme));
    assert_eq!(on_primary.chroma_multiplier(&scheme), Fixed::from_int(1));
    assert_eq!(on_primary.palette(&scheme), scheme.primary_palette().key());
    assert_eq!(on_primary.tone(&scheme), Fixed::from_int(100));
    assert_eq!(on_primary.opacity(&scheme), None);
    assert_eq!(on_primary.tone_delta_pair(&scheme), None);
    assert_eq!(on_primary.contrast_curve(&scheme).unwrap().get(Fixed::from_int(0)), Fixed::from_int(7));
    assert_eq!(on_primary.definition(&scheme), ColorSpec2021::on_primary(&scheme));
    let primary = MaterialDynamicColors::new().primary();
    assert!(primary.tone_delta_pair(&scheme).is_some());
    assert_eq!(DynamicColor::get_initial_tone_from_background(None, &scheme), Fixed::from_int(50));
    assert_eq!(DynamicColor::get_initial_tone_from_background(Some(primary), &scheme), primary.get_tone(&scheme));
    assert_eq!(MaterialDynamicColors::new().control_highlight().opacity(&scheme), Some(Fixed::from_hundredths(12)));
}

#[test]
fn a_version_has_its_rules() {
    let scheme = DynamicSchemeBuilder::new().spec_version(SpecVersion::Spec2025).build();
    let rules = SpecVersion::Spec2025.color_spec();
    assert_eq!(rules.definition(Role::Primary, &scheme), Some(ColorSpec2025::primary(&scheme)));
    assert_eq!(rules.highest_surface(&scheme), Role::SurfaceDim);
    assert_eq!(SpecVersion::Spec2021.color_spec().definition(Role::PrimaryDim, &scheme), None);
    let definition = ColorSpec2025::surface(&scheme);
    let inputs = ToneInputs { nominal: Fixed::from_int(98), background: None, second_background: None, pair: None };
    assert_eq!(SpecVersion::Spec2025.color_calculation_spec().get_tone(&scheme, &definition, &inputs), Fixed::from_int(98));
    assert_eq!(SpecVersion::Spec2021.color_calculation_spec().get_hct(&scheme, &definition, Fixed::from_int(98)), scheme.neutral_palette().hct(Fixed::from_int(98)));
    let source = Hct::from_int(0xff6750a4);
    let palettes = SpecVersion::Spec2025.palettes_spec();
    assert_eq!(palettes.primary_palette(&Variant::TonalSpot, &source, false, &Platform::Phone, Fixed::from_int(0)), PalettesSpec2025::primary(Variant::TonalSpot, source, false, Platform::Phone));
    assert!(SpecVersion::Spec2021.palettes_spec().error_palette(&Variant::TonalSpot, &source, false, &Platform::Phone, Fixed::from_int(0)).is_none());
    assert!(palettes.error_palette(&Variant::TonalSpot, &source, false, &Platform::Phone, Fixed::from_int(0)).is_some());
    assert_eq!(palettes.secondary_palette(&Variant::Rainbow, &source, false, &Platform::Phone, Fixed::from_int(0)).chroma, Fixed::from_int(16));
    assert_eq!(palettes.tertiary_palette(&Variant::Rainbow, &source, false, &Platform::Phone, Fixed::from_int(0)).chroma, Fixed::from_int(24));
    assert_eq!(palettes.neutral_palette(&Variant::Rainbow, &source, false, &Platform::Phone, Fixed::from_int(0)).chroma, Fixed::from_int(0));
    assert_eq!(palettes.neutral_variant_palette(&Variant::Monochrome, &source, false, &Platform::Phone, Fixed::from_int(0)).chroma, Fixed::from_int(0));
}

#[test]
fn palettes_follow_the_builder() {
    let source = Hct::from_int(0xff6750a4);
    let given = TonalPalette::from_hue_and_chroma(Fixed::from_int(200), Fixed::from_int(30));
    let scheme = DynamicSchemeBuilder::new()
        .source_color_hct(source)
        .primary_palette(&given)
        .secondary_palette_key_color(Hct::from_int(0xff00ff00))
        .error_palette_key_color(Hct::from_int(0xffff0000))
        .build();
    assert_eq!(scheme.primary_palette().key(), given.key());
    let green = Hct::from_int(0xff00ff00);
    assert_eq!(scheme.secondary_palette().key(), PaletteKey::from_hue_and_chroma(green.hue(), Fixed::from_int(16)));
    assert_eq!(scheme.tertiary_palette().hue(), source.hue().plus(Fixed::from_int(60)));
    assert_eq!(scheme.error_palette().key(), PaletteKey::from_hue_and_chroma(Fixed::from_int(25), Fixed::from_int(84)));
    let choice = Some(DynamicSchemePalette::Palette(given.key()));
    assert_eq!(DynamicSchemePalette::tonal_palette_or_none(choice, SpecVersion::Spec2021, Variant::TonalSpot, source, false, Platform::Phone, Fixed::from_int(0)), Some(given.key()));
    assert_eq!(DynamicSchemePalette::tonal_palette_or_none(None, SpecVersion::Spec2021, Variant::TonalSpot, source, false, Platform::Phone, Fixed::from_int(0)), None);
    assert_eq!(DynamicSchemePalette::tonal_palette(None, PaletteKind::Neutral, SpecVersion::Spec2021, Variant::TonalSpot, source, false, Platform::Phone, Fixed::from_int(0)).chroma, Fixed::from_int(6));
}

#[test]
fn fallible_conversions() {
    assert_eq!("red".try_parse_argb(), Ok(0xffff0000));
    assert_eq!("nothing".try_parse_argb(), Err(ParseColorError::InvalidSyntax));
    assert_eq!(Hct::from_int(0xff6750a4).try_parse_argb(), Ok(0xff6750a4));
    assert_eq!(Hct::try_from_argb(0xff6750a4), Ok(Hct::from_int(0xff6750a4)));
}

#[test]
fn conversions_agree_with_the_named_constructors() {
    let scheme = DynamicSchemeBuilder::new()
        .source_color_hct(Hct::from_int(0xff6750a4))
        .variant(Variant::TonalSpot)
        .is_dark(true)
        .build();
    let builder = DynamicSchemeBuilder::from(&scheme);
    assert_eq!(builder, DynamicSchemeBuilder::from_scheme(&scheme));
    assert_eq!(DynamicSchemeBuilder::from(scheme), builder);
    assert_eq!(builder.build(), scheme);
    let colors = material_color_utilities::dynamiccolor::DynamicColors::from(&scheme);
    assert_eq!(colors, material_color_utilities::dynamiccolor::DynamicColors::from_scheme(&scheme));
    assert_eq!(colors.primary, scheme.primary());
    assert_eq!(colors.on_surface, scheme.on_surface());
    assert_ne!(colors.primary, colors.on_primary);
    let definition = ColorSpec2021::tertiary_container(&scheme);
    assert_eq!(DynamicColorBuilder::from(definition).build(), Some(definition));
    let mut tones = std::collections::HashMap::new();
    tones.insert(40u8, 0xff6750a4u32);
    let table = material_color_utilities::palettes::Palette::from(tones.clone());
    assert_eq!(table.get(40), Some(0xff6750a4));
    assert_eq!(table.get(50), None);
    assert_eq!(table.into_inner(), tones);
}
