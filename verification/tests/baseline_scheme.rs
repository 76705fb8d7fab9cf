use material_color_utilities::contrast::ratio_of_tones;
use material_color_utilities::dynamiccolor::resolution::{nominal_tone, resolved_tone};
use material_color_utilities::dynamiccolor::{
    ColorCalculationSpec2025, ColorSpec2025, DeltaConstraint, DynamicColor, DynamicColors,
    DynamicScheme, DynamicSchemeBuilder, MaterialDynamicColors, Platform, Role, SpecVersion,
    Variant,
};
use material_color_utilities::fixed::Fixed;
use material_color_utilities::hct::Hct;

fn baseline(is_dark: bool) -> DynamicScheme {
    DynamicSchemeBuilder::new()
        .source_color_hct(Hct::from_int(0xff6750a4))
        .variant(Variant::TonalSpot)
        .is_dark(is_dark)
        .spec_version(SpecVersion::Spec2021)
        .build()
}

fn expressive(variant: Variant, is_dark: bool, platform: Platform) -> DynamicScheme {
    DynamicSchemeBuilder::new()
        .source_color_hct(Hct::from_int(0xff6750a4))
        .variant(variant)
        .is_dark(is_dark)
        .platform(platform)
        .spec_version(SpecVersion::Spec2025)
        .build()
}

#[test]
fn light_baseline_scheme() {
    let colors = DynamicColors::from_scheme(&baseline(false));
    assert_eq!(colors.primary, 0xff65558f);
    assert_eq!(colors.on_primary, 0xffffffff);
    assert_eq!(colors.primary_container, 0xffe9ddff);
    assert_eq!(colors.on_primary_container, 0xff4d3d75);
    assert_eq!(colors.secondary, 0xff625b71);
    assert_eq!(colors.secondary_container, 0xffe8def8);
    assert_eq!(colors.tertiary, 0xff7e5260);
    assert_eq!(colors.tertiary_container, 0xffffd9e3);
    assert_eq!(colors.error, 0xffba1a1a);
    assert_eq!(colors.error_container, 0xffffdad6);
    assert_eq!(colors.background, 0xfffdf7ff);
    assert_eq!(colors.on_background, 0xff1d1b20);
    assert_eq!(colors.surface, 0xfffdf7ff);
    assert_eq!(colors.on_surface, 0xff1d1b20);
    assert_eq!(colors.surface_variant, 0xffe7e0eb);
    assert_eq!(colors.on_surface_variant, 0xff49454e);
    assert_eq!(colors.outline, 0xff7a757f);
    assert_eq!(colors.outline_variant, 0xffcac4cf);
    assert_eq!(colors.inverse_surface, 0xff322f35);
    assert_eq!(colors.inverse_on_surface, 0xfff5eff7);
    assert_eq!(colors.inverse_primary, 0xffcfbdfe);
    assert_eq!(colors.surface_dim, 0xffded8e0);
    assert_eq!(colors.surface_container, 0xfff2ecf4);
    assert_eq!(colors.primary_fixed, 0xffe9ddff);
    assert_eq!(colors.primary_fixed_dim, 0xffcfbdfe);
    assert_eq!(colors.on_primary_fixed, 0xff201047);
    assert_eq!(colors.on_primary_fixed_variant, 0xff4d3d75);
    assert_eq!(colors.shadow, 0xff000000);
    assert_eq!(colors.scrim, 0xff000000);
}

#[test]
fn dark_baseline_scheme() {
    let colors = DynamicColors::from_scheme(&baseline(true));
    assert_eq!(colors.primary, 0xffcfbdfe);
    assert_eq!(colors.on_primary, 0xff36275d);
    assert_eq!(colors.primary_container, 0xff4d3d75);
    assert_eq!(colors.surface, 0xff141218);
    assert_eq!(colors.on_surface, 0xffe6e0e9);
    assert_eq!(colors.error, 0xffffb4ab);
}

#[test]
fn contrast_of_text_grows_with_the_contrast_level() {
    let mut last = Fixed::from_int(0);
    for tenths in [-10, -5, 0, 5, 10] {
        let scheme = DynamicSchemeBuilder::from_scheme(&baseline(false))
            .contrast_level(Fixed::from_tenths(tenths))
            .build();
        let surface = resolved_tone(&scheme, Role::SurfaceDim);
        let text = resolved_tone(&scheme, Role::OnSurfaceVariant);
        let ratio = ratio_of_tones(surface, text);
        assert!(ratio.raw >= last.raw);
        last = ratio;
    }
    assert!(last.raw >= Fixed::from_int(10).raw);
}

#[test]
fn primary_of_2025_keeps_its_distance_from_its_container() {
    let scheme = expressive(Variant::TonalSpot, false, Platform::Phone);
    let palette = scheme.primary_palette().key();
    let container = resolved_tone(&scheme, Role::PrimaryContainer);
    assert_eq!(container, ColorSpec2025::t_max_c_clamped(&palette, Fixed::from_int(0), Fixed::from_int(90)));
    assert_eq!(nominal_tone(&scheme, Role::Primary), ColorSpec2025::t_max_c(&palette));
    let placed = ColorCalculationSpec2025::at_distance(
        ColorSpec2025::t_max_c(&palette),
        container,
        Fixed::from_int(-5),
        DeltaConstraint::Farther,
    );
    let definition = ColorSpec2025::primary(&scheme);
    let solved = ColorCalculationSpec2025::with_contrast(
        placed,
        resolved_tone(&scheme, Role::SurfaceDim),
        &definition.contrast_curve.unwrap(),
        Fixed::from_int(0),
    );
    let expected = ColorCalculationSpec2025::out_of_the_middle(solved, &definition);
    let primary = resolved_tone(&scheme, Role::Primary);
    assert_eq!(primary, expected);
    assert!(primary.raw <= container.minus(Fixed::from_int(5)).raw);
    assert!(primary.raw <= Fixed::from_int(49).raw);
    assert_eq!(resolved_tone(&scheme, Role::SurfaceTint), primary);
    assert_eq!(scheme.surface_tint(), scheme.primary());
    assert_eq!(scheme.background(), scheme.surface());
    assert_eq!(scheme.surface_variant(), scheme.surface_container_highest());
    assert_eq!(scheme.on_background(), scheme.on_surface());
}

#[test]
fn text_of_2025_takes_its_tone_from_its_background() {
    let scheme = expressive(Variant::TonalSpot, false, Platform::Phone);
    let primary = resolved_tone(&scheme, Role::Primary);
    assert_eq!(nominal_tone(&scheme, Role::OnPrimary), primary);
    let on_primary = resolved_tone(&scheme, Role::OnPrimary);
    assert!(ratio_of_tones(primary, on_primary).raw >= Fixed::from_int(6).raw);
    let surface = resolved_tone(&scheme, Role::SurfaceDim);
    assert_eq!(nominal_tone(&scheme, Role::OnSurface), surface);
    assert!(ratio_of_tones(surface, resolved_tone(&scheme, Role::OnSurface)).raw >= Fixed::from_int(9).raw);
    assert!(ratio_of_tones(surface, resolved_tone(&scheme, Role::Outline)).raw >= Fixed::from_int(3).raw);
}

#[test]
fn fixed_accents_of_2025_ignore_dark_and_contrast() {
    let light = expressive(Variant::TonalSpot, false, Platform::Phone);
    let dark = DynamicSchemeBuilder::from_scheme(&light)
        .is_dark(true)
        .contrast_level(Fixed::from_int(1))
        .build();
    let container_in_light = resolved_tone(&light, Role::PrimaryContainer);
    assert_eq!(nominal_tone(&dark, Role::PrimaryFixed), container_in_light);
    assert_eq!(nominal_tone(&light, Role::PrimaryFixed), container_in_light);
    let fixed = resolved_tone(&light, Role::PrimaryFixed);
    assert_eq!(nominal_tone(&light, Role::PrimaryFixedDim), fixed);
    assert_eq!(resolved_tone(&light, Role::PrimaryFixedDim), fixed.minus(Fixed::from_int(5)));
}

#[test]
fn watch_of_2025() {
    let scheme = expressive(Variant::TonalSpot, true, Platform::Watch);
    assert_eq!(resolved_tone(&scheme, Role::Surface), Fixed::from_int(0));
    assert_eq!(resolved_tone(&scheme, Role::SurfaceContainerHigh), Fixed::from_int(25));
    assert_eq!(nominal_tone(&scheme, Role::OnBackground), Fixed::from_int(100));
    assert_eq!(nominal_tone(&scheme, Role::PrimaryContainer), Fixed::from_int(30));
    let dim = resolved_tone(&scheme, Role::PrimaryDim);
    let primary = resolved_tone(&scheme, Role::Primary);
    assert!(dim.raw <= primary.minus(Fixed::from_int(5)).raw);
    let container = resolved_tone(&scheme, Role::PrimaryContainer);
    assert!(container.raw <= dim.minus(Fixed::from_int(10)).raw);
    assert_eq!(nominal_tone(&scheme, Role::OnPrimary), dim);
    assert_eq!(MaterialDynamicColors::definition(Role::OnPrimary, &scheme).background, Some(Role::PrimaryDim));
    assert_eq!(DynamicColor::new(Role::Surface).get_argb(&scheme), 0xff000000);
}

#[test]
fn surfaces_of_2025_carry_more_chroma() {
    let scheme = expressive(Variant::TonalSpot, false, Platform::Phone);
    let dim = DynamicColor::new(Role::SurfaceDim).get_hct(&scheme);
    let palette = scheme.neutral_palette();
    assert_eq!(dim, Hct::from(palette.hue(), palette.chroma().times(Fixed::from_tenths(17)), Fixed::from_int(87)));
    let plain = palette.hct(Fixed::from_int(87));
    assert!(dim.chroma().raw > plain.chroma().raw);
}
