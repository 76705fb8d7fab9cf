use material_color_utilities::contrast::ratio_of_tones;
use material_color_utilities::dynamiccolor::{
    BuildError, DynamicColor, DynamicScheme, DynamicSchemeBuilder, MaterialDynamicColors, Platform,
    Role, SpecVersion, Variant,
};
use material_color_utilities::fixed::Fixed;
use material_color_utilities::hct::Hct;

fn scheme(variant: Variant, is_dark: bool, contrast_tenths: i64, version: SpecVersion) -> DynamicScheme {
    DynamicSchemeBuilder::new()
        .source_color_hct(Hct::from_int(0xff6750a4))
        .variant(variant)
        .is_dark(is_dark)
        .contrast_level(Fixed::from_tenths(contrast_tenths))
        .spec_version(version)
        .build()
}

#[test]
fn tonal_spot_light_2021_primary_has_tone_40() {
    let scheme = scheme(Variant::TonalSpot, false, 0, SpecVersion::Spec2021);
    let colors = MaterialDynamicColors::new();
    assert_eq!(colors.primary().get_tone(&scheme), Fixed::from_int(40));
}

#[test]
fn tonal_spot_light_2021_on_primary_contrasts_with_primary() {
    let scheme = scheme(Variant::TonalSpot, false, 0, SpecVersion::Spec2021);
    let colors = MaterialDynamicColors::new();
    let primary = colors.primary().get_tone(&scheme);
    let on_primary = colors.on_primary().get_tone(&scheme);
    assert!(ratio_of_tones(primary, on_primary).raw >= Fixed::from_tenths(45).raw);
}

#[test]
fn tonal_spot_light_2021_has_the_baseline_colours() {
    let scheme = scheme(Variant::TonalSpot, false, 0, SpecVersion::Spec2021);
    assert_eq!(scheme.primary(), 0xff65558f);
    assert_eq!(scheme.on_primary(), 0xffffffff);
    assert_eq!(scheme.secondary(), 0xff625b71);
    assert_eq!(scheme.error(), 0xffba1a1a);
    assert_eq!(scheme.shadow(), 0xff000000);
}

#[test]
fn builder_defaults() {
    let built = DynamicSchemeBuilder::new().build();
    assert_eq!(built.source_color_argb(), 0xff6750a4);
    assert_eq!(*built.variant(), Variant::TonalSpot);
    assert!(!built.is_dark());
    assert_eq!(*built.platform(), Platform::Phone);
    assert_eq!(built.contrast_level(), Fixed::from_int(0));
    assert_eq!(*built.spec_version(), SpecVersion::Spec2021);
    assert_eq!(built.error_palette().hue(), Fixed::from_int(25));
    assert_eq!(built.error_palette().chroma(), Fixed::from_int(84));
    assert_eq!(built, scheme(Variant::TonalSpot, false, 0, SpecVersion::Spec2021));
    assert_eq!(DynamicSchemeBuilder::default(), DynamicSchemeBuilder::new());
}

#[test]
fn strict_builder_wants_to_know_whether_the_scheme_is_dark() {
    assert_eq!(DynamicSchemeBuilder::new().try_build(), Err(BuildError::MissingRequiredField));
    let dark = DynamicSchemeBuilder::new().is_dark(true).try_build();
    assert_eq!(dark, Ok(DynamicSchemeBuilder::new().is_dark(true).build()));
}

#[test]
fn builder_rebuilds_a_scheme() {
    let first = scheme(Variant::Vibrant, true, 5, SpecVersion::Spec2025);
    assert_eq!(DynamicSchemeBuilder::from_scheme(&first).build(), first);
}

#[test]
fn resolving_twice_gives_the_same() {
    for version in [SpecVersion::Spec2021, SpecVersion::Spec2025] {
        let scheme = scheme(Variant::TonalSpot, true, 0, version);
        let color = DynamicColor::new(Role::OnPrimaryContainer);
        assert_eq!(color.get_hct(&scheme), color.get_hct(&scheme));
        assert_eq!(color.get_argb(&scheme), scheme.on_primary_container());
    }
}

#[test]
fn versions_differ() {
    let old = scheme(Variant::TonalSpot, false, 0, SpecVersion::Spec2021);
    let new = scheme(Variant::TonalSpot, false, 0, SpecVersion::Spec2025);
    assert_ne!(old.primary(), new.primary());
}

#[test]
fn control_highlight_is_translucent() {
    let light = scheme(Variant::TonalSpot, false, 0, SpecVersion::Spec2021);
    assert_eq!(light.control_highlight() >> 24, 31);
    let dark = scheme(Variant::TonalSpot, true, 0, SpecVersion::Spec2021);
    assert_eq!(dark.control_highlight() >> 24, 51);
}

#[test]
fn every_listed_role_resolves_2021() {
    let scheme = scheme(Variant::TonalSpot, false, 0, SpecVersion::Spec2021);
    let all = MaterialDynamicColors::new().all_dynamic_colors();
    assert_eq!(all.len(), 59);
    for color in all {
        let tone = color.get_tone(&scheme);
        assert!(tone.raw >= 0 && tone.raw <= Fixed::from_int(100).raw);
        assert_eq!(color.get_argb(&scheme) >> 24, 255);
    }
}

#[test]
fn every_listed_role_resolves_2025_phone() {
    let scheme = scheme(Variant::TonalSpot, false, 0, SpecVersion::Spec2025);
    for color in MaterialDynamicColors::new().all_dynamic_colors() {
        let tone = color.get_tone(&scheme);
        assert!(tone.raw >= 0 && tone.raw <= Fixed::from_int(100).raw);
    }
}

#[test]
fn every_listed_role_resolves_2025_watch() {
    let scheme = DynamicSchemeBuilder::new()
        .variant(Variant::Expressive)
        .is_dark(true)
        .platform(Platform::Watch)
        .spec_version(SpecVersion::Spec2025)
        .build();
    for color in MaterialDynamicColors::new().all_dynamic_colors() {
        let tone = color.get_tone(&scheme);
        assert!(tone.raw >= 0 && tone.raw <= Fixed::from_int(100).raw);
    }
}

#[test]
fn piecewise_values() {
    let hct = Hct::from_int(0xff6750a4);
    let hue = hct.hue();
    let rotated = DynamicScheme::get_rotated_hue(&hct, &[0, 360], &[10]);
    assert_eq!(rotated, hue.plus(Fixed::from_int(10)));
    assert_eq!(DynamicScheme::get_rotated_hue(&hct, &[0, 360], &[]), hue);
    assert_eq!(DynamicScheme::get_piecewise_value(&hct, &[0, 100, 360], &[7, 9]), Fixed::from_int(9));
    assert_eq!(DynamicScheme::get_piecewise_value(&hct, &[0, 100], &[7]), hue);
}
