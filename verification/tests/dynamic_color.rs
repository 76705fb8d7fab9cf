use material_color_utilities::dynamiccolor::color_calculation_spec_2021::{
    clamp_tone, is_awkward, PairTones,
};
use material_color_utilities::dynamiccolor::resolution::{
    nominal_tone, resolved_tone, with_opacity,
};
use material_color_utilities::dynamiccolor::{
    ColorCalculationSpec, ColorCalculationSpec2021, ColorCalculationSpec2025, ColorSpec,
    ColorSpec2021, ColorSpec2025, ContrastCurve, DeltaConstraint, DynamicColor, DynamicColors,
    DynamicScheme, DynamicSchemeBuilder, DynamicSchemeOptions, ExtendError, MaterialDynamicColors,
    PaletteKind, PalettesSpec, PalettesSpec2021, PalettesSpec2025, Platform,
    PlatformAndSpecVersion, Role, RoleDefinition, SchemeColors, SpecVersion, ToneDeltaPair,
    ToneInputs, TonePolarity, ToneRule, Variant,
};
use material_color_utilities::fixed::Fixed;
use material_color_utilities::hct::Hct;
use material_color_utilities::palettes::{PaletteKey, Palettes};

fn fx(value: f64) -> Fixed {
    Fixed { raw: (value * 1e12).round() as i128 }
}

fn whole(value: i64) -> Fixed {
    Fixed::from_int(value)
}

fn scheme(variant: Variant, is_dark: bool, platform: Platform, version: SpecVersion) -> DynamicScheme {
    DynamicSchemeBuilder::new()
        .variant(variant)
        .is_dark(is_dark)
        .platform(platform)
        .spec_version(version)
        .build()
}

#[test]
fn contrast_curve_runs_in_straight_lines() {
    let curve = ContrastCurve::new(whole(1), whole(2), whole(4), whole(8));
    assert_eq!(curve.get(whole(-2)), whole(1));
    assert_eq!(curve.get(whole(-1)), whole(1));
    assert_eq!(curve.get(fx(-0.5)), fx(1.5));
    assert_eq!(curve.get(whole(0)), whole(2));
    assert_eq!(curve.get(fx(0.25)), whole(3));
    assert_eq!(curve.get(fx(0.5)), whole(4));
    assert_eq!(curve.get(fx(0.75)), whole(6));
    assert_eq!(curve.get(whole(1)), whole(8));
    assert_eq!(curve.get(whole(3)), whole(8));
}

#[test]
fn contrast_curves_of_2025() {
    assert_eq!(ColorSpec2025::get_contrast_curve(45), ContrastCurve::new(fx(4.5), fx(4.5), whole(7), whole(11)));
    assert_eq!(ColorSpec2025::get_contrast_curve(15), ContrastCurve::new(fx(1.5), fx(1.5), whole(3), fx(4.5)));
    assert_eq!(ColorSpec2025::get_contrast_curve(210), ContrastCurve::new(whole(21), whole(21), whole(21), whole(21)));
    assert_eq!(ColorSpec2025::get_contrast_curve(50), ContrastCurve::new(whole(5), whole(5), whole(7), whole(21)));
}

#[test]
fn tone_delta_pair_constructors() {
    let exact = ToneDeltaPair::with_stay_together(Role::Primary, Role::Secondary, whole(10), TonePolarity::Ligher, false);
    assert_eq!(exact.constraint(), DeltaConstraint::Exact);
    assert!(!exact.stay_together());
    let far = ToneDeltaPair::with_constraint(Role::Primary, Role::Secondary, whole(5), TonePolarity::Darker, DeltaConstraint::Farther);
    assert!(far.stay_together());
    assert_eq!(far.role_a(), Role::Primary);
    assert_eq!(far.role_b(), Role::Secondary);
    assert_eq!(far.delta(), whole(5));
    assert_eq!(far.polarity(), TonePolarity::Darker);
}

#[test]
fn foreground_tones() {
    assert!(DynamicColor::tone_prefers_light_foreground(fx(59.4)));
    assert!(!DynamicColor::tone_prefers_light_foreground(fx(59.5)));
    assert!(DynamicColor::tone_allows_light_foreground(fx(49.4)));
    assert!(!DynamicColor::tone_allows_light_foreground(fx(49.5)));
    assert_eq!(DynamicColor::enable_light_foreground(whole(55)), whole(49));
    assert_eq!(DynamicColor::enable_light_foreground(whole(40)), whole(40));
    assert_eq!(DynamicColor::enable_light_foreground(whole(70)), whole(70));
    let on_dark = DynamicColor::foreground_tone(whole(20), fx(4.5));
    assert!(on_dark.raw > whole(20).raw);
    let on_light = DynamicColor::foreground_tone(whole(90), fx(4.5));
    assert!(on_light.raw < whole(90).raw);
    assert_eq!(DynamicColor::foreground_tone(whole(50), whole(21)), whole(0));
    assert_eq!(DynamicColor::foreground_tone(whole(30), whole(21)), whole(100));
}

#[test]
fn pairs_of_2021_move_apart_and_out_of_the_middle() {
    let near = PairTones { nearer: whole(90), farther: whole(85) };
    assert_eq!(ColorCalculationSpec2021::moved_apart(near, whole(10), -1), PairTones { nearer: whole(90), farther: whole(80) });
    let at_the_edge = PairTones { nearer: whole(5), farther: whole(2) };
    assert_eq!(ColorCalculationSpec2021::moved_apart(at_the_edge, whole(10), -1), PairTones { nearer: whole(10), farther: whole(0) });
    let apart = PairTones { nearer: whole(30), farther: whole(80) };
    assert_eq!(ColorCalculationSpec2021::moved_apart(apart, whole(10), 1), apart);
    let awkward = PairTones { nearer: whole(55), farther: whole(70) };
    assert_eq!(ColorCalculationSpec2021::out_of_the_middle(awkward, whole(10), 1, false), PairTones { nearer: whole(60), farther: whole(70) });
    assert_eq!(ColorCalculationSpec2021::out_of_the_middle(awkward, whole(15), 1, false), PairTones { nearer: whole(60), farther: whole(75) });
    let far_awkward = PairTones { nearer: whole(70), farther: whole(55) };
    assert_eq!(ColorCalculationSpec2021::out_of_the_middle(far_awkward, whole(10), -1, false), PairTones { nearer: whole(70), farther: whole(49) });
    assert_eq!(ColorCalculationSpec2021::out_of_the_middle(far_awkward, whole(10), -1, true), PairTones { nearer: whole(49), farther: whole(39) });
    assert!(is_awkward(whole(50)));
    assert!(!is_awkward(whole(60)));
    assert_eq!(clamp_tone(whole(120)), whole(100));
    assert_eq!(clamp_tone(whole(-3)), whole(0));
}

#[test]
fn pairs_of_2025_keep_their_distance() {
    let spec = ColorCalculationSpec2025::at_distance;
    assert_eq!(spec(whole(40), whole(50), whole(5), DeltaConstraint::Exact), whole(55));
    assert_eq!(spec(whole(40), whole(98), whole(5), DeltaConstraint::Exact), whole(100));
    assert_eq!(spec(whole(40), whole(50), whole(5), DeltaConstraint::Nearer), whole(50));
    assert_eq!(spec(whole(53), whole(50), whole(5), DeltaConstraint::Nearer), whole(53));
    assert_eq!(spec(whole(70), whole(50), whole(-5), DeltaConstraint::Nearer), whole(50));
    assert_eq!(spec(whole(40), whole(50), whole(5), DeltaConstraint::Farther), whole(55));
    assert_eq!(spec(whole(70), whole(50), whole(5), DeltaConstraint::Farther), whole(70));
    assert_eq!(spec(whole(70), whole(50), whole(-5), DeltaConstraint::Farther), whole(45));
    let pair = ToneDeltaPair::with_constraint(Role::PrimaryContainer, Role::Primary, whole(5), TonePolarity::RelativeLighter, DeltaConstraint::Farther);
    assert_eq!(ColorCalculationSpec2025::absolute_delta(&pair, false), whole(5));
    assert_eq!(ColorCalculationSpec2025::absolute_delta(&pair, true), whole(-5));
}

#[test]
fn backgrounds_of_2025_leave_the_middle() {
    let scheme = scheme(Variant::TonalSpot, false, Platform::Phone, SpecVersion::Spec2025);
    let background = ColorSpec2025::primary(&scheme);
    assert_eq!(ColorCalculationSpec2025::out_of_the_middle(whole(57), &background), whole(65));
    assert_eq!(ColorCalculationSpec2025::out_of_the_middle(whole(56), &background), whole(49));
    assert_eq!(ColorCalculationSpec2025::out_of_the_middle(whole(80), &background), whole(80));
    let fixed_dim = ColorSpec2025::primary_fixed_dim(&scheme);
    assert_eq!(ColorCalculationSpec2025::out_of_the_middle(whole(57), &fixed_dim), whole(57));
    let text = ColorSpec2025::on_primary(&scheme);
    assert_eq!(ColorCalculationSpec2025::out_of_the_middle(whole(57), &text), whole(57));
}

#[test]
fn a_role_without_background_keeps_its_tone() {
    let scheme = scheme(Variant::TonalSpot, false, Platform::Phone, SpecVersion::Spec2021);
    let definition = ColorSpec2021::surface(&scheme);
    let inputs = ToneInputs { nominal: whole(98), background: None, second_background: None, pair: None };
    assert_eq!(ColorCalculationSpec2021::tone(&scheme, &definition, &inputs), whole(98));
    assert_eq!(ColorCalculationSpec2025::tone(&scheme, &definition, &inputs), whole(98));
    assert_eq!(ColorCalculationSpec2021::new().get_tone(&scheme, &definition, &inputs), whole(98));
    let hct = ColorCalculationSpec2021::new().get_hct(&scheme, &definition, whole(98));
    assert_eq!(hct, scheme.neutral_palette().hct(whole(98)));
    let boosted = RoleDefinition { chroma_multiplier: whole(2), ..definition };
    let twice = ColorCalculationSpec2025::new().get_hct(&scheme, &boosted, whole(50));
    let palette = scheme.neutral_palette();
    assert_eq!(twice, Hct::from(palette.hue(), palette.chroma().times_int(2), whole(50)));
}

#[test]
fn dual_backgrounds() {
    let tone = ColorCalculationSpec2021::dual_background_tone;
    assert_eq!(tone(whole(10), whole(90), whole(80), fx(4.5)), whole(10));
    let between = tone(whole(85), whole(90), whole(80), fx(4.5));
    assert!(between.raw < whole(60).raw);
    assert_eq!(tone(whole(50), whole(30), whole(40), whole(21)), whole(100));
    assert_eq!(tone(whole(50), whole(70), whole(80), whole(21)), whole(0));
}

#[test]
fn nominal_tones_of_2021() {
    let light = scheme(Variant::TonalSpot, false, Platform::Phone, SpecVersion::Spec2021);
    let dark = scheme(Variant::TonalSpot, true, Platform::Phone, SpecVersion::Spec2021);
    assert_eq!(nominal_tone(&light, Role::Primary), whole(40));
    assert_eq!(nominal_tone(&dark, Role::Primary), whole(80));
    assert_eq!(nominal_tone(&light, Role::PrimaryContainer), whole(90));
    assert_eq!(nominal_tone(&light, Role::SurfaceDim), whole(87));
    assert_eq!(nominal_tone(&dark, Role::SurfaceBright), whole(24));
    assert_eq!(nominal_tone(&light, Role::Shadow), whole(0));
    let mono = scheme(Variant::Monochrome, false, Platform::Phone, SpecVersion::Spec2021);
    assert_eq!(nominal_tone(&mono, Role::Primary), whole(0));
    assert_eq!(nominal_tone(&mono, Role::OnPrimary), whole(90));
    assert_eq!(nominal_tone(&mono, Role::TertiaryContainer), whole(40));
    let fidelity = scheme(Variant::Fidelity, false, Platform::Phone, SpecVersion::Spec2021);
    assert_eq!(nominal_tone(&fidelity, Role::PrimaryContainer), fidelity.source_color_hct().tone());
}

#[test]
fn resolved_tones_of_2021() {
    let light = scheme(Variant::TonalSpot, false, Platform::Phone, SpecVersion::Spec2021);
    assert_eq!(resolved_tone(&light, Role::Primary), whole(40));
    assert_eq!(resolved_tone(&light, Role::OnPrimary), whole(100));
    assert_eq!(resolved_tone(&light, Role::PrimaryContainer), whole(90));
    assert_eq!(resolved_tone(&light, Role::Surface), whole(98));
    assert_eq!(resolved_tone(&light, Role::OnSurface), whole(10));
    assert_eq!(resolved_tone(&light, Role::PrimaryFixed), whole(90));
    assert_eq!(resolved_tone(&light, Role::PrimaryFixedDim), whole(80));
    let dark = scheme(Variant::TonalSpot, true, Platform::Phone, SpecVersion::Spec2021);
    assert_eq!(resolved_tone(&dark, Role::Primary), whole(80));
    assert_eq!(resolved_tone(&dark, Role::OnPrimary), whole(20));
    assert_eq!(resolved_tone(&dark, Role::Surface), whole(6));
}

#[test]
fn definitions_of_both_versions() {
    let old = scheme(Variant::TonalSpot, false, Platform::Phone, SpecVersion::Spec2021);
    let new = scheme(Variant::TonalSpot, false, Platform::Phone, SpecVersion::Spec2025);
    assert_eq!(MaterialDynamicColors::definition(Role::Primary, &old), ColorSpec2021::primary(&old));
    assert_eq!(MaterialDynamicColors::definition(Role::Primary, &new), ColorSpec2025::primary(&new));
    assert_eq!(ColorSpec2021::definition(Role::PrimaryDim, &old), None);
    assert_eq!(MaterialDynamicColors::definition(Role::PrimaryDim, &old), ColorSpec2025::primary_dim(&old));
    assert_eq!(ColorSpec2025::background(&new).role, Role::Background);
    assert_eq!(ColorSpec2025::background(&new).tone, ColorSpec2025::surface(&new).tone);
    assert_eq!(ColorSpec2025::surface_tint(&new).tone_delta_pair, ColorSpec2025::primary(&new).tone_delta_pair);
    assert_eq!(ColorSpec2025::shadow(&new), ColorSpec2021::shadow(&new));
    assert_eq!(ColorSpec2025::on_primary(&new).tone, ToneRule::FromBackground);
    assert_eq!(ColorSpec2025::primary_fixed(&new).tone, ToneRule::LightStandard(Role::PrimaryContainer));
    assert_eq!(ColorSpec2021::new().definition(Role::Scrim, &old), Some(ColorSpec2021::scrim(&old)));
    assert_eq!(ColorSpec2025::new().definition(Role::Scrim, &old), Some(ColorSpec2021::scrim(&old)));
    assert_eq!(ColorSpec2021::new().highest_surface(&old), Role::SurfaceDim);
    let watch = scheme(Variant::TonalSpot, true, Platform::Watch, SpecVersion::Spec2025);
    assert_eq!(ColorSpec2025::new().highest_surface(&watch), Role::SurfaceContainerHigh);
    assert_eq!(MaterialDynamicColors::new().highest_surface(&new).role, Role::SurfaceDim);
    assert_eq!(ColorSpec2025::on_primary(&watch).background, Some(Role::PrimaryDim));
    assert_eq!(ColorSpec2025::primary_container(&watch).background, None);
}

#[test]
fn definitions_extend_only_their_own_role() {
    let old = scheme(Variant::TonalSpot, false, Platform::Phone, SpecVersion::Spec2021);
    let new = scheme(Variant::TonalSpot, false, Platform::Phone, SpecVersion::Spec2025);
    let base = ColorSpec2021::primary(&old);
    let extended = ColorSpec2025::primary(&new);
    assert_eq!(base.extend_spec_version(SpecVersion::Spec2025, extended, &new), Ok(extended));
    assert_eq!(base.extend_spec_version(SpecVersion::Spec2025, extended, &old), Ok(base));
    assert_eq!(base.extend_spec_version(SpecVersion::Spec2025, ColorSpec2025::secondary(&new), &new), Err(ExtendError::DifferentName));
    let foreground = RoleDefinition { is_background: false, ..extended };
    assert_eq!(base.extend_spec_version(SpecVersion::Spec2025, foreground, &new), Err(ExtendError::DifferentKind));
    let plain = RoleDefinition::plain(Role::Scrim, PaletteKind::Neutral, ToneRule::Value(whole(0)));
    assert_eq!(plain, ColorSpec2021::scrim(&old));
}

#[test]
fn ranks_fall_along_references() {
    for version in [SpecVersion::Spec2021, SpecVersion::Spec2025] {
        for platform in [Platform::Phone, Platform::Watch] {
            for is_dark in [false, true] {
                let scheme = scheme(Variant::Vibrant, is_dark, platform, version);
                for index in 0..67 {
                    let role = Role::from_index(index).unwrap();
                    let rank = MaterialDynamicColors::rank(role, &scheme);
                    let definition = MaterialDynamicColors::definition(role, &scheme);
                    assert_eq!(definition.role, role);
                    if let Some(background) = definition.background {
                        assert!(MaterialDynamicColors::rank(background, &scheme) < rank);
                    }
                    if let Some(background) = definition.second_background {
                        assert!(MaterialDynamicColors::rank(background, &scheme) < rank);
                    }
                    if let Some(pair) = definition.tone_delta_pair {
                        assert!(MaterialDynamicColors::rank(pair.role_a, &scheme) <= rank);
                        assert!(MaterialDynamicColors::rank(pair.role_b, &scheme) <= rank);
                    }
                }
            }
        }
    }
}

#[test]
fn roles_have_names_and_places() {
    assert_eq!(Role::Primary.name(), "primary");
    assert_eq!(Role::TextSecondaryAndTertiaryInverseDisabled.name(), "text_secondary_and_tertiary_inverse_disabled");
    assert_eq!(DynamicColor::new(Role::OnSurfaceVariant).name(), "on_surface_variant");
    assert_eq!(Role::PrimaryPaletteKeyColor.index(), 0);
    assert_eq!(Role::from_index(66), Some(Role::TextHintInverse));
    assert_eq!(Role::from_index(67), None);
    for index in 0..67 {
        assert_eq!(Role::from_index(index).unwrap().index(), index);
    }
    assert!(Role::TertiaryFixedDim.is_fixed_dim());
    assert!(!Role::TertiaryFixed.is_fixed_dim());
    let all = MaterialDynamicColors::new().all_dynamic_colors();
    assert_eq!(all[0], MaterialDynamicColors::new().primary_palette_key_color());
    assert_eq!(all[58], MaterialDynamicColors::new().on_error_container());
}

#[test]
fn opacity_becomes_alpha() {
    assert_eq!(with_opacity(0xff123456, fx(0.2)), 0x33123456);
    assert_eq!(with_opacity(0xff123456, fx(0.12)), 0x1f123456);
    assert_eq!(with_opacity(0xff123456, whole(2)), 0xff123456);
    assert_eq!(with_opacity(0xff123456, whole(-1)), 0x00123456);
}

#[test]
fn kept_colours_are_the_resolved_ones() {
    let scheme = scheme(Variant::TonalSpot, false, Platform::Phone, SpecVersion::Spec2025);
    let mut colors = SchemeColors::new(scheme);
    let first = colors.get_hct(Role::OnPrimary);
    let again = colors.get_hct(Role::OnPrimary);
    assert_eq!(first, again);
    assert_eq!(first, DynamicColor::new(Role::OnPrimary).get_hct(&scheme));
    assert_eq!(colors.get_argb(Role::Primary), scheme.primary());
    assert_eq!(colors.get_argb(Role::ControlHighlight), scheme.control_highlight());
    assert_eq!(scheme.get_hct(&DynamicColor::new(Role::Primary)).to_int(), colors.get_argb(Role::Primary));
    assert_eq!(scheme.get_argb(&DynamicColor::new(Role::Primary)), scheme.primary());
}

#[test]
fn all_colours_of_a_scheme() {
    let scheme = scheme(Variant::TonalSpot, false, Platform::Phone, SpecVersion::Spec2021);
    let colors = DynamicColors::from_scheme(&scheme);
    assert_eq!(colors.primary, 0xff65558f);
    assert_eq!(colors.error, 0xffba1a1a);
    assert_eq!(colors.on_primary, scheme.on_primary());
    assert_eq!(colors.text_hint_inverse, scheme.text_hint_inverse());
}

#[test]
fn options_and_combinations() {
    let options = DynamicSchemeOptions { is_dark: Some(true), variant: Some(Variant::Vibrant), platform: None, spec_version: Some(SpecVersion::Spec2025) };
    let built = options.scheme();
    assert!(built.is_dark());
    assert_eq!(*built.variant(), Variant::Vibrant);
    assert_eq!(*built.platform(), Platform::Phone);
    assert_eq!(built, options.builder().build());
    assert_eq!(PlatformAndSpecVersion::Watch2025.platform(), Platform::Watch);
    assert_eq!(PlatformAndSpecVersion::Phone2021.spec_version(), SpecVersion::Spec2021);
    assert_eq!(PlatformAndSpecVersion::of(Platform::Watch, SpecVersion::Spec2021), PlatformAndSpecVersion::Watch2025);
    assert_eq!(SpecVersion::Spec2025.year(), 2025);
    assert_eq!(SpecVersion::Spec2021.label(), "2021");
}

#[test]
fn palettes_of_the_rules() {
    let source = Hct::from_int(0xff6750a4);
    let primary = PalettesSpec2021::primary(Variant::TonalSpot, source);
    assert_eq!(primary, PaletteKey::from_hue_and_chroma(source.hue(), whole(36)));
    let vibrant = PalettesSpec2021::new().primary_palette(&Variant::Vibrant, &source, false, &Platform::Phone, whole(0));
    assert_eq!(vibrant.chroma, whole(200));
    assert_eq!(PalettesSpec2021::new().error_palette(&Variant::Vibrant, &source, false, &Platform::Phone, whole(0)), None);
    let phone = PalettesSpec2025::primary(Variant::TonalSpot, source, true, Platform::Phone);
    assert_eq!(phone.chroma, whole(26));
    let watch = PalettesSpec2025::primary(Variant::TonalSpot, source, true, Platform::Watch);
    assert_eq!(watch.chroma, whole(32));
    assert_eq!(PalettesSpec2025::neutral(Variant::Neutral, source, false, Platform::Phone).chroma, fx(1.4));
    assert_eq!(PalettesSpec2025::neutral_variant(Variant::Neutral, source, false, Platform::Phone).chroma, fx(3.08));
    assert_eq!(PalettesSpec2025::primary(Variant::Rainbow, source, false, Platform::Phone), PalettesSpec2021::primary(Variant::Rainbow, source));
    let error = PalettesSpec2025::new().error_palette(&Variant::TonalSpot, &source, false, &Platform::Phone, whole(0)).unwrap();
    assert_eq!(error.hue, whole(12));
    assert_eq!(error.chroma, whole(60));
    assert_eq!(PalettesSpec2025::error(Variant::Fidelity, source, Platform::Phone), None);
    let fidelity = PalettesSpec2021::tertiary(Variant::Fidelity, source);
    assert_eq!(fidelity.key_color.hue(), fidelity.hue);
    let content = PalettesSpec2021::tertiary(Variant::Content, source);
    assert_ne!(content.hue, source.hue());
}

#[test]
fn tone_tables_of_a_scheme() {
    let scheme = scheme(Variant::TonalSpot, false, Platform::Phone, SpecVersion::Spec2021);
    let tables = Palettes::from_scheme(&scheme);
    assert_eq!(tables.primary.unwrap().get(40), Some(0xff65558f));
    assert_eq!(tables.error.unwrap().get(40), Some(0xffba1a1a));
    assert_eq!(tables.neutral.unwrap().inner().len(), 18);
}

#[test]
fn searches_for_chroma() {
    let tone = ColorSpec2021::find_desired_chroma_by_tone(whole(50), whole(60), 90, true);
    assert!(tone.raw < whole(90).raw);
    let reached = Hct::from(whole(50), whole(60), tone);
    assert!((reached.chroma().raw - whole(60).raw).abs() < whole(2).raw);
    assert_eq!(ColorSpec2021::find_desired_chroma_by_tone(whole(50), whole(3), 90, true), whole(89));
    assert_eq!(ColorSpec2021::find_desired_chroma_by_tone(whole(50), whole(0), 90, true), whole(90));
    let best = ColorSpec2025::find_best_tone_for_chroma(whole(50), whole(60), 100, true);
    assert!(best.raw < whole(100).raw && best.raw > whole(40).raw);
    assert_eq!(ColorSpec2025::find_best_tone_for_chroma(whole(50), whole(0), 100, true), whole(100));
    let palette = PaletteKey::from_hue_and_chroma(whole(50), whole(60));
    assert_eq!(ColorSpec2025::t_max_c(&palette), best);
    assert_eq!(ColorSpec2025::t_max_c_clamped(&palette, whole(0), whole(30)), whole(30));
    assert_eq!(ColorSpec2025::t_min_c_clamped(&palette, whole(90), whole(95)), whole(90));
    assert!(ColorSpec2025::t_min_c(&palette).raw < best.raw);
    assert!(ColorSpec2021::is_fidelity(&scheme(Variant::Content, false, Platform::Phone, SpecVersion::Spec2021)));
    assert!(ColorSpec2021::is_monochrome(&scheme(Variant::Monochrome, false, Platform::Phone, SpecVersion::Spec2021)));
}
