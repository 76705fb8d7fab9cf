use material_color_utilities::contrast::{darker, lighter, ratio_of_tones};
use material_color_utilities::dynamiccolor::{
    DynamicColor, DynamicColors, DynamicSchemeBuilder, Platform, SpecVersion, Variant,
};
use material_color_utilities::fixed::Fixed;
use material_color_utilities::hct::Hct;
use material_color_utilities::palettes::{Palette, Palettes};
use material_color_utilities::utils::string::css_hex_from_argb;

#[test]
fn figma_legacy_test() {
    let scheme = DynamicSchemeBuilder::new().is_dark(false).build();
    let palette: Palette = Palette::from_tonal_palette(&mut scheme.primary_palette());
    let mut tones: Vec<(&u8, &u32)> = palette.inner().iter().collect();
    tones.sort();
    for (tone, argb) in &tones {
        println!("{}: {}", tone, css_hex_from_argb(**argb));
    }
    assert_eq!(tones.len(), 18);
    assert_eq!(palette.get(40), Some(0xff65558f));
    assert_eq!(palette.get(100), Some(0xffffffff));
}

#[test]
fn figma_material_theme_builder_test() {
    let argb = 0xFFFF0000;
    let scheme = DynamicSchemeBuilder::default()
        .is_dark(false)
        .source_color_hct(Hct::from_int(argb))
        .variant(Variant::Vibrant)
        .platform(Platform::Watch)
        .spec_version(SpecVersion::Spec2025)
        .build();
    let palettes = Palettes::from_scheme(&scheme);
    let colors = DynamicColors::from_scheme(&scheme);
    println!("primary: {}", css_hex_from_argb(colors.primary));
    println!("surface: {}", css_hex_from_argb(colors.surface));
    assert_eq!(scheme.source_color_argb(), argb);
    assert_eq!(palettes.primary.unwrap().get(0), Some(0xff000000));
    assert_eq!(palettes.error.unwrap().inner().len(), 18);
    assert_eq!(colors.surface, 0xff000000);
    assert_eq!(colors.primary, scheme.primary());
}

#[test]
fn foregrounds_reach_their_contrast_wherever_a_tone_does() {
    for bg in [0, 10, 25, 40, 49, 50, 59, 60, 75, 90, 100] {
        for tenths in [10, 15, 30, 45, 70, 110, 210] {
            let background = Fixed::from_int(bg);
            let ratio = Fixed::from_tenths(tenths);
            let reachable = lighter(background, ratio) != Fixed::from_int(-1)
                || darker(background, ratio) != Fixed::from_int(-1);
            let foreground = DynamicColor::foreground_tone(background, ratio);
            if reachable {
                assert!(ratio_of_tones(background, foreground).raw >= ratio.raw);
            }
        }
    }
}

#[test]
fn every_tone_moved_by_the_tolerance_moves_its_luminance() {
    let mut y: i128 = 0;
    while y <= 100_000_000_000_000 {
        let lightness = Fixed { raw: y }.raw;
        let l = material_color_utilities::utils::color::lstar_from_y(Fixed { raw: lightness });
        let up = l.plus(Fixed::from_tenths(4));
        if up.raw <= Fixed::from_int(100).raw {
            let reached = material_color_utilities::utils::color::y_from_lstar(up);
            assert!(reached.raw >= y + 1);
        }
        let down = l.minus(Fixed::from_tenths(4));
        if down.raw >= 0 {
            let reached = material_color_utilities::utils::color::y_from_lstar(down);
            assert!(reached.raw >= 0 && reached.raw <= y - 1);
        }
        y += 777_777_777_777;
    }
}
