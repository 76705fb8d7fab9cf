use material_color_utilities::fixed::Fixed;
use material_color_utilities::hct::Hct;
use material_color_utilities::palettes::tonal_palette::{average_argb, KeyColor};
use material_color_utilities::palettes::{Palette, TonalPalette};

fn as_float(value: Fixed) -> f64 {
    value.raw as f64 / 1e12
}

#[test]
fn tonal_palette_of_blue() {
    let mut blue = TonalPalette::from_int(0xff0000ff);

    assert_eq!(blue.tone(100), 0xffffffff);
    assert_eq!(blue.tone(95), 0xfff1efff);
    assert_eq!(blue.tone(90), 0xffe0e0ff);
    assert_eq!(blue.tone(80), 0xffbec2ff);
    assert_eq!(blue.tone(70), 0xff9da3ff);
    assert_eq!(blue.tone(60), 0xff7c84ff);
    assert_eq!(blue.tone(50), 0xff5a64ff);
    assert_eq!(blue.tone(40), 0xff343dff);
    assert_eq!(blue.tone(30), 0xff0000ef);
    assert_eq!(blue.tone(20), 0xff0001ac);
    assert_eq!(blue.tone(10), 0xff00006e);
    assert_eq!(blue.tone(0), 0xff000000);
}

#[test]
fn key_color_with_exact_chroma() {
    let palette = TonalPalette::from_hue_and_chroma(Fixed::from_int(50), Fixed::from_int(60));
    let result = palette.key_color();

    let hue_difference = (as_float(result.hue()) - 50.0).abs();
    assert!(hue_difference < 10.0);
    let chroma_difference = (as_float(result.chroma()) - 60.0).abs();
    assert!(chroma_difference < 0.5);
    assert!(as_float(result.tone()) > 0.0);
    assert!(as_float(result.tone()) < 100.0);
}

#[test]
fn key_color_with_unusually_high_chroma() {
    let palette = TonalPalette::from_hue_and_chroma(Fixed::from_int(149), Fixed::from_int(200));
    let result = palette.key_color();

    let hue_difference = (as_float(result.hue()) - 149.0).abs();
    assert!(hue_difference < 10.0);
    assert!(as_float(result.chroma()) > 89.0);
    assert!(as_float(result.tone()) > 0.0);
    assert!(as_float(result.tone()) < 100.0);
}

#[test]
fn key_color_with_unusually_low_chroma() {
    let palette = TonalPalette::from_hue_and_chroma(Fixed::from_int(50), Fixed::from_int(3));
    let result = palette.key_color();

    let hue_difference = (as_float(result.hue()) - 50.0).abs();
    assert!(hue_difference < 10.0);
    let chroma_difference = (as_float(result.chroma()) - 3.0).abs();
    assert!(chroma_difference < 0.5);
    let tone_difference = (as_float(result.tone()) - 50.0).abs();
    assert!(tone_difference < 0.5);
}

#[test]
fn a_tone_asked_twice_is_the_same() {
    let mut palette = TonalPalette::from_hue_and_chroma(Fixed::from_int(270), Fixed::from_int(36));
    let first = palette.tone(40);
    let second = palette.tone(40);
    assert_eq!(first, second);
    assert_eq!(first, palette.hct(Fixed::from_int(40)).to_int());
}

#[test]
fn yellow_tone_99_is_a_mean() {
    let mut yellow = TonalPalette::from_hue_and_chroma(Fixed::from_int(110), Fixed::from_int(40));
    let mean = average_argb(yellow.tone(98), yellow.tone(100));
    assert_eq!(yellow.tone(99), mean);
    assert_eq!(average_argb(0xff000000, 0xff010203), 0xff010102);
}

#[test]
fn key_color_search_remembers_chroma() {
    let mut search = KeyColor::new(Fixed::from_int(50), Fixed::from_int(60));
    let first = search.max_chroma(50);
    assert_eq!(search.max_chroma(50), first);
    assert_eq!(first, Hct::from(Fixed::from_int(50), Fixed::from_int(200), Fixed::from_int(50)).chroma());
    let key = search.create();
    assert_eq!(key, *TonalPalette::from_hue_and_chroma(Fixed::from_int(50), Fixed::from_int(60)).key_color());
}

#[test]
fn tone_table_has_the_standard_tones() {
    let mut palette = TonalPalette::from_int(0xff0000ff);
    let table = Palette::from_tonal_palette(&mut palette);
    assert_eq!(table.inner().len(), 18);
    assert_eq!(table.get(30), Some(0xff0000ef));
    assert_eq!(table.get(45), None);
    assert_eq!(table.into_inner().get(&100), Some(&0xffffffff));
}
