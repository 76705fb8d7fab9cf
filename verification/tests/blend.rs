use material_color_utilities::blend::{cam16_ucs, harmonize, harmonized_hue, hct_hue};
use material_color_utilities::fixed::Fixed;
use material_color_utilities::hct::Hct;

const RED: u32 = 0xffff0000;
const BLUE: u32 = 0xff0000ff;
const GREEN: u32 = 0xff00ff00;
const YELLOW: u32 = 0xffffff00;

#[test]
fn harmonize_red_to_blue() {
    let answer = harmonize(RED, BLUE);
    assert_eq!(answer, 0xfffb0057);
}

#[test]
fn harmonize_red_to_green() {
    let answer = harmonize(RED, GREEN);
    assert_eq!(answer, 0xffd85600);
}

#[test]
fn harmonize_red_to_yellow() {
    let answer = harmonize(RED, YELLOW);
    assert_eq!(answer, 0xffd85600);
}

#[test]
fn harmonize_blue_to_green() {
    let answer = harmonize(BLUE, GREEN);
    assert_eq!(answer, 0xff0047a3);
}

#[test]
fn harmonize_blue_to_red() {
    let answer = harmonize(BLUE, RED);
    assert_eq!(answer, 0xff5700dc);
}

#[test]
fn harmonize_blue_to_yellow() {
    let answer = harmonize(BLUE, YELLOW);
    assert_eq!(answer, 0xff0047a3);
}

#[test]
fn harmonize_green_to_blue() {
    let answer = harmonize(GREEN, BLUE);
    assert_eq!(answer, 0xff00fc94);
}

#[test]
fn harmonize_green_to_red() {
    let answer = harmonize(GREEN, RED);
    assert_eq!(answer, 0xffb1f000);
}

#[test]
fn harmonize_green_to_yellow() {
    let answer = harmonize(GREEN, YELLOW);
    assert_eq!(answer, 0xffb1f000);
}

#[test]
fn harmonize_yellow_to_blue() {
    let answer = harmonize(YELLOW, BLUE);
    assert_eq!(answer, 0xffebffba);
}

#[test]
fn harmonize_yellow_to_green() {
    let answer = harmonize(YELLOW, GREEN);
    assert_eq!(answer, 0xffebffba);
}

#[test]
fn harmonize_yellow_to_red() {
    let answer = harmonize(YELLOW, RED);
    assert_eq!(answer, 0xfffff6e3);
}

#[test]
fn harmonized_hue_turns_by_half_the_distance_up_to_fifteen_degrees() {
    assert_eq!(harmonized_hue(Fixed::from_int(10), Fixed::from_int(30)), Fixed::from_int(20));
    assert_eq!(harmonized_hue(Fixed::from_int(10), Fixed::from_int(100)), Fixed::from_int(25));
    assert_eq!(harmonized_hue(Fixed::from_int(10), Fixed::from_int(350)), Fixed::from_int(0));
    assert_eq!(harmonized_hue(Fixed::from_int(5), Fixed::from_int(300)), Fixed::from_int(350));
}

#[test]
fn harmonize_keeps_a_colour_that_is_its_own_source() {
    assert_eq!(harmonize(0xff6750a4, 0xff6750a4), 0xff6750a4);
}

#[test]
fn blend_in_ucs_ends_at_its_ends() {
    assert_eq!(cam16_ucs(RED, BLUE, Fixed::from_int(0)), RED);
    assert_eq!(cam16_ucs(RED, BLUE, Fixed::from_int(1)), BLUE);
}

#[test]
fn hue_blend_keeps_tone() {
    let blended = Hct::from_int(hct_hue(RED, BLUE, Fixed::from_ratio(1, 2)));
    let start = Hct::from_int(RED);
    assert!((blended.tone.raw - start.tone.raw).abs() < 1_000_000_000_000);
    assert!(blended.hue != start.hue);
}
