use material_color_utilities::hct::Hct;
use material_color_utilities::utils::string::{
    argb_from_css_color, argb_from_css_hex, argb_from_hex, argb_from_rgba, css_hex_from_argb,
    hex_digit, hex_from_argb, FromArgb, ParseArgb, ParseColorError,
};

#[test]
fn hex_of_a_colour() {
    assert_eq!(hex_from_argb(0xff6750a4), "#6750a4");
    assert_eq!(hex_from_argb(0x00000000), "#000000");
    assert_eq!(hex_from_argb(0x12abcdef), "#abcdef");
    assert_eq!(css_hex_from_argb(0xffff0f00), "#ff0f00");
    assert_eq!(hex_digit(9), b'9');
    assert_eq!(hex_digit(10), b'a');
    assert_eq!(hex_digit(15), b'f');
}

#[test]
fn colour_of_a_hex() {
    assert_eq!(argb_from_hex("#6750a4"), Ok(0xff6750a4));
    assert_eq!(argb_from_hex("  #6750A4\n"), Ok(0xff6750a4));
    assert_eq!(argb_from_hex("#fff"), Ok(0xffffffff));
    assert_eq!(argb_from_hex("#11223344"), Ok(0xff112233));
    assert_eq!(argb_from_css_hex(" #11223344"), Ok(0x44112233));
}

#[test]
fn hex_without_a_number_sign_is_invalid() {
    assert_eq!(argb_from_hex("6750a4"), Err(ParseColorError::InvalidHex));
    assert_eq!(argb_from_hex("red"), Err(ParseColorError::InvalidHex));
    assert_eq!(argb_from_hex(""), Err(ParseColorError::InvalidHex));
    assert_eq!(argb_from_css_hex("rgb(1 2 3)"), Err(ParseColorError::InvalidHex));
    assert_eq!(argb_from_hex("#12"), Err(ParseColorError::InvalidHex));
    assert_eq!(argb_from_hex("#zzzzzz"), Err(ParseColorError::InvalidHex));
}

#[test]
fn colour_of_css_syntax() {
    assert_eq!(argb_from_css_color("red"), Ok(0xffff0000));
    assert_eq!(argb_from_css_color("rgb(103 80 164)"), Ok(0xff6750a4));
    assert_eq!(argb_from_css_color("rgba(0, 0, 255, 0.5)"), Ok(0x800000ff));
    assert_eq!(argb_from_css_color("#6750a4"), Ok(0xff6750a4));
    assert_eq!(argb_from_css_color("transparent"), Ok(0x00000000));
}

#[test]
fn what_is_no_colour_is_an_error() {
    assert_eq!(argb_from_css_color("no colour"), Err(ParseColorError::InvalidSyntax));
    assert_eq!(argb_from_css_color("rgb(1,2)"), Err(ParseColorError::InvalidSyntax));
    assert_eq!(argb_from_css_color("#12345"), Err(ParseColorError::InvalidHex));
}

#[test]
fn channels_pack_with_alpha_first() {
    assert_eq!(argb_from_rgba(0x11, 0x22, 0x33, 0x44), 0x44112233);
    assert_eq!(argb_from_rgba(255, 255, 255, 0), 0x00ffffff);
}

#[test]
fn hct_reads_and_makes_colours() {
    let hct = Hct::from_argb(0xff6750a4);
    assert_eq!(hct, Hct::from_int(0xff6750a4));
    assert_eq!(hct.parse_argb(), 0xff6750a4);
}
