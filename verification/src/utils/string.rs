//! Colours as text: hexadecimal notation and CSS colour syntax.
use vstd::prelude::*;
use vstd::string::*;
use crate::hct::hct::Hct;
use crate::utils::color::{blue_from_argb, green_from_argb, red_from_argb};

verus! {

/// Why a text is not a colour.
#[derive(Clone, Copy, Debug, PartialEq, Eq, Structural)]
pub enum ParseColorError {
    /// The text does not begin with `#`, or what follows is not a
    /// hexadecimal colour.
    InvalidHex,
    /// The text is not a colour in any CSS syntax.
    InvalidSyntax,
}

/// What the CSS colour parser makes of a text: the red, green, blue and
/// alpha channels of the colour it denotes, or the reason why it denotes
/// none.
pub uninterp spec fn css_color(text: Seq<char>) -> Result<(u8, u8, u8, u8), ParseColorError>;

/// A text without the white space at its ends.
pub uninterp spec fn trimmed(text: Seq<char>) -> Seq<char>;

/// Calls `csscolorparser::parse` and `Color::to_rgba8` on its result.
/// The parser is a function of the text alone; the contract gives its
/// result a name and claims no more. Its error `InvalidHex` is kept, its
/// other errors become `InvalidSyntax`.
#[verifier::external_body]
fn parse_css(text: &str) -> (out: Result<(u8, u8, u8, u8), ParseColorError>)
    ensures
        out == css_color(text@),
{
    match csscolorparser::parse(text) {
        Ok(color) => {
            let channels = color.to_rgba8();
            Ok((channels[0], channels[1], channels[2], channels[3]))
        },
        Err(csscolorparser::ParseColorError::InvalidHex) => Err(ParseColorError::InvalidHex),
        Err(_) => Err(ParseColorError::InvalidSyntax),
    }
}

/// Calls `str::trim`, which removes leading and trailing white space. The
/// contract gives the result a name and claims no more.
#[verifier::external_body]
fn trim(text: &str) -> (out: &str)
    ensures
        out@ == trimmed(text@),
{
    text.trim()
}

/// Calls `String::from_utf8` on bytes that are all ASCII, for which it
/// succeeds and gives the text with one character for each byte.
#[verifier::external_body]
fn string_from_ascii(bytes: Vec<u8>) -> (out: String)
    requires
        forall|i: int| 0 <= i < bytes@.len() ==> bytes@[i] < 128,
    ensures
        out@ == bytes@.map_values(|b: u8| b as char),
{
    match String::from_utf8(bytes) {
        Ok(text) => text,
        Err(_) => String::new(),
    }
}

/// The ASCII code of the hexadecimal digit, in lower case, for a value
/// below sixteen.
pub open spec fn hex_digit_spec(value: u8) -> u8 {
    if value < 10 {
        (48 + value) as u8
    } else {
        (87 + value) as u8
    }
}

#[verifier::when_used_as_spec(hex_digit_spec)]
pub fn hex_digit(value: u8) -> (out: u8)
    requires
        value < 16,
    ensures
        out == hex_digit_spec(value),
        out < 128,
{
    if value < 10 {
        (48 + value) as u8
    } else {
        (87 + value) as u8
    }
}

/// The text `#rrggbb` of a colour, as ASCII codes: a number sign and two
/// hexadecimal digits, in lower case, for each of red, green and blue.
pub open spec fn hex_codes(argb: u32) -> Seq<u8> {
    seq![
        35u8,
        hex_digit(red_from_argb(argb) / 16),
        hex_digit(red_from_argb(argb) % 16),
        hex_digit(green_from_argb(argb) / 16),
        hex_digit(green_from_argb(argb) % 16),
        hex_digit(blue_from_argb(argb) / 16),
        hex_digit(blue_from_argb(argb) % 16),
    ]
}

/// The text `#rrggbb` of a colour; its alpha is left out.
pub open spec fn hex_text(argb: u32) -> Seq<char> {
    hex_codes(argb).map_values(|b: u8| b as char)
}

/// The text `#rrggbb` of a colour; its alpha is left out.
pub fn hex_from_argb(argb: u32) -> (out: String)
    ensures
        out@ == hex_text(argb),
        out@.len() == 7,
{
    let r = red_from_argb(argb);
    let g = green_from_argb(argb);
    let b = blue_from_argb(argb);
    let mut codes: Vec<u8> = Vec::new();
    codes.push(35u8);
    codes.push(hex_digit(r / 16));
    codes.push(hex_digit(r % 16));
    codes.push(hex_digit(g / 16));
    codes.push(hex_digit(g % 16));
    codes.push(hex_digit(b / 16));
    codes.push(hex_digit(b % 16));
    assert(codes@ =~= hex_codes(argb));
    string_from_ascii(codes)
}

/// The text `#rrggbb` of a colour, as CSS writes it.
pub fn css_hex_from_argb(argb: u32) -> (out: String)
    ensures
        out@ == hex_text(argb),
{
    hex_from_argb(argb)
}

/// The colour with the given channels: alpha in bits 24 to 31, then red,
/// green and blue.
pub open spec fn argb_from_rgba_spec(red: u8, green: u8, blue: u8, alpha: u8) -> u32 {
    (alpha * 0x100_0000 + red * 0x1_0000 + green * 0x100 + blue) as u32
}

#[verifier::when_used_as_spec(argb_from_rgba_spec)]
pub fn argb_from_rgba(red: u8, green: u8, blue: u8, alpha: u8) -> (argb: u32)
    ensures
        argb == argb_from_rgba_spec(red, green, blue, alpha),
{
    let r: u32 = red as u32;
    let g: u32 = green as u32;
    let b: u32 = blue as u32;
    let a: u32 = alpha as u32;
    let argb: u32 = (a << 24) | (r << 16) | (g << 8) | b;
    assert(argb == a * 0x100_0000 + r * 0x1_0000 + g * 0x100 + b) by (bit_vector)
        requires
            a < 256,
            r < 256,
            g < 256,
            b < 256,
            argb == (a << 24) | (r << 16) | (g << 8) | b,
    ;
    argb
}

/// The colour that a parsed text denotes, with its alpha.
pub open spec fn argb_of_parsed_spec(parsed: Result<(u8, u8, u8, u8), ParseColorError>) -> Result<u32, ParseColorError> {
    match parsed {
        Ok(channels) => Ok(argb_from_rgba(channels.0, channels.1, channels.2, channels.3)),
        Err(error) => Err(error),
    }
}

#[verifier::when_used_as_spec(argb_of_parsed_spec)]
pub fn argb_of_parsed(parsed: Result<(u8, u8, u8, u8), ParseColorError>) -> (out: Result<u32, ParseColorError>)
    ensures
        out == argb_of_parsed_spec(parsed),
{
    match parsed {
        Ok(channels) => Ok(argb_from_rgba(channels.0, channels.1, channels.2, channels.3)),
        Err(error) => Err(error),
    }
}

/// The opaque colour that a parsed text denotes: its alpha is dropped.
pub open spec fn opaque_of_parsed_spec(parsed: Result<(u8, u8, u8, u8), ParseColorError>) -> Result<u32, ParseColorError> {
    match parsed {
        Ok(channels) => Ok(argb_from_rgba(channels.0, channels.1, channels.2, 255)),
        Err(error) => Err(error),
    }
}

#[verifier::when_used_as_spec(opaque_of_parsed_spec)]
pub fn opaque_of_parsed(parsed: Result<(u8, u8, u8, u8), ParseColorError>) -> (out: Result<u32, ParseColorError>)
    ensures
        out == opaque_of_parsed_spec(parsed),
{
    match parsed {
        Ok(channels) => Ok(argb_from_rgba(channels.0, channels.1, channels.2, 255)),
        Err(error) => Err(error),
    }
}

/// Whether a text begins with a number sign.
pub open spec fn begins_with_number_sign(text: Seq<char>) -> bool {
    text.len() > 0 && text[0] == '#'
}

/// The colour of a text in any CSS colour syntax, with its alpha; the
/// parser's error where the text is no colour.
pub fn argb_from_css_color(css_color_text: &str) -> (out: Result<u32, ParseColorError>)
    ensures
        out == argb_of_parsed(css_color(css_color_text@)),
{
    argb_of_parsed(parse_css(css_color_text))
}

/// The opaque colour of a hexadecimal text such as `#6750a4`, white
/// space around it ignored. A text that does not begin with `#` is
/// `InvalidHex`.
pub fn argb_from_hex(hex: &str) -> (out: Result<u32, ParseColorError>)
    ensures
        !begins_with_number_sign(trimmed(hex@)) ==> out == Err::<u32, ParseColorError>(
            ParseColorError::InvalidHex,
        ),
        begins_with_number_sign(trimmed(hex@)) ==> out == opaque_of_parsed(
            css_color(trimmed(hex@)),
        ),
{
    let text = trim(hex);
    if text.unicode_len() > 0 && text.get_char(0) == '#' {
        opaque_of_parsed(parse_css(text))
    } else {
        Err(ParseColorError::InvalidHex)
    }
}

/// The colour of a hexadecimal text as CSS writes it, with its alpha. A
/// text that does not begin with `#` is `InvalidHex`.
pub fn argb_from_css_hex(hex: &str) -> (out: Result<u32, ParseColorError>)
    ensures
        !begins_with_number_sign(trimmed(hex@)) ==> out == Err::<u32, ParseColorError>(
            ParseColorError::InvalidHex,
        ),
        begins_with_number_sign(trimmed(hex@)) ==> out == argb_of_parsed(
            css_color(trimmed(hex@)),
        ),
{
    let text = trim(hex);
    if text.unicode_len() > 0 && text.get_char(0) == '#' {
        argb_of_parsed(parse_css(text))
    } else {
        Err(ParseColorError::InvalidHex)
    }
}

/// The decimal digits of a number, as ASCII codes.
pub open spec fn decimal_codes_spec(n: u64) -> Seq<u8>
    decreases n,
{
    if n < 10 {
        seq![(48 + n) as u8]
    } else {
        decimal_codes_spec(n / 10).push((48 + n % 10) as u8)
    }
}

/// Decimal digits are ASCII.
pub proof fn lemma_decimal_codes_are_ascii(n: u64)
    ensures
        decimal_codes_spec(n).len() >= 1,
        forall|i: int|
            0 <= i < decimal_codes_spec(n).len() ==> 48 <= #[trigger] decimal_codes_spec(n)[i]
                <= 57,
    decreases n,
{
    if n >= 10 {
        lemma_decimal_codes_are_ascii(n / 10);
    }
}

pub fn decimal_codes(n: u64) -> (out: Vec<u8>)
    ensures
        out@ == decimal_codes_spec(n),
    decreases n,
{
    if n < 10 {
        let mut codes: Vec<u8> = Vec::new();
        codes.push((48 + n) as u8);
        assert(codes@ =~= seq![(48 + n) as u8]);
        codes
    } else {
        let mut codes = decimal_codes(n / 10);
        codes.push((48 + n % 10) as u8);
        codes
    }
}

/// A whole number, held within the range of 64 bits, as its magnitude and
/// whether it is negative.
pub open spec fn magnitude_spec(n: i128) -> (bool, u64) {
    if n < 0 {
        (
            true,
            if -n > u64::MAX {
                u64::MAX
            } else {
                (-n) as u64
            },
        )
    } else {
        (
            false,
            if n > u64::MAX {
                u64::MAX
            } else {
                n as u64
            },
        )
    }
}

#[verifier::when_used_as_spec(magnitude_spec)]
pub fn magnitude(n: i128) -> (out: (bool, u64))
    ensures
        out == magnitude_spec(n),
{
    if n < 0 {
        if n < -0xffff_ffff_ffff_ffff {
            (true, u64::MAX)
        } else {
            (true, (-n) as u64)
        }
    } else if n > 0xffff_ffff_ffff_ffff {
        (false, u64::MAX)
    } else {
        (false, n as u64)
    }
}

/// The text of a colour in HCT, as ASCII codes: `HCT(` and hue, chroma
/// and tone, each rounded to a whole number, with `, ` between them, and
/// `)`.
pub open spec fn hct_codes(hct: &Hct) -> Seq<u8> {
    seq![72u8, 67, 84, 40] + signed_codes(hct.hue.round_int()) + seq![44u8, 32] + signed_codes(
        hct.chroma.round_int(),
    ) + seq![44u8, 32] + signed_codes(hct.tone.round_int()) + seq![41u8]
}

/// The decimal text of a whole number, as ASCII codes, with a minus sign
/// before a negative one.
pub open spec fn signed_codes(n: i128) -> Seq<u8> {
    if magnitude(n).0 {
        seq![45u8] + decimal_codes_spec(magnitude(n).1)
    } else {
        decimal_codes_spec(magnitude(n).1)
    }
}

/// Appends the decimal text of a whole number to ASCII codes.
pub fn push_signed(codes: &mut Vec<u8>, n: i128)
    requires
        forall|i: int| 0 <= i < old(codes)@.len() ==> old(codes)@[i] < 128,
    ensures
        final(codes)@ == old(codes)@ + signed_codes(n),
        forall|i: int| 0 <= i < final(codes)@.len() ==> final(codes)@[i] < 128,
{
    let parts = magnitude(n);
    if parts.0 {
        codes.push(45u8);
    }
    let digits = decimal_codes(parts.1);
    proof {
        lemma_decimal_codes_are_ascii(parts.1);
    }
    let ghost start = codes@;
    let mut k: usize = 0;
    while k < digits.len()
        invariant
            k <= digits@.len(),
            digits@ == decimal_codes_spec(parts.1),
            codes@ == start + digits@.take(k as int),
            forall|i: int| 0 <= i < start.len() ==> start[i] < 128,
            forall|i: int| 0 <= i < digits@.len() ==> 48 <= #[trigger] digits@[i] <= 57,
        decreases digits@.len() - k,
    {
        codes.push(digits[k]);
        assert(codes@ =~= start + digits@.take(k + 1));
        k = k + 1;
    }
    assert(digits@.take(digits@.len() as int) =~= digits@);
    assert(codes@ =~= old(codes)@ + signed_codes(n));
}

impl Hct {
    /// The colour as text: `HCT(hue, chroma, tone)`, each rounded to a
    /// whole number.
    pub fn to_string(&self) -> (out: String)
        ensures
            out@ == hct_codes(self).map_values(|b: u8| b as char),
    {
        let mut codes: Vec<u8> = Vec::new();
        codes.push(72u8);
        codes.push(67u8);
        codes.push(84u8);
        codes.push(40u8);
        assert(codes@ =~= seq![72u8, 67, 84, 40]);
        push_signed(&mut codes, self.hue.round_int());
        let ghost after_hue = codes@;
        codes.push(44u8);
        codes.push(32u8);
        assert(codes@ =~= after_hue + seq![44u8, 32]);
        push_signed(&mut codes, self.chroma.round_int());
        let ghost after_chroma = codes@;
        codes.push(44u8);
        codes.push(32u8);
        assert(codes@ =~= after_chroma + seq![44u8, 32]);
        push_signed(&mut codes, self.tone.round_int());
        let ghost after_tone = codes@;
        codes.push(41u8);
        assert(codes@ =~= after_tone + seq![41u8]);
        assert(codes@ =~= hct_codes(self));
        string_from_ascii(codes)
    }
}

/// A value that can be read as a colour.
pub trait ParseArgb: Sized {
    fn parse_argb(self) -> u32;
}

/// A value that can be made from a colour.
pub trait FromArgb: Sized {
    fn from_argb(argb: u32) -> Self;
}

/// A value that may be readable as a colour.
pub trait TryParseArgb: Sized {
    /// Why a value is no colour.
    type Error;

    fn try_parse_argb(self) -> Result<u32, Self::Error>;
}

/// A value that may be makeable from a colour.
pub trait TryFromArgb: Sized {
    /// Why a colour makes no value.
    type Error;

    fn try_from_argb(argb: u32) -> Result<Self, Self::Error>;
}

impl TryParseArgb for &str {
    type Error = ParseColorError;

    /// The colour of a text in any CSS colour syntax.
    fn try_parse_argb(self) -> (out: Result<u32, ParseColorError>)
        ensures
            out == argb_of_parsed(css_color(self@)),
    {
        argb_from_css_color(self)
    }
}

impl TryParseArgb for Hct {
    type Error = ParseColorError;

    /// The sRGB colour of a colour in HCT; there is always one.
    fn try_parse_argb(self) -> (out: Result<u32, ParseColorError>)
        ensures
            out == Ok::<u32, ParseColorError>(self.argb),
    {
        Ok(self.argb)
    }
}

impl TryFromArgb for Hct {
    type Error = ParseColorError;

    /// The measure of a colour in HCT; there is always one.
    fn try_from_argb(argb: u32) -> (out: Result<Hct, ParseColorError>)
        ensures
            out == Ok::<Hct, ParseColorError>(Hct::from_int(argb)),
    {
        Ok(Hct::from_int(argb))
    }
}

impl ParseArgb for Hct {
    /// The sRGB colour of a colour in HCT.
    fn parse_argb(self) -> (argb: u32)
        ensures
            argb == self.argb,
    {
        self.argb
    }
}

impl FromArgb for Hct {
    /// The measure of a colour in HCT.
    fn from_argb(argb: u32) -> (out: Hct)
        ensures
            out == Hct::from_int(argb),
    {
        Hct::from_int(argb)
    }
}

} // verus!
