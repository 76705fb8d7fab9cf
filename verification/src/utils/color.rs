//! Conversions between ARGB, linear RGB, XYZ, L*a*b* and L*.
//!
//! Linear RGB components and XYZ coordinates run from 0 to 100; L* is the
//! CIE lightness, from 0 to 100.
use vstd::prelude::*;
use crate::fixed::{fx, Fixed};
use crate::utils::math::{matrix_multiply, Matrix};

verus! {

/// Linear RGB to XYZ, for the D65 white point.
pub const SRGB_TO_XYZ: Matrix = (
    (412_338_950_000, 357_620_640_000, 180_510_420_000),
    (212_600_000_000, 715_200_000_000, 72_200_000_000),
    (19_321_410_000, 119_163_820_000, 950_344_780_000),
);

/// XYZ to linear RGB.
pub const XYZ_TO_SRGB: Matrix = (
    (3_241_377_479_238, -1_537_665_240_285, -498_853_668_462),
    (-969_145_251_300, 1_875_885_345_106, 41_565_856_169),
    (55_620_936_896, -203_955_245_647, 1_057_179_911_122),
);

/// The D65 white point: X = 95.047.
pub const WHITE_X: i128 = 95_047_000_000_000;

/// The D65 white point: Y = 100.
pub const WHITE_Y: i128 = 100_000_000_000_000;

/// The D65 white point: Z = 108.883.
pub const WHITE_Z: i128 = 108_883_000_000_000;

/// 0.040449936: below it the sRGB transfer function is linear.
pub const GAMMA_KNEE: i128 = 40_449_936_000;

/// 0.0031308: the same knee on the linear side.
pub const LINEAR_KNEE: i128 = 3_130_800_000;

/// 12.92, the slope of the linear segment.
pub const LINEAR_SLOPE: i128 = 12_920_000_000_000;

/// 0.055, the offset of the power segment.
pub const GAMMA_OFFSET: i128 = 55_000_000_000;

/// 1.055, the gain of the power segment.
pub const GAMMA_GAIN: i128 = 1_055_000_000_000;

/// 2.4, the exponent of the power segment.
pub const GAMMA: i128 = 2_400_000_000_000;

/// 1 / 2.4.
pub const INVERSE_GAMMA: i128 = 416_666_666_666;

/// 216 / 24389, the knee of the L*a*b* function.
pub const LAB_EPSILON: i128 = 8_856_451_679;

/// 24389 / 27, the slope of the L*a*b* function below its knee.
pub const LAB_KAPPA: i128 = 903_296_296_296_296;

/// The opaque colour with the given channels:
/// `0xff000000 + red * 0x10000 + green * 0x100 + blue`.
pub open spec fn argb_from_rgb_spec(red: u8, green: u8, blue: u8) -> u32 {
    (0xff00_0000 + red * 0x1_0000 + green * 0x100 + blue) as u32
}

#[verifier::when_used_as_spec(argb_from_rgb_spec)]
pub fn argb_from_rgb(red: u8, green: u8, blue: u8) -> (argb: u32)
    ensures
        argb == argb_from_rgb_spec(red, green, blue),
        alpha_from_argb(argb) == 255,
        red_from_argb(argb) == red,
        green_from_argb(argb) == green,
        blue_from_argb(argb) == blue,
{
    let r: u32 = red as u32;
    let g: u32 = green as u32;
    let b: u32 = blue as u32;
    let argb: u32 = (255u32 << 24) | (r << 16) | (g << 8) | b;
    assert(argb == 0xff00_0000 + r * 0x1_0000 + g * 0x100 + b) by (bit_vector)
        requires
            r < 256,
            g < 256,
            b < 256,
            argb == (255u32 << 24) | (r << 16) | (g << 8) | b,
    ;
    assert(argb / 0x100_0000 == 255 && (argb / 0x1_0000) % 0x100 == r && (argb / 0x100) % 0x100
        == g && argb % 0x100 == b) by (bit_vector)
        requires
            r < 256,
            g < 256,
            b < 256,
            argb == (255u32 << 24) | (r << 16) | (g << 8) | b,
    ;
    argb
}

/// The alpha channel: bits 24 to 31.
pub open spec fn alpha_from_argb_spec(argb: u32) -> u8 {
    (argb / 0x100_0000) as u8
}

#[verifier::when_used_as_spec(alpha_from_argb_spec)]
pub fn alpha_from_argb(argb: u32) -> (alpha: u8)
    ensures
        alpha == alpha_from_argb_spec(argb),
{
    let channel: u32 = (argb >> 24) & 255;
    assert(channel == argb / 0x100_0000) by (bit_vector)
        requires
            channel == (argb >> 24) & 255,
    ;
    channel as u8
}

/// The red channel: bits 16 to 23.
pub open spec fn red_from_argb_spec(argb: u32) -> u8 {
    ((argb / 0x1_0000) % 0x100) as u8
}

#[verifier::when_used_as_spec(red_from_argb_spec)]
pub fn red_from_argb(argb: u32) -> (red: u8)
    ensures
        red == red_from_argb_spec(argb),
{
    let channel: u32 = (argb >> 16) & 255;
    assert(channel == (argb / 0x1_0000) % 0x100) by (bit_vector)
        requires
            channel == (argb >> 16) & 255,
    ;
    channel as u8
}

/// The green channel: bits 8 to 15.
pub open spec fn green_from_argb_spec(argb: u32) -> u8 {
    ((argb / 0x100) % 0x100) as u8
}

#[verifier::when_used_as_spec(green_from_argb_spec)]
pub fn green_from_argb(argb: u32) -> (green: u8)
    ensures
        green == green_from_argb_spec(argb),
{
    let channel: u32 = (argb >> 8) & 255;
    assert(channel == (argb / 0x100) % 0x100) by (bit_vector)
        requires
            channel == (argb >> 8) & 255,
    ;
    channel as u8
}

/// The blue channel: bits 0 to 7.
pub open spec fn blue_from_argb_spec(argb: u32) -> u8 {
    (argb % 0x100) as u8
}

#[verifier::when_used_as_spec(blue_from_argb_spec)]
pub fn blue_from_argb(argb: u32) -> (blue: u8)
    ensures
        blue == blue_from_argb_spec(argb),
{
    let channel: u32 = argb & 255;
    assert(channel == argb % 0x100) by (bit_vector)
        requires
            channel == argb & 255,
    ;
    channel as u8
}

/// Whether the alpha channel is 255.
pub open spec fn is_opaque_spec(argb: u32) -> bool {
    alpha_from_argb(argb) == 255
}

#[verifier::when_used_as_spec(is_opaque_spec)]
pub fn is_opaque(argb: u32) -> (opaque: bool)
    ensures
        opaque == is_opaque_spec(argb),
        opaque == (argb >= 0xff00_0000),
{
    alpha_from_argb(argb) == 255
}

/// An opaque colour is its three channels packed again.
pub proof fn lemma_opaque_is_packed_channels(argb: u32)
    requires
        is_opaque(argb),
    ensures
        argb_from_rgb(red_from_argb(argb), green_from_argb(argb), blue_from_argb(argb)) == argb,
{
    assert(argb == 0xff00_0000 + ((argb / 0x1_0000) % 0x100) * 0x1_0000 + ((argb / 0x100) % 0x100)
        * 0x100 + argb % 0x100) by (bit_vector)
        requires
            argb / 0x100_0000 == 255,
    ;
}

/// The linear value, from 0 to 100, of an sRGB channel.
#[verifier::opaque]
pub open spec fn linearized_spec(rgb_component: u8) -> Fixed {
    let normalized = Fixed::from_int(rgb_component as i64).over_int(255);
    if normalized.le(fx(GAMMA_KNEE)) {
        normalized.over(fx(LINEAR_SLOPE)).times_int(100)
    } else {
        normalized.plus(fx(GAMMA_OFFSET)).over(fx(GAMMA_GAIN)).pow(fx(GAMMA)).times_int(100)
    }
}

#[verifier::when_used_as_spec(linearized_spec)]
pub fn linearized(rgb_component: u8) -> (out: Fixed)
    ensures
        out == linearized_spec(rgb_component),
{
    proof {
        reveal(linearized_spec);
    }
    let normalized = Fixed::from_int(rgb_component as i64).over_int(255);
    if normalized.le(fx(GAMMA_KNEE)) {
        normalized.over(fx(LINEAR_SLOPE)).times_int(100)
    } else {
        normalized.plus(fx(GAMMA_OFFSET)).over(fx(GAMMA_GAIN)).pow(fx(GAMMA)).times_int(100)
    }
}

/// The sRGB channel value, as a real number from 0 to 255, of a linear
/// value from 0 to 100.
#[verifier::opaque]
pub open spec fn true_delinearized_spec(rgb_component: Fixed) -> Fixed {
    let normalized = rgb_component.over_int(100);
    if normalized.le(fx(LINEAR_KNEE)) {
        normalized.times(fx(LINEAR_SLOPE)).times_int(255)
    } else {
        fx(GAMMA_GAIN).times(normalized.pow(fx(INVERSE_GAMMA))).minus(fx(GAMMA_OFFSET)).times_int(255)
    }
}

#[verifier::when_used_as_spec(true_delinearized_spec)]
pub fn true_delinearized(rgb_component: Fixed) -> (out: Fixed)
    ensures
        out == true_delinearized_spec(rgb_component),
{
    proof {
        reveal(true_delinearized_spec);
    }
    let normalized = rgb_component.over_int(100);
    if normalized.le(fx(LINEAR_KNEE)) {
        normalized.times(fx(LINEAR_SLOPE)).times_int(255)
    } else {
        fx(GAMMA_GAIN).times(normalized.pow(fx(INVERSE_GAMMA))).minus(fx(GAMMA_OFFSET)).times_int(255)
    }
}

/// The sRGB channel nearest to a linear value, held within 0 and 255.
#[verifier::opaque]
pub open spec fn delinearized_spec(rgb_component: Fixed) -> u8 {
    true_delinearized(rgb_component).round().clamp(Fixed::from_int(0), Fixed::from_int(255))
        .floor_int() as u8
}

#[verifier::when_used_as_spec(delinearized_spec)]
pub fn delinearized(rgb_component: Fixed) -> (out: u8)
    ensures
        out == delinearized_spec(rgb_component),
{
    proof {
        reveal(delinearized_spec);
    }
    let held = true_delinearized(rgb_component).round().clamp(
        Fixed::from_int(0),
        Fixed::from_int(255),
    );
    let whole = held.floor_int();
    assert(0 <= whole <= 255);
    whole as u8
}

/// The opaque colour of three linear components.
#[verifier::opaque]
pub open spec fn argb_from_linrgb_spec(linrgb: (Fixed, Fixed, Fixed)) -> u32 {
    argb_from_rgb(delinearized(linrgb.0), delinearized(linrgb.1), delinearized(linrgb.2))
}

#[verifier::when_used_as_spec(argb_from_linrgb_spec)]
pub fn argb_from_linrgb(linrgb: (Fixed, Fixed, Fixed)) -> (argb: u32)
    ensures
        argb == argb_from_linrgb_spec(linrgb),
        is_opaque(argb),
{
    proof {
        reveal(argb_from_linrgb_spec);
    }
    argb_from_rgb(delinearized(linrgb.0), delinearized(linrgb.1), delinearized(linrgb.2))
}

/// The opaque colour of a point in XYZ.
#[verifier::opaque]
pub open spec fn argb_from_xyz_spec(x: Fixed, y: Fixed, z: Fixed) -> u32 {
    argb_from_linrgb(matrix_multiply((x, y, z), XYZ_TO_SRGB))
}

#[verifier::when_used_as_spec(argb_from_xyz_spec)]
pub fn argb_from_xyz(x: Fixed, y: Fixed, z: Fixed) -> (argb: u32)
    ensures
        argb == argb_from_xyz_spec(x, y, z),
        is_opaque(argb),
{
    proof {
        reveal(argb_from_xyz_spec);
    }
    argb_from_linrgb(matrix_multiply((x, y, z), XYZ_TO_SRGB))
}

/// The point in XYZ of a colour; its alpha is ignored.
#[verifier::opaque]
pub open spec fn xyz_from_argb_spec(argb: u32) -> (Fixed, Fixed, Fixed) {
    matrix_multiply(
        (
            linearized(red_from_argb(argb)),
            linearized(green_from_argb(argb)),
            linearized(blue_from_argb(argb)),
        ),
        SRGB_TO_XYZ,
    )
}

#[verifier::when_used_as_spec(xyz_from_argb_spec)]
pub fn xyz_from_argb(argb: u32) -> (out: (Fixed, Fixed, Fixed))
    ensures
        out == xyz_from_argb_spec(argb),
{
    proof {
        reveal(xyz_from_argb_spec);
    }
    matrix_multiply(
        (
            linearized(red_from_argb(argb)),
            linearized(green_from_argb(argb)),
            linearized(blue_from_argb(argb)),
        ),
        SRGB_TO_XYZ,
    )
}

/// The L*a*b* function: the cube root above its knee, a line below.
#[verifier::opaque]
pub open spec fn lab_f_spec(t: Fixed) -> Fixed {
    if t.gt(fx(LAB_EPSILON)) {
        t.cbrt()
    } else {
        fx(LAB_KAPPA).times(t).plus(Fixed::from_int(16)).over_int(116)
    }
}

#[verifier::when_used_as_spec(lab_f_spec)]
pub fn lab_f(t: Fixed) -> (out: Fixed)
    ensures
        out == lab_f_spec(t),
{
    proof {
        reveal(lab_f_spec);
    }
    if t.gt(fx(LAB_EPSILON)) {
        t.cbrt()
    } else {
        fx(LAB_KAPPA).times(t).plus(Fixed::from_int(16)).over_int(116)
    }
}

/// The inverse of the L*a*b* function: the cube above the knee, a line
/// below.
#[verifier::opaque]
pub open spec fn lab_inv_f_spec(ft: Fixed) -> Fixed {
    let ft3 = ft.times(ft).times(ft);
    if ft3.gt(fx(LAB_EPSILON)) {
        ft3
    } else {
        ft.times_int(116).minus(Fixed::from_int(16)).over(fx(LAB_KAPPA))
    }
}

#[verifier::when_used_as_spec(lab_inv_f_spec)]
pub fn lab_inv_f(ft: Fixed) -> (out: Fixed)
    ensures
        out == lab_inv_f_spec(ft),
{
    proof {
        reveal(lab_inv_f_spec);
    }
    let ft3 = ft.times(ft).times(ft);
    if ft3.gt(fx(LAB_EPSILON)) {
        ft3
    } else {
        ft.times_int(116).minus(Fixed::from_int(16)).over(fx(LAB_KAPPA))
    }
}

/// The opaque colour of a point in L*a*b*.
#[verifier::opaque]
pub open spec fn argb_from_lab_spec(l: Fixed, a: Fixed, b: Fixed) -> u32 {
    let f_y = l.plus(Fixed::from_int(16)).over_int(116);
    let f_x = a.over_int(500).plus(f_y);
    let f_z = f_y.minus(b.over_int(200));
    argb_from_xyz(
        lab_inv_f(f_x).times(fx(WHITE_X)),
        lab_inv_f(f_y).times(fx(WHITE_Y)),
        lab_inv_f(f_z).times(fx(WHITE_Z)),
    )
}

#[verifier::when_used_as_spec(argb_from_lab_spec)]
pub fn argb_from_lab(l: Fixed, a: Fixed, b: Fixed) -> (argb: u32)
    ensures
        argb == argb_from_lab_spec(l, a, b),
        is_opaque(argb),
{
    proof {
        reveal(argb_from_lab_spec);
    }
    let f_y = l.plus(Fixed::from_int(16)).over_int(116);
    let f_x = a.over_int(500).plus(f_y);
    let f_z = f_y.minus(b.over_int(200));
    argb_from_xyz(
        lab_inv_f(f_x).times(fx(WHITE_X)),
        lab_inv_f(f_y).times(fx(WHITE_Y)),
        lab_inv_f(f_z).times(fx(WHITE_Z)),
    )
}

/// The point in L*a*b* of a colour.
#[verifier::opaque]
pub open spec fn lab_from_argb_spec(argb: u32) -> (Fixed, Fixed, Fixed) {
    let xyz = xyz_from_argb(argb);
    let f_x = lab_f(xyz.0.over(fx(WHITE_X)));
    let f_y = lab_f(xyz.1.over(fx(WHITE_Y)));
    let f_z = lab_f(xyz.2.over(fx(WHITE_Z)));
    (
        f_y.times_int(116).minus(Fixed::from_int(16)),
        f_x.minus(f_y).times_int(500),
        f_y.minus(f_z).times_int(200),
    )
}

#[verifier::when_used_as_spec(lab_from_argb_spec)]
pub fn lab_from_argb(argb: u32) -> (out: (Fixed, Fixed, Fixed))
    ensures
        out == lab_from_argb_spec(argb),
{
    proof {
        reveal(lab_from_argb_spec);
    }
    let xyz = xyz_from_argb(argb);
    let f_x = lab_f(xyz.0.over(fx(WHITE_X)));
    let f_y = lab_f(xyz.1.over(fx(WHITE_Y)));
    let f_z = lab_f(xyz.2.over(fx(WHITE_Z)));
    (
        f_y.times_int(116).minus(Fixed::from_int(16)),
        f_x.minus(f_y).times_int(500),
        f_y.minus(f_z).times_int(200),
    )
}

/// The luminance Y, from 0 to 100, of a lightness L*: `100 f'((L* + 16) /
/// 116)` for the inverse `f'` of the L*a*b* function, whose line is taken
/// as `L* / kappa`, so that black has no luminance at all.
#[verifier::opaque]
pub open spec fn y_from_lstar_spec(lstar: Fixed) -> Fixed {
    let ft = lstar.plus(Fixed::from_int(16)).over_int(116);
    let ft3 = ft.times(ft).times(ft);
    if ft3.gt(fx(LAB_EPSILON)) {
        ft3.times_int(100)
    } else {
        lstar.over(fx(LAB_KAPPA)).times_int(100)
    }
}

#[verifier::when_used_as_spec(y_from_lstar_spec)]
pub fn y_from_lstar(lstar: Fixed) -> (out: Fixed)
    ensures
        out == y_from_lstar_spec(lstar),
{
    proof {
        reveal(y_from_lstar_spec);
    }
    let ft = lstar.plus(Fixed::from_int(16)).over_int(116);
    let ft3 = ft.times(ft).times(ft);
    if ft3.gt(fx(LAB_EPSILON)) {
        ft3.times_int(100)
    } else {
        lstar.over(fx(LAB_KAPPA)).times_int(100)
    }
}

/// The lightness L* of a luminance Y: `116 f(Y / 100) - 16` for the
/// L*a*b* function `f`, whose line is taken as `kappa Y / 100`.
#[verifier::opaque]
pub open spec fn lstar_from_y_spec(y: Fixed) -> Fixed {
    let t = y.over_int(100);
    if t.gt(fx(LAB_EPSILON)) {
        t.cbrt().times_int(116).minus(Fixed::from_int(16))
    } else {
        fx(LAB_KAPPA).times(t)
    }
}

#[verifier::when_used_as_spec(lstar_from_y_spec)]
pub fn lstar_from_y(y: Fixed) -> (out: Fixed)
    ensures
        out == lstar_from_y_spec(y),
{
    proof {
        reveal(lstar_from_y_spec);
    }
    let t = y.over_int(100);
    if t.gt(fx(LAB_EPSILON)) {
        t.cbrt().times_int(116).minus(Fixed::from_int(16))
    } else {
        fx(LAB_KAPPA).times(t)
    }
}

/// The grey of a lightness L*.
#[verifier::opaque]
pub open spec fn argb_from_lstar_spec(lstar: Fixed) -> u32 {
    let component = delinearized(y_from_lstar(lstar));
    argb_from_rgb(component, component, component)
}

#[verifier::when_used_as_spec(argb_from_lstar_spec)]
pub fn argb_from_lstar(lstar: Fixed) -> (argb: u32)
    ensures
        argb == argb_from_lstar_spec(lstar),
        is_opaque(argb),
{
    proof {
        reveal(argb_from_lstar_spec);
    }
    let component = delinearized(y_from_lstar(lstar));
    argb_from_rgb(component, component, component)
}

/// The lightness L* of a colour.
#[verifier::opaque]
pub open spec fn lstar_from_argb_spec(argb: u32) -> Fixed {
    lstar_from_y(xyz_from_argb(argb).1)
}

#[verifier::when_used_as_spec(lstar_from_argb_spec)]
pub fn lstar_from_argb(argb: u32) -> (out: Fixed)
    ensures
        out == lstar_from_argb_spec(argb),
{
    proof {
        reveal(lstar_from_argb_spec);
    }
    lstar_from_y(xyz_from_argb(argb).1)
}

/// The D65 white point in XYZ.
pub open spec fn white_point_d65_spec() -> (Fixed, Fixed, Fixed) {
    (fx(WHITE_X), fx(WHITE_Y), fx(WHITE_Z))
}

#[verifier::when_used_as_spec(white_point_d65_spec)]
pub fn white_point_d65() -> (out: (Fixed, Fixed, Fixed))
    ensures
        out == white_point_d65_spec(),
{
    (fx(WHITE_X), fx(WHITE_Y), fx(WHITE_Z))
}

} // verus!
