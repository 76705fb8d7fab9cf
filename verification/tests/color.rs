use material_color_utilities::fixed::Fixed;
use material_color_utilities::utils::color::{
    alpha_from_argb, argb_from_lab, argb_from_linrgb, argb_from_lstar, argb_from_rgb,
    argb_from_xyz, blue_from_argb, delinearized, green_from_argb, is_opaque, lab_from_argb,
    linearized, lstar_from_argb, lstar_from_y, red_from_argb, white_point_d65, xyz_from_argb,
    y_from_lstar,
};
use material_color_utilities::utils::math::{
    difference_degrees, lerp, matrix_multiply, rotation_direction, sanitize_degrees,
    sanitize_degrees_int,
};

fn fx(value: f64) -> Fixed {
    Fixed { raw: (value * 1e12).round() as i128 }
}

fn close(actual: Fixed, expected: f64) -> bool {
    (actual.raw as f64 / 1e12 - expected).abs() < 1e-6
}

#[test]
fn channels_of_a_colour() {
    assert_eq!(argb_from_rgb(0x67, 0x50, 0xa4), 0xff6750a4);
    assert_eq!(alpha_from_argb(0x12345678), 0x12);
    assert_eq!(red_from_argb(0x12345678), 0x34);
    assert_eq!(green_from_argb(0x12345678), 0x56);
    assert_eq!(blue_from_argb(0x12345678), 0x78);
    assert!(is_opaque(0xff000000));
    assert!(!is_opaque(0xfe000000));
}

#[test]
fn linear_and_back() {
    for channel in 0..=255u8 {
        assert_eq!(delinearized(linearized(channel)), channel);
    }
    assert_eq!(linearized(0), Fixed::from_int(0));
    assert!(close(linearized(255), 100.0));
    assert!(close(linearized(128), 21.586050011389926));
    assert_eq!(delinearized(fx(-3.0)), 0);
    assert_eq!(delinearized(fx(250.0)), 255);
}

#[test]
fn lstar_and_luminance() {
    assert!(close(y_from_lstar(fx(50.0)), 18.418651851244416));
    assert!(close(lstar_from_y(fx(18.418651851244416)), 50.0));
    assert!(close(y_from_lstar(fx(100.0)), 100.0));
    assert_eq!(y_from_lstar(fx(0.0)), Fixed::from_int(0));
    assert!(close(y_from_lstar(fx(5.0)), 0.5535282299397269));
    assert!(close(lstar_from_argb(0xff777777), 50.03443897735041));
    assert_eq!(argb_from_lstar(fx(50.0)), 0xff777777);
    assert_eq!(argb_from_lstar(fx(0.0)), 0xff000000);
    assert_eq!(argb_from_lstar(fx(100.0)), 0xffffffff);
}

#[test]
fn xyz_and_lab_round_trip() {
    for argb in [0xffff0000_u32, 0xff00ff00, 0xff0000ff, 0xff6750a4, 0xff000000, 0xffffffff] {
        let xyz = xyz_from_argb(argb);
        assert_eq!(argb_from_xyz(xyz.0, xyz.1, xyz.2), argb);
        let lab = lab_from_argb(argb);
        assert_eq!(argb_from_lab(lab.0, lab.1, lab.2), argb);
    }
    let white = xyz_from_argb(0xffffffff);
    let d65 = white_point_d65();
    assert!(close(white.0, 95.047));
    assert!(close(white.1, 100.0));
    assert!(close(white.2, 108.883));
    assert_eq!(d65.1, Fixed::from_int(100));
    assert_eq!(argb_from_linrgb((fx(100.0), fx(0.0), fx(0.0))), 0xffff0000);
}

#[test]
fn angles() {
    assert_eq!(sanitize_degrees(fx(-10.0)), fx(350.0));
    assert_eq!(sanitize_degrees(fx(370.5)), fx(10.5));
    assert_eq!(sanitize_degrees(fx(360.0)), fx(0.0));
    assert_eq!(sanitize_degrees(fx(-720.0)), fx(0.0));
    assert_eq!(sanitize_degrees_int(-30), 330);
    assert_eq!(sanitize_degrees_int(400), 40);
    assert_eq!(difference_degrees(fx(10.0), fx(350.0)), fx(20.0));
    assert_eq!(difference_degrees(fx(350.0), fx(10.0)), fx(20.0));
    assert_eq!(difference_degrees(fx(0.0), fx(180.0)), fx(180.0));
    assert_eq!(rotation_direction(fx(10.0), fx(20.0)), fx(1.0));
    assert_eq!(rotation_direction(fx(20.0), fx(10.0)), fx(-1.0));
    assert_eq!(rotation_direction(fx(350.0), fx(10.0)), fx(1.0));
    assert_eq!(rotation_direction(fx(0.0), fx(180.0)), fx(1.0));
}

#[test]
fn interpolation_and_matrices() {
    assert_eq!(lerp(fx(2.0), fx(4.0), fx(0.25)), fx(2.5));
    assert_eq!(lerp(fx(2.0), fx(4.0), fx(0.0)), fx(2.0));
    assert_eq!(lerp(fx(2.0), fx(4.0), fx(1.0)), fx(4.0));
    let identity = ((1_000_000_000_000, 0, 0), (0, 1_000_000_000_000, 0), (0, 0, 1_000_000_000_000));
    let v = (fx(1.5), fx(-2.0), fx(3.25));
    assert_eq!(matrix_multiply(v, identity), v);
    let swap = ((0, 2_000_000_000_000, 0), (1_000_000_000_000, 0, 0), (0, 0, -1_000_000_000_000));
    assert_eq!(matrix_multiply(v, swap), (fx(-4.0), fx(1.5), fx(-3.25)));
}
