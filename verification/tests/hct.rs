use material_color_utilities::fixed::Fixed;
use material_color_utilities::hct::{Cam16, Hct, ViewingConditions};
use material_color_utilities::utils::color::argb_from_rgb;

fn as_float(value: Fixed) -> f64 {
    value.raw as f64 / 1e12
}

#[test]
fn mod_preserves_original_color() {
    for r in (0..296).step_by(37) {
        for g in (0..296).step_by(37) {
            for b in (0..296).step_by(37) {
                let argb = argb_from_rgb(r.min(255) as u8, g.min(255) as u8, b.min(255) as u8);
                let hct = Hct::from_int(argb);
                let reconstructed = Hct::from(hct.hue(), hct.chroma(), hct.tone()).to_int();
                assert_eq!(reconstructed, argb);
            }
        }
    }
}

#[test]
fn standard_viewing_conditions_have_the_known_values() {
    let vc = ViewingConditions::standard();
    assert!((as_float(vc.aw) - 29.980997194447333).abs() < 1e-8);
    assert!((as_float(vc.nbb) - 1.0169191804458755).abs() < 1e-9);
    assert_eq!(vc.ncb, vc.nbb);
    assert!((as_float(vc.c) - 0.69).abs() < 1e-11);
    assert!((as_float(vc.nc) - 1.0).abs() < 1e-11);
    assert!((as_float(vc.n) - 0.18418651851244416).abs() < 1e-9);
    assert!((as_float(vc.fl) - 0.3884814537800353).abs() < 1e-9);
    assert!((as_float(vc.fl_root) - 0.7894826179304937).abs() < 1e-9);
    assert!((as_float(vc.z) - 1.909169568483652).abs() < 1e-9);
    assert_eq!(ViewingConditions::default(), vc);
}

#[test]
fn cam16_of_red() {
    let cam = Cam16::from_int(0xffff0000);
    assert!((as_float(cam.hue) - 27.408).abs() < 0.001);
    assert!((as_float(cam.chroma) - 113.357).abs() < 0.001);
    assert!((as_float(cam.j) - 46.445).abs() < 0.001);
    assert!((as_float(cam.m) - 89.494).abs() < 0.001);
    assert!((as_float(cam.s) - 91.889).abs() < 0.001);
    assert!((as_float(cam.q) - 105.988).abs() < 0.001);
}

#[test]
fn cam16_round_trips_through_xyz() {
    for argb in [0xffff0000_u32, 0xff00ff00, 0xff0000ff, 0xff6750a4, 0xff808080, 0xffffffff] {
        assert_eq!(Cam16::from_int(argb).to_int(), argb);
        let cam = Cam16::from_int(argb);
        let again = Cam16::from_ucs(cam.jstar, cam.astar, cam.bstar);
        assert_eq!(again.to_int(), argb);
    }
}

#[test]
fn distance_is_zero_between_equal_colours() {
    let cam = Cam16::from_int(0xff6750a4);
    assert_eq!(cam.distance(&cam).raw, 0);
    assert!(cam.distance(&Cam16::from_int(0xff0000ff)).raw > 0);
}

#[test]
fn setters_solve_again() {
    let mut hct = Hct::from_int(0xff6750a4);
    hct.set_tone(Fixed::from_int(80));
    assert!((as_float(hct.tone()) - 80.0).abs() < 0.5);
    assert_eq!(hct, Hct::from_int(hct.to_int()));
    hct.set_chroma(Fixed::from_int(0));
    assert!(as_float(hct.chroma()) < 3.0);
    hct.set_hue(Fixed::from_int(120));
    assert_eq!(hct, Hct::from_int(hct.to_int()));
}

#[test]
fn grey_for_degenerate_requests() {
    assert_eq!(Hct::from(Fixed::from_int(120), Fixed::from_int(50), Fixed::from_int(0)).to_int(), 0xff000000);
    assert_eq!(Hct::from(Fixed::from_int(120), Fixed::from_int(50), Fixed::from_int(100)).to_int(), 0xffffffff);
    assert_eq!(Hct::from(Fixed::from_int(120), Fixed::from_int(0), Fixed::from_int(50)).to_int(), 0xff777777);
}

#[test]
fn hue_ranges() {
    assert!(Hct::is_blue(Fixed::from_int(250)));
    assert!(!Hct::is_blue(Fixed::from_int(270)));
    assert!(Hct::is_yellow(Fixed::from_int(105)));
    assert!(!Hct::is_yellow(Fixed::from_int(125)));
    assert!(Hct::is_cyan(Fixed::from_int(170)));
    assert!(!Hct::is_cyan(Fixed::from_int(207)));
}

#[test]
fn seen_under_the_standard_conditions_a_colour_stays() {
    let hct = Hct::from_int(0xff6750a4);
    assert_eq!(hct.in_viewing_conditions(&ViewingConditions::standard()).to_int(), 0xff6750a4);
}

#[test]
fn text_of_a_colour() {
    assert_eq!(Hct::from_int(0xffff0000).to_string(), "HCT(27, 113, 53)");
    assert_eq!(Hct::from_int(0xff000000).to_string(), "HCT(0, 0, 0)");
    assert_eq!(Hct::default().to_string(), "HCT(0, 0, 0)");
    assert_eq!(Hct::default().to_int(), 0xff000000);
    let negative = Hct { hue: Fixed::from_int(-12), chroma: Fixed::from_tenths(5), tone: Fixed::from_int(100), argb: 0 };
    assert_eq!(negative.to_string(), "HCT(-12, 1, 100)");
    let from: Hct = 0xff6750a4_u32.into();
    assert_eq!(from, Hct::from_int(0xff6750a4));
}
