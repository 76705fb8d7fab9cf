use material_color_utilities::contrast::{
    darker, darker_unsafe, lighter, lighter_unsafe, ratio_of_tones, ratio_of_ys,
};
use material_color_utilities::fixed::Fixed;

fn fx(value: f64) -> Fixed {
    Fixed { raw: (value * 1e12).round() as i128 }
}

fn as_float(value: Fixed) -> f64 {
    value.raw as f64 / 1e12
}

fn approx(expected: f64, actual: Fixed, tolerance: f64) -> bool {
    (expected - as_float(actual)).abs() <= tolerance
}

#[test]
fn ratio_of_tones_out_of_bounds_input() {
    assert!(approx(21.0, ratio_of_tones(fx(-10.0), fx(110.0)), 0.001));
}

#[test]
fn lighter_impossible_ratio_errors() {
    assert!(approx(-1.0, lighter(fx(90.0), fx(10.0)), 0.001));
}

#[test]
fn lighter_out_of_bounds_input_above_errors() {
    assert!(approx(-1.0, lighter(fx(110.0), fx(2.0)), 0.001));
}

#[test]
fn lighter_out_of_bounds_input_below_errors() {
    assert!(approx(-1.0, lighter(fx(-10.0), fx(2.0)), 0.001));
}

#[test]
fn lighter_unsafe_returns_max_tone() {
    assert!(approx(100.0, lighter_unsafe(fx(100.0), fx(2.0)), 0.001));
}

#[test]
fn darker_impossible_ratio_errors() {
    assert!(approx(-1.0, darker(fx(10.0), fx(20.0)), 0.001));
}

#[test]
fn darker_out_of_bounds_input_above_errors() {
    assert!(approx(-1.0, darker(fx(110.0), fx(20.0)), 0.001));
}

#[test]
fn darker_out_of_bounds_input_below_errors() {
    assert!(approx(-1.0, darker(fx(-10.0), fx(20.0)), 0.001));
}

#[test]
fn darker_unsafe_returns_min_tone() {
    assert!(approx(0.0, darker_unsafe(fx(0.0), fx(2.0)), 0.001));
}

#[test]
fn ratio_of_ys_is_the_wcag_ratio() {
    assert_eq!(ratio_of_ys(fx(100.0), fx(0.0)), Fixed::from_int(21));
    assert_eq!(ratio_of_ys(fx(0.0), fx(100.0)), Fixed::from_int(21));
    assert_eq!(ratio_of_ys(fx(50.0), fx(50.0)), Fixed::from_int(1));
    assert_eq!(ratio_of_ys(fx(10.0), fx(25.0)), Fixed::from_int(2));
}

#[test]
fn lighter_and_darker_reach_the_ratio() {
    let mut tone = 0.0;
    while tone <= 100.0 {
        for ratio in [1.0, 1.5, 3.0, 4.5, 7.0, 11.0, 21.0] {
            let up = lighter(fx(tone), fx(ratio));
            if up != Fixed::from_int(-1) {
                assert!(up.raw >= fx(tone).raw);
                assert!(as_float(ratio_of_tones(fx(tone), up)) >= ratio);
            }
            let down = darker(fx(tone), fx(ratio));
            if down != Fixed::from_int(-1) {
                assert!(down.raw <= fx(tone).raw);
                assert!(as_float(ratio_of_tones(fx(tone), down)) >= ratio);
            }
        }
        tone += 2.5;
    }
}

#[test]
fn lighter_of_a_middle_tone() {
    assert!(approx(71.1586, lighter(fx(50.0), fx(2.0)), 0.0001));
    assert!(approx(30.7358, darker(fx(50.0), fx(2.0)), 0.0001));
}
