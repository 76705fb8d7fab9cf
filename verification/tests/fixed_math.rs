use material_color_utilities::fixed::Fixed;

fn fx(value: f64) -> Fixed {
    Fixed { raw: (value * 1e12).round() as i128 }
}

fn as_float(value: Fixed) -> f64 {
    value.raw as f64 / 1e12
}

#[test]
fn square_root_of_two() {
    assert_eq!(Fixed::from_int(2).sqrt().raw, 1_414_213_562_373);
}

#[test]
fn exponential_and_logarithm_agree_with_floats() {
    let mut x = 0.001_f64;
    while x < 900.0 {
        assert!((as_float(fx(x).ln()) - as_float(fx(x)).ln()).abs() < 1e-11);
        x *= 1.37;
    }
    let mut z = -12.0_f64;
    while z < 12.0 {
        let want = as_float(fx(z)).exp();
        assert!((as_float(fx(z).exp()) - want).abs() < 1e-11 * want.max(1.0));
        z += 0.173;
    }
}

#[test]
fn power_agrees_with_floats() {
    let mut x = 0.0005_f64;
    while x < 500.0 {
        for y in [0.42, 2.4, 0.9, 0.73, 0.2, 1.07] {
            let want = as_float(fx(x)).powf(as_float(fx(y)));
            assert!((as_float(fx(x).pow(fx(y))) - want).abs() < 1e-10 * want.max(1.0));
        }
        x *= 1.61;
    }
    assert_eq!(Fixed::from_int(0).pow(fx(0.42)).raw, 0);
    assert_eq!(Fixed::from_int(1).pow(fx(0.42)), Fixed::from_int(1));
}

#[test]
fn trigonometry_agrees_with_floats() {
    let mut a = -9.0_f64;
    while a < 9.0 {
        assert!((as_float(fx(a).sin()) - a.sin()).abs() < 1e-11);
        assert!((as_float(fx(a).cos()) - a.cos()).abs() < 1e-11);
        a += 0.0617;
    }
    for (y, x) in [(1.0, 1.0), (1.0, -1.0), (-1.0, -1.0), (-1.0, 1.0), (0.3, 7.0), (7.0, 0.3), (0.0, -2.0), (2.0, 0.0)] {
        let want = f64::atan2(y, x);
        assert!((as_float(fx(y).atan2(fx(x))) - want).abs() < 1e-11);
    }
}

#[test]
fn rounding_is_half_away_from_zero() {
    assert_eq!(fx(2.5).round(), Fixed::from_int(3));
    assert_eq!(fx(-2.5).round(), Fixed::from_int(-3));
    assert_eq!(fx(2.4).round(), Fixed::from_int(2));
    assert_eq!(fx(-0.4).round(), Fixed::from_int(0));
    assert_eq!(fx(-1.5).floor(), Fixed::from_int(-2));
    assert_eq!(fx(-1.5).ceil(), Fixed::from_int(-1));
}

#[test]
fn arithmetic_saturates() {
    let top = Fixed { raw: i128::MAX };
    assert_eq!(top.plus(Fixed::from_int(1)), top);
    assert_eq!(top.times(Fixed::from_int(2)), top);
    assert_eq!(top.neg().times(Fixed::from_int(2)).raw, i128::MIN);
    assert_eq!(Fixed::from_int(1).over(Fixed::from_int(0)), top);
    assert_eq!(Fixed::from_int(7).over(Fixed::from_int(-2)), fx(-3.5));
}
