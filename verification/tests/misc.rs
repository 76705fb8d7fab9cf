use material_color_utilities::dynamiccolor::{Platform, SpecVersion, Variant};
use material_color_utilities::fixed::arith::{
    div_floor, icbrt, isqrt, mul_div, pow2, rem_floor, sat_add, sat_mul, sat_neg, sat_sub,
};
use material_color_utilities::fixed::{fx, Fixed};
use material_color_utilities::quantize::point_provider::lab_distance_squared;
use material_color_utilities::quantize::{
    PointProvider, PointProviderLab, Quantizer, QuantizerCelebi, QuantizerMap, QuantizerWsmeans,
    QuantizerWu,
};
use material_color_utilities::templates::{DefaultTemplate, EmptyTemplate, Template};

#[test]
fn integer_primitives() {
    assert_eq!(sat_add(i128::MAX, 1), i128::MAX);
    assert_eq!(sat_add(i128::MIN, -1), i128::MIN);
    assert_eq!(sat_sub(i128::MIN, 1), i128::MIN);
    assert_eq!(sat_sub(5, 7), -2);
    assert_eq!(sat_neg(i128::MIN), i128::MAX);
    assert_eq!(sat_mul(i128::MAX, -2), i128::MIN);
    assert_eq!(sat_mul(-3, -4), 12);
    assert_eq!(mul_div(7, 3, 2), 10);
    assert_eq!(mul_div(-7, 3, 2), -11);
    assert_eq!(mul_div(i128::MAX, 2, 4), i128::MAX);
    assert_eq!(div_floor(-7, 2), -4);
    assert_eq!(rem_floor(-7, 2), 1);
    assert_eq!(pow2(0), 1);
    assert_eq!(pow2(10), 1024);
    assert_eq!(pow2(200), i128::MAX);
    assert_eq!(isqrt(0), 0);
    assert_eq!(isqrt(-5), 0);
    assert_eq!(isqrt(15), 3);
    assert_eq!(isqrt(16), 4);
    assert_eq!(isqrt(i128::MAX), 13043817825332782212);
    assert_eq!(icbrt(26), 2);
    assert_eq!(icbrt(27), 3);
    assert_eq!(icbrt(-27), 0);
    assert_eq!(icbrt(i128::MAX), 5541191377756);
}

#[test]
fn fixed_numbers() {
    assert_eq!(Fixed::from_int(3).raw, 3_000_000_000_000);
    assert_eq!(Fixed::from_tenths(45), fx(4_500_000_000_000));
    assert_eq!(Fixed::from_hundredths(129), fx(1_290_000_000_000));
    assert_eq!(Fixed::from_ratio(1, 3), fx(333_333_333_333));
    assert_eq!(Fixed::from_ratio(-1, 3), fx(-333_333_333_334));
    assert_eq!(Fixed::zero(), Fixed::from_int(0));
    let three = Fixed::from_int(3);
    let two = Fixed::from_int(2);
    assert_eq!(three.plus(two), Fixed::from_int(5));
    assert_eq!(three.minus(two), Fixed::from_int(1));
    assert_eq!(three.times(two), Fixed::from_int(6));
    assert_eq!(three.over(two), Fixed::from_tenths(15));
    assert_eq!(three.times_int(-4), Fixed::from_int(-12));
    assert_eq!(three.over_int(4), Fixed::from_hundredths(75));
    assert_eq!(three.neg(), Fixed::from_int(-3));
    assert_eq!(three.neg().abs(), three);
    assert_eq!(three.with_sign_of(two.neg()), three.neg());
    assert_eq!(three.with_sign_of(Fixed::zero()), Fixed::zero());
    assert_eq!(three.min(two), two);
    assert_eq!(three.max(two), three);
    assert_eq!(three.clamp(Fixed::zero(), two), two);
    assert!(two.lt(three) && two.le(two) && three.gt(two) && three.ge(three));
    assert_eq!(Fixed::from_tenths(-25).floor_int(), -3);
    assert_eq!(Fixed::from_tenths(-25).round_int(), -3);
    assert_eq!(Fixed::from_tenths(25).round_int(), 3);
    assert_eq!(Fixed::from_int(370).rem(Fixed::from_int(360)), Fixed::from_int(10));
    assert_eq!(Fixed::from_int(-10).rem(Fixed::from_int(360)), Fixed::from_int(350));
    assert_eq!(Fixed::from_int(5).rem(Fixed::zero()), Fixed::zero());
    assert_eq!(Fixed::zero().over(Fixed::zero()), Fixed::zero());
    assert_eq!(three.neg().over(Fixed::zero()).raw, i128::MIN);
}

#[test]
fn elementary_functions_at_exact_points() {
    assert_eq!(Fixed::from_int(9).sqrt(), Fixed::from_int(3));
    assert_eq!(Fixed::from_int(-9).sqrt(), Fixed::zero());
    assert_eq!(Fixed::zero().exp(), Fixed::from_int(1));
    assert_eq!(Fixed::from_int(1).ln(), Fixed::zero());
    assert_eq!(Fixed::zero().ln().raw, i128::MIN);
    assert_eq!(Fixed::from_int(100).exp().raw, i128::MAX);
    assert_eq!(Fixed::from_int(-100).exp(), Fixed::zero());
    assert_eq!(Fixed::from_int(5).pow(Fixed::zero()), Fixed::from_int(1));
    assert_eq!(Fixed::zero().pow(Fixed::zero()), Fixed::from_int(1));
    assert_eq!(Fixed::zero().pow(Fixed::from_int(-1)).raw, i128::MAX);
    assert_eq!(Fixed::zero().sin(), Fixed::zero());
    assert_eq!(Fixed::zero().cos(), Fixed::from_int(1));
    assert_eq!(Fixed::zero().atan2(Fixed::zero()), Fixed::zero());
    assert_eq!(Fixed::from_int(3).hypot(Fixed::from_int(4)), Fixed::from_int(5));
    assert_eq!(Fixed::from_int(27).cbrt(), Fixed::from_int(3));
    assert_eq!(Fixed::from_int(-8).cbrt(), Fixed::from_int(-2));
    assert_eq!(Fixed::from_int(2).cbrt(), fx(1_259_921_049_894));
    assert_eq!(Fixed::zero().cbrt(), Fixed::zero());
    assert_eq!(Fixed::zero().ln_1p(), Fixed::zero());
    assert_eq!(Fixed::zero().exp_m1(), Fixed::zero());
    let half_turn = fx(3_141_592_653_589);
    assert!((half_turn.to_degrees().raw - Fixed::from_int(180).raw).abs() < 1_000);
    assert!((Fixed::from_int(180).to_radians().raw - half_turn.raw).abs() < 2);
    assert!((Fixed::from_int(8).pow(Fixed::from_ratio(1, 3)).raw - Fixed::from_int(2).raw).abs() < 100);
}

#[test]
fn quantizer_map_counts_pixels() {
    let pixels = [0xffff0000_u32, 0xff00ff00, 0xffff0000, 0xffff0000];
    let result = QuantizerMap.quantize(&pixels, 128);
    assert_eq!(result.color_to_count.len(), 2);
    assert_eq!(result.color_to_count[&0xffff0000], 3);
    assert_eq!(result.color_to_count[&0xff00ff00], 1);
    assert!(QuantizerMap.quantize(&[], 4).color_to_count.is_empty());
    assert_eq!(QuantizerWu::default(), QuantizerWu {});
    assert_eq!(QuantizerWsmeans::default(), QuantizerWsmeans {});
    assert_eq!(QuantizerCelebi::default(), QuantizerCelebi);
    assert_eq!(QuantizerWsmeans::MAX_ITERATIONS, 10);
}

#[test]
fn lab_points() {
    let provider = PointProviderLab;
    let red = provider.from_int(0xffff0000);
    assert!((red.0.raw as f64 / 1e12 - 53.2329).abs() < 0.001);
    assert!((red.1.raw as f64 / 1e12 - 80.0906).abs() < 0.001);
    assert!((red.2.raw as f64 / 1e12 - 67.2008).abs() < 0.001);
    assert_eq!(provider.to_int(red), 0xffff0000);
    assert_eq!(provider.distance(&red, &red), Fixed::zero());
    let a = (Fixed::from_int(1), Fixed::from_int(2), Fixed::from_int(3));
    let b = (Fixed::from_int(3), Fixed::from_int(5), Fixed::from_int(9));
    assert_eq!(lab_distance_squared(a, b), Fixed::from_int(49));
    assert_eq!(provider.distance(&a, &b), Fixed::from_int(49));
}

#[test]
fn templates() {
    let empty = EmptyTemplate {};
    assert_eq!(empty.source_color(), Some(0xff6750a4));
    assert_eq!(empty.variant(), Some(Variant::TonalSpot));
    assert_eq!(empty.platform(), Some(Platform::Phone));
    assert_eq!(empty.spec_version(), Some(SpecVersion::Spec2021));
    assert_eq!(empty.primary_palette_key_color(), None);
    assert_eq!(empty.error_palette_key_color(), None);
    let android = DefaultTemplate::NowInAndroid;
    assert_eq!(android.source_color(), Some(0xff8c4190));
    assert_eq!(android.primary_palette_key_color(), Some(0xff8c4190));
    assert_eq!(android.secondary_palette_key_color(), Some(0xffff8456));
    assert_eq!(android.tertiary_palette_key_color(), Some(0xffb3e9ff));
    assert_eq!(android.neutral_palette_key_color(), Some(0xff201a1b));
    assert_eq!(android.neutral_variant_palette_key_color(), None);
    let baseline = DefaultTemplate::Baseline;
    assert_eq!(baseline.source_color(), Some(0xff6750a4));
    assert_eq!(baseline.secondary_palette_key_color(), None);
    assert_eq!(baseline.tertiary_palette_key_color(), None);
    assert_eq!(baseline.neutral_palette_key_color(), None);
}
