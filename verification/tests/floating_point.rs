use material_color_utilities::contrast::{darker, lighter, ratio_of_tones};
use material_color_utilities::fixed::Fixed;
use material_color_utilities::hct::{Cam16, Hct, ViewingConditions};
use material_color_utilities::temperature::TemperatureCache;
use material_color_utilities::utils::color::{lab_from_argb, lstar_from_argb, xyz_from_argb};

fn as_float(value: Fixed) -> f64 {
    value.raw as f64 / 1e12
}

fn fx(value: f64) -> Fixed {
    Fixed { raw: (value * 1e12).round() as i128 }
}

fn linearized(channel: u8) -> f64 {
    let normalized = channel as f64 / 255.0;
    if normalized <= 0.040449936 {
        normalized / 12.92 * 100.0
    } else {
        ((normalized + 0.055) / 1.055).powf(2.4) * 100.0
    }
}

fn lab_f(t: f64) -> f64 {
    let e = 216.0 / 24389.0;
    let kappa = 24389.0 / 27.0;
    if t > e {
        t.powf(1.0 / 3.0)
    } else {
        (kappa * t + 16.0) / 116.0
    }
}

fn lab_inv_f(ft: f64) -> f64 {
    let e = 216.0 / 24389.0;
    let kappa = 24389.0 / 27.0;
    let ft3 = ft * ft * ft;
    if ft3 > e {
        ft3
    } else {
        (116.0 * ft - 16.0) / kappa
    }
}

fn y_from_lstar(lstar: f64) -> f64 {
    100.0 * lab_inv_f((lstar + 16.0) / 116.0)
}

fn xyz(argb: u32) -> [f64; 3] {
    let r = linearized((argb >> 16) as u8);
    let g = linearized((argb >> 8) as u8);
    let b = linearized(argb as u8);
    [
        0.41233895 * r + 0.35762064 * g + 0.18051042 * b,
        0.2126 * r + 0.7152 * g + 0.0722 * b,
        0.01932141 * r + 0.11916382 * g + 0.95034478 * b,
    ]
}

struct Conditions {
    aw: f64,
    nbb: f64,
    ncb: f64,
    c: f64,
    nc: f64,
    n: f64,
    rgb_d: [f64; 3],
    fl: f64,
    fl_root: f64,
    z: f64,
}

fn standard_conditions() -> Conditions {
    let white = [95.047, 100.0, 108.883];
    let adapting_luminance = 200.0 / std::f64::consts::PI * y_from_lstar(50.0) / 100.0;
    let r_w = white[0] * 0.401288 + white[1] * 0.650173 + white[2] * -0.051461;
    let g_w = white[0] * -0.250268 + white[1] * 1.204414 + white[2] * 0.045854;
    let b_w = white[0] * -0.002079 + white[1] * 0.048952 + white[2] * 0.953127;
    let f = 0.8 + 2.0 / 10.0;
    let c = 0.59 * (1.0 - (f - 0.9) * 10.0) + 0.69 * ((f - 0.9) * 10.0);
    let d = (f * (1.0 - (1.0 / 3.6) * ((-adapting_luminance - 42.0) / 92.0).exp())).clamp(0.0, 1.0);
    let rgb_d = [
        d * (100.0 / r_w) + 1.0 - d,
        d * (100.0 / g_w) + 1.0 - d,
        d * (100.0 / b_w) + 1.0 - d,
    ];
    let k = 1.0 / (5.0 * adapting_luminance + 1.0);
    let k4 = k * k * k * k;
    let k4_f = 1.0 - k4;
    let fl = k4 * adapting_luminance + 0.1 * k4_f * k4_f * (5.0 * adapting_luminance).cbrt();
    let n = y_from_lstar(50.0) / white[1];
    let z = 1.48 + n.sqrt();
    let nbb = 0.725 / n.powf(0.2);
    let factors = [
        (fl * rgb_d[0] * r_w / 100.0).powf(0.42),
        (fl * rgb_d[1] * g_w / 100.0).powf(0.42),
        (fl * rgb_d[2] * b_w / 100.0).powf(0.42),
    ];
    let rgb_a = [
        400.0 * factors[0] / (factors[0] + 27.13),
        400.0 * factors[1] / (factors[1] + 27.13),
        400.0 * factors[2] / (factors[2] + 27.13),
    ];
    let aw = (2.0 * rgb_a[0] + rgb_a[1] + 0.05 * rgb_a[2]) * nbb;
    Conditions { aw, nbb, ncb: nbb, c, nc: f, n, rgb_d, fl, fl_root: fl.powf(0.25), z }
}

fn hue_chroma_j(argb: u32, vc: &Conditions) -> [f64; 3] {
    let [x, y, z] = xyz(argb);
    let r_d = vc.rgb_d[0] * (x * 0.401288 + y * 0.650173 + z * -0.051461);
    let g_d = vc.rgb_d[1] * (x * -0.250268 + y * 1.204414 + z * 0.045854);
    let b_d = vc.rgb_d[2] * (x * -0.002079 + y * 0.048952 + z * 0.953127);
    let adapt = |v: f64| {
        let af = (vc.fl * v.abs() / 100.0).powf(0.42);
        v.signum() * 400.0 * af / (af + 27.13)
    };
    let (r_a, g_a, b_a) = (adapt(r_d), adapt(g_d), adapt(b_d));
    let a = (11.0 * r_a - 12.0 * g_a + b_a) / 11.0;
    let b = (r_a + g_a - 2.0 * b_a) / 9.0;
    let u = (20.0 * r_a + 20.0 * g_a + 21.0 * b_a) / 20.0;
    let lightness_term = (40.0 * r_a + 20.0 * g_a + b_a) / 20.0;
    let degrees = b.atan2(a).to_degrees();
    let hue = if degrees < 0.0 { degrees + 360.0 } else { degrees };
    let j = 100.0 * (lightness_term * vc.nbb / vc.aw).powf(vc.c * vc.z);
    let hue_prime = if hue < 20.14 { hue + 360.0 } else { hue };
    let e_hue = 0.25 * ((hue_prime.to_radians() + 2.0).cos() + 3.8);
    let hue_factor = 50000.0 / 13.0 * e_hue * vc.nc * vc.ncb;
    let t = hue_factor * a.hypot(b) / (u + 0.305);
    let alpha = (1.64 - 0.29_f64.powf(vc.n)).powf(0.73) * t.powf(0.9);
    [hue, alpha * (j / 100.0).sqrt(), j]
}

#[test]
fn viewing_conditions_agree_with_floating_point() {
    let float = standard_conditions();
    let fixed = ViewingConditions::standard();
    assert!((as_float(fixed.aw) - float.aw).abs() < 1e-8);
    assert!((as_float(fixed.nbb) - float.nbb).abs() < 1e-9);
    assert!((as_float(fixed.ncb) - float.ncb).abs() < 1e-9);
    assert!((as_float(fixed.c) - float.c).abs() < 1e-9);
    assert!((as_float(fixed.nc) - float.nc).abs() < 1e-9);
    assert!((as_float(fixed.n) - float.n).abs() < 1e-9);
    assert!((as_float(fixed.fl) - float.fl).abs() < 1e-9);
    assert!((as_float(fixed.fl_root) - float.fl_root).abs() < 1e-9);
    assert!((as_float(fixed.z) - float.z).abs() < 1e-9);
    assert!((as_float(fixed.rgb_d.0) - float.rgb_d[0]).abs() < 1e-9);
    assert!((as_float(fixed.rgb_d.1) - float.rgb_d[1]).abs() < 1e-9);
    assert!((as_float(fixed.rgb_d.2) - float.rgb_d[2]).abs() < 1e-9);
}

#[test]
fn colour_measures_agree_with_floating_point() {
    let vc = standard_conditions();
    let mut worst: f64 = 0.0;
    for r in (0..=255u32).step_by(17) {
        for g in (0..=255u32).step_by(51) {
            for b in (0..=255u32).step_by(15) {
                let argb = 0xff000000 | (r << 16) | (g << 8) | b;
                let [x, y, z] = xyz(argb);
                let fixed_xyz = xyz_from_argb(argb);
                worst = worst.max((as_float(fixed_xyz.0) - x).abs());
                worst = worst.max((as_float(fixed_xyz.1) - y).abs());
                worst = worst.max((as_float(fixed_xyz.2) - z).abs());
                let lstar = 116.0 * lab_f(y / 100.0) - 16.0;
                worst = worst.max((as_float(lstar_from_argb(argb)) - lstar).abs());
                let lab = lab_from_argb(argb);
                worst = worst.max((as_float(lab.0) - lstar).abs());
                let cam = Cam16::from_int(argb);
                let [hue, chroma, j] = hue_chroma_j(argb, &vc);
                if chroma > 0.5 {
                    worst = worst.max((as_float(cam.hue) - hue).abs());
                }
                worst = worst.max((as_float(cam.chroma) - chroma).abs());
                worst = worst.max((as_float(cam.j) - j).abs());
                let hct = Hct::from_int(argb);
                assert_eq!(hct.hue(), cam.hue);
                assert_eq!(hct.chroma(), cam.chroma);
                assert_eq!(hct.to_int(), argb);
            }
        }
    }
    assert!(worst < 1e-6, "worst difference {}", worst);
}

#[test]
fn contrast_agrees_with_floating_point() {
    let ratio = |t1: f64, t2: f64| {
        let (y1, y2) = (y_from_lstar(t1.clamp(0.0, 100.0)), y_from_lstar(t2.clamp(0.0, 100.0)));
        (y1.max(y2) + 5.0) / (y1.min(y2) + 5.0)
    };
    let mut tone = 0.0;
    while tone <= 100.0 {
        let mut other = 0.0;
        while other <= 100.0 {
            let fixed = ratio_of_tones(fx(tone), fx(other));
            assert!((as_float(fixed) - ratio(tone, other)).abs() < 1e-9);
            other += 12.5;
        }
        for wanted in [1.5, 3.0, 4.5, 7.0] {
            let dark_y = y_from_lstar(tone);
            let light_y = wanted * (dark_y + 5.0) - 5.0;
            let up = lighter(fx(tone), fx(wanted));
            if (0.0..=100.0).contains(&light_y) && up != Fixed::from_int(-1) {
                let expected = 116.0 * lab_f(light_y / 100.0) - 16.0 + 0.4;
                assert!((as_float(up) - expected).abs() < 1e-8, "{} {} {} {}", tone, wanted, as_float(up), expected);
            }
            let down_y = (dark_y + 5.0) / wanted - 5.0;
            let down = darker(fx(tone), fx(wanted));
            if (0.0..=100.0).contains(&down_y) && down != Fixed::from_int(-1) {
                let expected = 116.0 * lab_f(down_y / 100.0) - 16.0 - 0.4;
                assert!((as_float(down) - expected).abs() < 1e-8, "{} {} {} {}", tone, wanted, as_float(down), expected);
            }
        }
        tone += 6.25;
    }
}

#[test]
fn temperatures_agree_with_floating_point() {
    for argb in [0xff0000ff_u32, 0xffff0000, 0xff00ff00, 0xff6750a4, 0xff123456] {
        let [x, y, z] = xyz(argb);
        let (fx_, fy, fz) = (lab_f(x / 95.047), lab_f(y / 100.0), lab_f(z / 108.883));
        let (a, b) = (500.0 * (fx_ - fy), 200.0 * (fy - fz));
        let hue = b.atan2(a).to_degrees().rem_euclid(360.0);
        let chroma = a.hypot(b);
        let expected = -0.5 + 0.02 * chroma.powf(1.07) * ((hue - 50.0).rem_euclid(360.0)).to_radians().cos();
        let fixed = TemperatureCache::raw_temperature(Hct::from_int(argb));
        assert!((as_float(fixed) - expected).abs() < 1e-8);
    }
}
