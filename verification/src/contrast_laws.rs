//! Why the tones that `lighter` and `darker` return have the contrast asked
//! of them.
//!
//! Lightness and luminance are exact functions of integers here: a cube
//! taken by two rounded products one way, an exact integer cube root the
//! other way. Moving a tone by 0.4 moves its luminance by far more than
//! all rounding together, and that is what the contrast needs.
use vstd::prelude::*;
use crate::contrast::{
    darker, darker_unsafe, darker_y, in_percent_range, lemma_ratio_of_tones_is_symmetric, lighter,
    lighter_unsafe, lighter_y, ratio_of_tones, ratio_of_ys, LUMINANCE_GAMUT_MAP_TOLERANCE,
};
use crate::dynamiccolor::color_calculation_spec::ToneInputs;
use crate::dynamiccolor::color_calculation_spec_2021::ColorCalculationSpec2021;
use crate::dynamiccolor::color_calculation_spec_2025::ColorCalculationSpec2025;
use crate::dynamiccolor::dynamic_color::{DynamicColor, RoleDefinition};
use crate::dynamiccolor::dynamic_scheme::DynamicScheme;
use crate::fixed::arith::{is_cbrt_of, lemma_cbrt_unique, lemma_cube_is_monotone};
use crate::fixed::{fx, Fixed, MINUS_ONE, SCALE};
use crate::utils::color::{
    lstar_from_y, lstar_from_y_spec, y_from_lstar, y_from_lstar_spec, LAB_EPSILON, LAB_KAPPA,
};

verus! {

/// The cube root of the knee of the L*a*b* function, rounded down.
pub const KNEE_ROOT: i128 = 206_896_551_724;

/// The tolerance of 0.4 in lightness as a step of the cube root: 0.4 /
/// 116, rounded down.
pub const TOLERANCE_STEP: i128 = 3_448_275_862;

/// The lightness of the knee of the L*a*b* function, rounded down.
pub const KNEE_LIGHTNESS: i128 = 7_999_999_999_967;

/// The greatest cube root of a lightness that lies 0.4 below the knee.
pub const BELOW_KNEE_ROOT: i128 = 203_448_275_861;

/// A cube root just above that of the knee.
pub const ABOVE_KNEE_ROOT: i128 = 206_896_551_800;

/// A cube root whose lightness, lowered by 0.4, is still below the knee.
pub const CROSSING_ROOT: i128 = 210_000_000_000;

/// A luminance, as a share of white, that every cube root above
/// `CROSSING_ROOT` reaches.
pub const CROSSING_LIGHTNESS: i128 = 9_261_000_000;

/// The cube of a number of raw units, in raw units: two products, each
/// rounded down.
pub open spec fn cube_int(ft: int) -> int {
    (((ft * ft) / (SCALE as int)) * ft) / (SCALE as int)
}

/// The luminance of a lightness, both in raw units.
pub open spec fn y_int(l: int) -> int {
    let ft = (l + 16 * SCALE) / 116;
    if cube_int(ft) > LAB_EPSILON {
        100 * cube_int(ft)
    } else {
        100 * ((l * SCALE) / (LAB_KAPPA as int))
    }
}

/// The cube root of `t` raw units, in raw units.
pub open spec fn cbrt_int(t: int) -> int {
    let n = t * SCALE * SCALE;
    choose|r: int| is_cbrt_of(r, n)
}

/// The lightness of a luminance, both in raw units.
pub open spec fn l_int(y: int) -> int {
    let t = y / 100;
    if t > LAB_EPSILON {
        116 * cbrt_int(t) - 16 * SCALE
    } else {
        (LAB_KAPPA * t) / (SCALE as int)
    }
}

/// A quotient rounded down, times its divisor, is at most the dividend
/// and less than one divisor below it.
pub proof fn lemma_floor_bounds(a: int, d: int)
    requires
        d > 0,
    ensures
        (a / d) * d <= a < (a / d) * d + d,
{
    assert((a / d) * d <= a < (a / d) * d + d) by (nonlinear_arith)
        requires
            d > 0,
    ;
}

/// The rounded cube is at most the exact one, and short of it by less
/// than the roundings can take away.
pub proof fn lemma_cube_int_bounds(ft: int)
    requires
        0 <= ft <= 2 * SCALE,
    ensures
        0 <= cube_int(ft),
        cube_int(ft) * SCALE * SCALE <= ft * ft * ft,
        ft * ft * ft - 2 * SCALE * SCALE - SCALE * SCALE < cube_int(ft) * SCALE * SCALE,
{
    let s = SCALE as int;
    let sq = ft * ft;
    let m1 = sq / s;
    assert(sq >= 0) by (nonlinear_arith)
        requires
            sq == ft * ft,
    ;
    lemma_floor_bounds(sq, s);
    assert(m1 >= 0) by (nonlinear_arith)
        requires
            m1 * s <= sq < m1 * s + s,
            sq >= 0,
            s > 0,
    ;
    let p = m1 * ft;
    assert(p >= 0) by (nonlinear_arith)
        requires
            p == m1 * ft,
            m1 >= 0,
            ft >= 0,
    ;
    lemma_floor_bounds(p, s);
    let f3 = p / s;
    assert(f3 == cube_int(ft));
    assert(f3 >= 0) by (nonlinear_arith)
        requires
            f3 * s <= p < f3 * s + s,
            p >= 0,
            s > 0,
    ;
    // upper: f3 * s <= m1 * ft and m1 * s <= ft * ft
    assert(f3 * s * s <= ft * ft * ft) by (nonlinear_arith)
        requires
            f3 * s <= m1 * ft,
            m1 * s <= ft * ft,
            ft >= 0,
            s > 0,
            f3 >= 0,
            m1 >= 0,
    ;
    // lower: f3 * s > m1 * ft - s and m1 * s > ft * ft - s
    assert(ft * ft * ft - s * ft - s * s < f3 * s * s) by (nonlinear_arith)
        requires
            m1 * ft < f3 * s + s,
            ft * ft < m1 * s + s,
            ft >= 0,
            s > 0,
    ;
    assert(s * ft <= 2 * s * s) by (nonlinear_arith)
        requires
            0 <= ft <= 2 * s,
            s > 0,
    ;
}

/// Every number that is not negative has an integer cube root.
pub proof fn lemma_cbrt_exists(n: int)
    requires
        n >= 0,
    ensures
        exists|r: int| is_cbrt_of(r, n),
    decreases n,
{
    if n == 0 {
        assert(is_cbrt_of(0, 0));
    } else {
        let before = n - 1;
        lemma_cbrt_exists(before);
        let r = choose|r: int| is_cbrt_of(r, before);
        if n < (r + 1) * (r + 1) * (r + 1) {
            assert(is_cbrt_of(r, n));
        } else {
            assert((r + 1) * (r + 1) * (r + 1) < (r + 2) * (r + 2) * (r + 2)) by (nonlinear_arith)
                requires
                    r >= 0,
            ;
            assert(is_cbrt_of(r + 1, n));
        }
    }
}

/// The cube root of a lightness above the knee: between the root of the
/// knee and one.
pub proof fn lemma_cbrt_int_bounds(t: int)
    requires
        LAB_EPSILON < t <= SCALE,
    ensures
        is_cbrt_of(cbrt_int(t), t * SCALE * SCALE),
        KNEE_ROOT <= cbrt_int(t) <= SCALE,
{
    let s = SCALE as int;
    let n = t * s * s;
    assert(n >= 0) by (nonlinear_arith)
        requires
            n == t * s * s,
            t >= 0,
            s >= 0,
    ;
    lemma_cbrt_exists(n);
    let c = cbrt_int(t);
    assert(is_cbrt_of(c, n));
    if c + 1 <= KNEE_ROOT {
        lemma_cube_is_monotone(c + 1, KNEE_ROOT as int);
        assert(KNEE_ROOT * KNEE_ROOT * KNEE_ROOT <= (LAB_EPSILON + 1) * s * s);
        assert((LAB_EPSILON + 1) * s * s <= t * s * s) by (nonlinear_arith)
            requires
                LAB_EPSILON + 1 <= t,
                s > 0,
        ;
        assert(false);
    }
    if c >= s + 1 {
        lemma_cube_is_monotone(s + 1, c);
        assert(t * s * s <= s * s * s) by (nonlinear_arith)
            requires
                t <= s,
                s > 0,
        ;
        assert((s + 1) * (s + 1) * (s + 1) > s * s * s) by (nonlinear_arith)
            requires
                s > 0,
        ;
        assert(false);
    }
}

/// A tone raised by 0.4 has more luminance, by at least one raw unit:
/// for a luminance `y`, the luminance of the lightness of `y` plus 0.4 is
/// above `y`.
pub proof fn lemma_raised_lightness_is_lighter(y: int)
    requires
        0 <= y <= 100 * SCALE,
    ensures
        y_int(l_int(y) + LUMINANCE_GAMUT_MAP_TOLERANCE) >= y + 1,
{
    let s = SCALE as int;
    let t = y / 100;
    let tolerance = LUMINANCE_GAMUT_MAP_TOLERANCE as int;
    if t > LAB_EPSILON {
        lemma_cbrt_int_bounds(t);
        let c = cbrt_int(t);
        let n = t * s * s;
        let raised = 116 * c - 16 * s + tolerance;
        let ft = (raised + 16 * s) / 116;
        assert(ft == c + TOLERANCE_STEP);
        lemma_cube_int_bounds(ft);
        let f3 = cube_int(ft);
        assert(ft * ft * ft >= c * c * c + 3 * (c * c) * TOLERANCE_STEP) by (nonlinear_arith)
            requires
                ft == c + TOLERANCE_STEP,
                c >= 0,
        ;
        assert((c + 1) * (c + 1) * (c + 1) == c * c * c + 3 * (c * c) + 3 * c + 1)
            by (nonlinear_arith);
        assert(c * c >= KNEE_ROOT * KNEE_ROOT) by (nonlinear_arith)
            requires
                c >= KNEE_ROOT,
        ;
        assert(3 * (c * c) * (TOLERANCE_STEP - 1) >= 3 * (KNEE_ROOT * KNEE_ROOT) * (TOLERANCE_STEP
            - 1)) by (nonlinear_arith)
            requires
                c * c >= KNEE_ROOT * KNEE_ROOT,
        ;
        assert(3 * (KNEE_ROOT * KNEE_ROOT) * (TOLERANCE_STEP - 1) >= 3 * s + 1 + 4 * s * s);
        assert(3 * (c * c) * TOLERANCE_STEP == 3 * (c * c) * (TOLERANCE_STEP - 1) + 3 * (c * c))
            by (nonlinear_arith);
        assert(f3 * s * s > (t + 1) * s * s) by (nonlinear_arith)
            requires
                ft * ft * ft - 2 * s * s - s * s < f3 * s * s,
                ft * ft * ft >= c * c * c + 3 * (c * c) * TOLERANCE_STEP,
                t * s * s < c * c * c + 3 * (c * c) + 3 * c + 1,
                3 * (c * c) * TOLERANCE_STEP >= 3 * s + 1 + 4 * s * s + 3 * (c * c),
                c <= s,
        ;
        assert(f3 > t + 1) by (nonlinear_arith)
            requires
                f3 * s * s > (t + 1) * s * s,
                s > 0,
        ;
    } else {
        let low = (LAB_KAPPA * t) / s;
        lemma_floor_bounds(LAB_KAPPA * t, s);
        let raised = low + tolerance;
        let ft = (raised + 16 * s) / 116;
        if cube_int(ft) > LAB_EPSILON {
        } else {
            let q = (raised * s) / (LAB_KAPPA as int);
            lemma_floor_bounds(raised * s, LAB_KAPPA as int);
            assert(raised * s == low * s + tolerance * s) by (nonlinear_arith)
                requires
                    raised == low + tolerance,
            ;
            assert(tolerance * s - s >= 2 * LAB_KAPPA);
            assert(q * LAB_KAPPA > LAB_KAPPA * (t + 1)) by (nonlinear_arith)
                requires
                    raised * s < q * LAB_KAPPA + LAB_KAPPA,
                    raised * s == low * s + tolerance * s,
                    LAB_KAPPA * t < low * s + s,
                    tolerance * s - s >= 2 * LAB_KAPPA,
            ;
            assert(q > t + 1) by (nonlinear_arith)
                requires
                    q * LAB_KAPPA > LAB_KAPPA * (t + 1),
                    LAB_KAPPA > 0,
            ;
        }
    }
}

/// A tone lowered by 0.4 has less luminance, by at least one raw unit:
/// for a luminance `y` whose lightness is at least 0.4, the luminance of
/// that lightness less 0.4 is below `y`, and not negative.
pub proof fn lemma_lowered_lightness_is_darker(y: int)
    requires
        0 <= y <= 100 * SCALE,
        l_int(y) - LUMINANCE_GAMUT_MAP_TOLERANCE >= 0,
    ensures
        0 <= y_int(l_int(y) - LUMINANCE_GAMUT_MAP_TOLERANCE) <= y - 1,
{
    let s = SCALE as int;
    let t = y / 100;
    let tolerance = LUMINANCE_GAMUT_MAP_TOLERANCE as int;
    let lowered = l_int(y) - tolerance;
    let ft = (lowered + 16 * s) / 116;
    let q = (lowered * s) / (LAB_KAPPA as int);
    lemma_floor_bounds(lowered * s, LAB_KAPPA as int);
    assert(lowered * s >= 0) by (nonlinear_arith)
        requires
            lowered >= 0,
            s > 0,
    ;
    assert(q >= 0) by (nonlinear_arith)
        requires
            lowered * s < q * LAB_KAPPA + LAB_KAPPA,
            lowered * s >= 0,
            LAB_KAPPA > 0,
    ;
    if t > LAB_EPSILON {
        lemma_cbrt_int_bounds(t);
        let c = cbrt_int(t);
        assert(lowered == 116 * c - 16 * s - tolerance);
        assert(ft == c - TOLERANCE_STEP - 1);
        assert(ft >= 0);
        lemma_cube_int_bounds(ft);
        let f3 = cube_int(ft);
        if f3 > LAB_EPSILON {
            let step = TOLERANCE_STEP + 1;
            assert(ft * ft * ft <= c * c * c - 3 * c * step * (c - step)) by (nonlinear_arith)
                requires
                    ft == c - step,
                    step >= 0,
                    ft >= 0,
            ;
            assert(3 * c * step * (c - step) >= 3 * KNEE_ROOT * step * (KNEE_ROOT - step))
                by (nonlinear_arith)
                requires
                    c >= KNEE_ROOT,
                    KNEE_ROOT > step,
                    step > 0,
            ;
            assert(3 * KNEE_ROOT * step * (KNEE_ROOT - step) >= s * s);
            assert(f3 * s * s <= (t - 1) * s * s) by (nonlinear_arith)
                requires
                    f3 * s * s <= ft * ft * ft,
                    ft * ft * ft <= c * c * c - 3 * c * step * (c - step),
                    3 * c * step * (c - step) >= s * s,
                    c * c * c <= t * s * s,
            ;
            assert(f3 <= t - 1) by (nonlinear_arith)
                requires
                    f3 * s * s <= (t - 1) * s * s,
                    s > 0,
            ;
        } else if c <= CROSSING_ROOT {
            assert(lowered <= 116 * CROSSING_ROOT - 16 * s - tolerance);
            assert(lowered * s <= (116 * CROSSING_ROOT - 16 * s - tolerance) * s)
                by (nonlinear_arith)
                requires
                    lowered <= 116 * CROSSING_ROOT - 16 * s - tolerance,
                    s > 0,
            ;
            assert((116 * CROSSING_ROOT - 16 * s - tolerance) * s < (LAB_EPSILON + 1) * LAB_KAPPA);
            assert(q <= LAB_EPSILON) by (nonlinear_arith)
                requires
                    q * LAB_KAPPA <= lowered * s,
                    lowered * s < (LAB_EPSILON + 1) * LAB_KAPPA,
                    LAB_KAPPA > 0,
            ;
        } else {
            // The lowered tone has crossed the knee from well above it.
            lemma_cube_is_monotone(CROSSING_ROOT + 1, c);
            assert((CROSSING_ROOT + 1) * (CROSSING_ROOT + 1) * (CROSSING_ROOT + 1)
                >= CROSSING_LIGHTNESS * s * s);
            assert(t >= CROSSING_LIGHTNESS) by (nonlinear_arith)
                requires
                    CROSSING_LIGHTNESS * s * s <= c * c * c,
                    c * c * c <= t * s * s,
                    s > 0,
            ;
            if ft >= ABOVE_KNEE_ROOT {
                lemma_cube_is_monotone(ABOVE_KNEE_ROOT as int, ft);
                assert(ABOVE_KNEE_ROOT * ABOVE_KNEE_ROOT * ABOVE_KNEE_ROOT - 3 * s * s >= (
                LAB_EPSILON + 1) * s * s);
                assert(f3 > LAB_EPSILON) by (nonlinear_arith)
                    requires
                        ft * ft * ft - 2 * s * s - s * s < f3 * s * s,
                        ft * ft * ft >= (LAB_EPSILON + 1) * s * s + 3 * s * s,
                        s > 0,
                ;
                assert(false);
            }
            assert(lowered + 16 * s < 116 * ft + 116);
            assert(lowered < 116 * ABOVE_KNEE_ROOT + 116 - 16 * s);
            assert(lowered * s <= (116 * ABOVE_KNEE_ROOT + 116 - 16 * s) * s) by (nonlinear_arith)
                requires
                    lowered < 116 * ABOVE_KNEE_ROOT + 116 - 16 * s,
                    s > 0,
            ;
            assert((116 * ABOVE_KNEE_ROOT + 116 - 16 * s) * s < (CROSSING_LIGHTNESS - 1)
                * LAB_KAPPA);
            assert(q <= CROSSING_LIGHTNESS - 2) by (nonlinear_arith)
                requires
                    q * LAB_KAPPA <= lowered * s,
                    lowered * s < (CROSSING_LIGHTNESS - 1) * LAB_KAPPA,
                    LAB_KAPPA > 0,
            ;
        }
    } else {
        let low = (LAB_KAPPA * t) / s;
        lemma_floor_bounds(LAB_KAPPA * t, s);
        assert(lowered == low - tolerance);
        assert(LAB_KAPPA * t <= LAB_KAPPA * LAB_EPSILON) by (nonlinear_arith)
            requires
                t <= LAB_EPSILON,
                LAB_KAPPA > 0,
        ;
        assert(low <= KNEE_LIGHTNESS) by (nonlinear_arith)
            requires
                low * s <= LAB_KAPPA * t,
                LAB_KAPPA * t <= LAB_KAPPA * LAB_EPSILON,
                LAB_KAPPA * LAB_EPSILON < (KNEE_LIGHTNESS + 1) * s,
                s > 0,
        ;
        assert(0 <= ft <= BELOW_KNEE_ROOT);
        lemma_cube_int_bounds(ft);
        lemma_cube_is_monotone(ft, BELOW_KNEE_ROOT as int);
        assert(BELOW_KNEE_ROOT * BELOW_KNEE_ROOT * BELOW_KNEE_ROOT <= LAB_EPSILON * s * s);
        assert(cube_int(ft) <= LAB_EPSILON) by (nonlinear_arith)
            requires
                cube_int(ft) * s * s <= ft * ft * ft,
                ft * ft * ft <= LAB_EPSILON * s * s,
                s > 0,
        ;
        assert(lowered * s == low * s - tolerance * s) by (nonlinear_arith)
            requires
                lowered == low - tolerance,
        ;
        assert(tolerance * s >= LAB_KAPPA);
        assert(q <= t - 1) by (nonlinear_arith)
            requires
                q * LAB_KAPPA <= lowered * s,
                lowered * s == low * s - tolerance * s,
                low * s <= LAB_KAPPA * t,
                tolerance * s >= LAB_KAPPA,
                LAB_KAPPA > 0,
        ;
    }
}

/// The luminance of a lightness from 0 to 100 lies within 0 and 100.
pub proof fn lemma_y_int_is_a_share(l: int)
    requires
        0 <= l <= 100 * SCALE,
    ensures
        0 <= y_int(l) <= 100 * SCALE,
{
    let s = SCALE as int;
    let ft = (l + 16 * s) / 116;
    assert(0 <= ft <= s);
    lemma_cube_int_bounds(ft);
    lemma_cube_is_monotone(ft, s);
    assert(cube_int(ft) <= s) by (nonlinear_arith)
        requires
            cube_int(ft) * s * s <= ft * ft * ft,
            ft * ft * ft <= s * s * s,
            s > 0,
    ;
    let q = (l * s) / (LAB_KAPPA as int);
    lemma_floor_bounds(l * s, LAB_KAPPA as int);
    assert(0 <= l * s <= 100 * s * s) by (nonlinear_arith)
        requires
            0 <= l <= 100 * s,
            s > 0,
    ;
    assert(0 <= q <= s) by (nonlinear_arith)
        requires
            q * LAB_KAPPA <= l * s,
            l * s < q * LAB_KAPPA + LAB_KAPPA,
            0 <= l * s <= 100 * s * s,
            100 * s * s <= s * LAB_KAPPA,
            LAB_KAPPA > 0,
    ;
}

/// On lightnesses from 0 to 100, `y_from_lstar` is `y_int`.
pub proof fn lemma_y_from_lstar_is_y_int(lstar: Fixed)
    requires
        0 <= lstar.raw <= 100 * SCALE,
    ensures
        y_from_lstar(lstar).raw == y_int(lstar.raw as int),
        0 <= y_from_lstar(lstar).raw <= 100 * SCALE,
{
    reveal(y_from_lstar_spec);
    let s = SCALE as int;
    let l = lstar.raw as int;
    let ft = (l + 16 * s) / 116;
    assert(0 <= ft <= s);
    lemma_y_int_is_a_share(l);
    lemma_cube_int_bounds(ft);
    assert(0 <= ft * ft <= s * s) by (nonlinear_arith)
        requires
            0 <= ft <= s,
    ;
    let m1 = (ft * ft) / s;
    lemma_floor_bounds(ft * ft, s);
    assert(0 <= m1 <= s) by (nonlinear_arith)
        requires
            m1 * s <= ft * ft,
            ft * ft < m1 * s + s,
            0 <= ft * ft <= s * s,
            s > 0,
    ;
    assert(0 <= m1 * ft <= s * s) by (nonlinear_arith)
        requires
            0 <= m1 <= s,
            0 <= ft <= s,
    ;
    assert(0 <= l * s <= 100 * s * s) by (nonlinear_arith)
        requires
            0 <= l <= 100 * s,
            s > 0,
    ;
    let as_fixed = Fixed { raw: ft as i128 };
    assert(lstar.plus(Fixed::from_int(16)).over_int(116) == as_fixed);
    assert(as_fixed.times(as_fixed).raw == m1);
    assert(as_fixed.times(as_fixed).times(as_fixed).raw == cube_int(ft));
    assert(lstar.over(fx(LAB_KAPPA)).raw == (l * s) / (LAB_KAPPA as int));
}

/// On luminances from 0 to 100, `lstar_from_y` is `l_int`.
pub proof fn lemma_lstar_from_y_is_l_int(y: Fixed)
    requires
        0 <= y.raw <= 100 * SCALE,
    ensures
        lstar_from_y(y).raw == l_int(y.raw as int),
{
    reveal(lstar_from_y_spec);
    let s = SCALE as int;
    let t = (y.raw as int) / 100;
    assert(0 <= t <= s);
    if t > LAB_EPSILON {
        lemma_cbrt_int_bounds(t);
        let n = t * s * s;
        assert(0 <= n <= s * s * s) by (nonlinear_arith)
            requires
                n == t * s * s,
                0 <= t <= s,
        ;
        let c = cbrt_int(t);
        let as_fixed = Fixed { raw: t as i128 };
        assert(y.over_int(100) == as_fixed);
        let root = as_fixed.cbrt().raw as int;
        assert(t * crate::fixed::elementary::SCALE_SQUARED == n) by (nonlinear_arith)
            requires
                n == t * s * s,
                s == 1_000_000_000_000,
                crate::fixed::elementary::SCALE_SQUARED == 1_000_000_000_000_000_000_000_000,
        ;
        let inner = crate::fixed::arith::sat_mul(
            t as i128,
            crate::fixed::elementary::SCALE_SQUARED,
        );
        assert(inner == n);
        let chosen = choose|r: int| is_cbrt_of(r, inner as int);
        assert(is_cbrt_of(c, inner as int));
        assert(is_cbrt_of(chosen, inner as int));
        lemma_cbrt_unique(chosen, c, n);
        assert(root == c);
    } else {
        assert(0 <= LAB_KAPPA * t <= LAB_KAPPA * s) by (nonlinear_arith)
            requires
                0 <= t <= s,
                LAB_KAPPA > 0,
        ;
    }
}

/// The tone that `lighter` returns has the contrast asked for: for every
/// tone and every ratio of at least one, the contrast ratio of the tone
/// and the lighter tone is at least the ratio, where there is a lighter
/// tone.
pub proof fn lemma_lighter_reaches_ratio(tone: Fixed, ratio: Fixed)
    requires
        ratio.raw >= SCALE,
        lighter(tone, ratio) != fx(MINUS_ONE),
    ensures
        ratio_of_tones(tone, lighter(tone, ratio)).raw >= ratio.raw,
{
    let s = SCALE as int;
    let out = lighter(tone, ratio);
    assert(in_percent_range(tone));
    lemma_y_from_lstar_is_y_int(tone);
    let dark = y_from_lstar(tone);
    let a = dark.raw + 5 * s;
    let light = lighter_y(tone, ratio);
    assert(in_percent_range(light));
    let product = ratio.raw * a;
    assert(product >= s * a) by (nonlinear_arith)
        requires
            product == ratio.raw * a,
            ratio.raw >= s,
            a > 0,
    ;
    assert(product <= i128::MAX);
    lemma_floor_bounds(product, s);
    assert(light.raw == product / s - 5 * s);
    assert(product / s >= a) by (nonlinear_arith)
        requires
            product >= s * a,
            product < (product / s) * s + s,
            s > 0,
    ;
    lemma_lstar_from_y_is_l_int(light);
    lemma_raised_lightness_is_lighter(light.raw as int);
    assert(out.raw == l_int(light.raw as int) + LUMINANCE_GAMUT_MAP_TOLERANCE);
    assert(in_percent_range(out));
    lemma_y_from_lstar_is_y_int(out);
    let reached = y_from_lstar(out);
    assert(reached.raw >= light.raw + 1);
    assert(reached.raw > dark.raw);
    let numerator = (reached.raw + 5 * s) * s;
    assert(numerator >= product) by (nonlinear_arith)
        requires
            numerator == (reached.raw + 5 * s) * s,
            reached.raw + 5 * s >= product / s + 1,
            product < (product / s) * s + s,
            s > 0,
    ;
    assert(0 <= numerator <= 105 * s * s) by (nonlinear_arith)
        requires
            numerator == (reached.raw + 5 * s) * s,
            0 <= reached.raw <= 100 * s,
            s > 0,
    ;
    lemma_floor_bounds(numerator, a);
    assert(numerator / a >= ratio.raw) by (nonlinear_arith)
        requires
            numerator >= ratio.raw * a,
            numerator < (numerator / a) * a + a,
            a > 0,
    ;
    assert(tone.clamp(Fixed::from_int(0), Fixed::from_int(100)) == tone);
    assert(out.clamp(Fixed::from_int(0), Fixed::from_int(100)) == out);
    assert(ratio_of_ys(dark, reached).raw == numerator / a);
}

/// The tone that `darker` returns has the contrast asked for: for every
/// tone and every ratio of at least one, the contrast ratio of the tone
/// and the darker tone is at least the ratio, where there is a darker
/// tone.
pub proof fn lemma_darker_reaches_ratio(tone: Fixed, ratio: Fixed)
    requires
        ratio.raw >= SCALE,
        darker(tone, ratio) != fx(MINUS_ONE),
    ensures
        ratio_of_tones(tone, darker(tone, ratio)).raw >= ratio.raw,
{
    let s = SCALE as int;
    let out = darker(tone, ratio);
    assert(in_percent_range(tone));
    lemma_y_from_lstar_is_y_int(tone);
    let light = y_from_lstar(tone);
    let a = light.raw + 5 * s;
    let dark = darker_y(tone, ratio);
    assert(in_percent_range(dark));
    let numerator = a * s;
    assert(0 < numerator <= 105 * s * s) by (nonlinear_arith)
        requires
            numerator == a * s,
            5 * s <= a <= 105 * s,
            s > 0,
    ;
    let quotient = numerator / (ratio.raw as int);
    lemma_floor_bounds(numerator, ratio.raw as int);
    assert(dark.raw == quotient - 5 * s);
    assert(quotient <= a) by (nonlinear_arith)
        requires
            quotient * ratio.raw <= numerator,
            numerator == a * s,
            ratio.raw >= s,
            s > 0,
            a > 0,
    ;
    lemma_lstar_from_y_is_l_int(dark);
    assert(out.raw == l_int(dark.raw as int) - LUMINANCE_GAMUT_MAP_TOLERANCE);
    assert(in_percent_range(out));
    lemma_lowered_lightness_is_darker(dark.raw as int);
    lemma_y_from_lstar_is_y_int(out);
    let reached = y_from_lstar(out);
    assert(0 <= reached.raw <= dark.raw - 1);
    assert(reached.raw < light.raw);
    let b = reached.raw + 5 * s;
    assert(b <= quotient - 1);
    assert(ratio.raw * b <= numerator) by (nonlinear_arith)
        requires
            0 < b <= quotient - 1,
            quotient * ratio.raw <= numerator,
            ratio.raw >= 0,
    ;
    lemma_floor_bounds(numerator, b);
    assert(numerator / b >= ratio.raw) by (nonlinear_arith)
        requires
            ratio.raw * b <= numerator,
            numerator < (numerator / b) * b + b,
            b > 0,
    ;
    assert(tone.clamp(Fixed::from_int(0), Fixed::from_int(100)) == tone);
    assert(out.clamp(Fixed::from_int(0), Fixed::from_int(100)) == out);
    assert(ratio_of_ys(light, reached).raw == numerator / b);
}

/// Whether some tone has the contrast `ratio` to `tone`: a lighter one or
/// a darker one.
pub open spec fn is_reachable(tone: Fixed, ratio: Fixed) -> bool {
    lighter(tone, ratio) != fx(MINUS_ONE) || darker(tone, ratio) != fx(MINUS_ONE)
}

/// The foreground tone has the contrast asked for wherever some tone has
/// it: for every background tone and every ratio of at least one that a
/// lighter or a darker tone reaches, the contrast ratio of the background
/// and its foreground tone is at least the ratio.
pub proof fn lemma_foreground_tone_reaches_ratio(bg_tone: Fixed, ratio: Fixed)
    requires
        ratio.raw >= SCALE,
        is_reachable(bg_tone, ratio),
    ensures
        ratio_of_tones(bg_tone, DynamicColor::foreground_tone(bg_tone, ratio)).raw >= ratio.raw,
{
    let lighter_tone = lighter_unsafe(bg_tone, ratio);
    let darker_tone = darker_unsafe(bg_tone, ratio);
    lemma_ratio_of_tones_is_symmetric(lighter_tone, bg_tone);
    lemma_ratio_of_tones_is_symmetric(darker_tone, bg_tone);
    if lighter(bg_tone, ratio) != fx(MINUS_ONE) {
        lemma_lighter_reaches_ratio(bg_tone, ratio);
        assert(lighter_tone == lighter(bg_tone, ratio));
    }
    if darker(bg_tone, ratio) != fx(MINUS_ONE) {
        lemma_darker_reaches_ratio(bg_tone, ratio);
        assert(darker_tone == darker(bg_tone, ratio));
    }
}

/// A foreground of the rules of 2021 has the contrast of its curve: a
/// role that is no background, has one background and no pair is resolved
/// to a tone that has, to the tone of its background, the contrast that
/// its curve wants at the scheme's contrast level, wherever that contrast
/// is at least one and some tone has it.
pub proof fn lemma_foreground_of_2021_has_its_contrast(scheme: &DynamicScheme, definition: &RoleDefinition, inputs: &ToneInputs)
    requires
        !definition.is_background,
        inputs.second_background.is_none(),
        inputs.background.is_some(),
        definition.contrast_curve.is_some(),
        definition.contrast_curve.unwrap().get(scheme.contrast_level).raw >= SCALE,
        is_reachable(
            inputs.background.unwrap(),
            definition.contrast_curve.unwrap().get(scheme.contrast_level),
        ),
    ensures
        ratio_of_tones(
            inputs.background.unwrap(),
            ColorCalculationSpec2021::single_tone(scheme, definition, inputs),
        ).raw >= definition.contrast_curve.unwrap().get(scheme.contrast_level).raw,
{
    lemma_foreground_tone_reaches_ratio(
        inputs.background.unwrap(),
        definition.contrast_curve.unwrap().get(scheme.contrast_level),
    );
}

/// A foreground of the rules of 2025 has the contrast of its curve, under
/// the same conditions as one of the rules of 2021.
pub proof fn lemma_foreground_of_2025_has_its_contrast(scheme: &DynamicScheme, definition: &RoleDefinition, inputs: &ToneInputs)
    requires
        !definition.is_background,
        inputs.second_background.is_none(),
        inputs.background.is_some(),
        definition.contrast_curve.is_some(),
        definition.contrast_curve.unwrap().get(scheme.contrast_level).raw >= SCALE,
        is_reachable(
            inputs.background.unwrap(),
            definition.contrast_curve.unwrap().get(scheme.contrast_level),
        ),
    ensures
        ratio_of_tones(
            inputs.background.unwrap(),
            ColorCalculationSpec2025::single_tone(scheme, definition, inputs),
        ).raw >= definition.contrast_curve.unwrap().get(scheme.contrast_level).raw,
{
    lemma_foreground_tone_reaches_ratio(
        inputs.background.unwrap(),
        definition.contrast_curve.unwrap().get(scheme.contrast_level),
    );
}

} // verus!
