//! Angle arithmetic and interpolation.
use vstd::prelude::*;
use crate::fixed::{Fixed, MINUS_ONE, SCALE};

verus! {

/// A full turn, in raw degrees.
pub const FULL_TURN: i128 = 360_000_000_000_000;

/// A half turn, in raw degrees.
pub const HALF_TURN: i128 = 180_000_000_000_000;

/// The point at `amount` of the way from `start` to `stop`:
/// `(1 - amount) * start + amount * stop`.
pub open spec fn lerp_spec(start: Fixed, stop: Fixed, amount: Fixed) -> Fixed {
    Fixed { raw: SCALE }.minus(amount).times(start).plus(amount.times(stop))
}

#[verifier::when_used_as_spec(lerp_spec)]
pub fn lerp(start: Fixed, stop: Fixed, amount: Fixed) -> (out: Fixed)
    ensures
        out == lerp_spec(start, stop, amount),
{
    Fixed { raw: SCALE }.minus(amount).times(start).plus(amount.times(stop))
}

/// The angle in `[0, 360)` that differs from `degrees` by whole turns.
pub open spec fn sanitize_degrees_spec(degrees: Fixed) -> Fixed {
    degrees.rem(Fixed { raw: FULL_TURN })
}

#[verifier::when_used_as_spec(sanitize_degrees_spec)]
pub fn sanitize_degrees(degrees: Fixed) -> (out: Fixed)
    ensures
        out == sanitize_degrees_spec(degrees),
        0 <= out.raw < FULL_TURN,
        (degrees.raw - out.raw) % (FULL_TURN as int) == 0,
        0 <= degrees.raw < FULL_TURN ==> out == degrees,
{
    proof {
        vstd::arithmetic::div_mod::lemma_fundamental_div_mod(degrees.raw as int, FULL_TURN as int);
        vstd::arithmetic::div_mod::lemma_mod_multiples_basic(
            degrees.raw as int / FULL_TURN as int,
            FULL_TURN as int,
        );
        if 0 <= degrees.raw < FULL_TURN {
            vstd::arithmetic::div_mod::lemma_small_mod(degrees.raw as nat, FULL_TURN as nat);
        }
    }
    degrees.rem(Fixed { raw: FULL_TURN })
}

/// The whole angle in `0..360` that differs from `degrees` by whole turns.
pub open spec fn sanitize_degrees_int_spec(degrees: i64) -> i64 {
    (degrees % 360) as i64
}

#[verifier::when_used_as_spec(sanitize_degrees_int_spec)]
pub fn sanitize_degrees_int(degrees: i64) -> (out: i64)
    ensures
        out == sanitize_degrees_int_spec(degrees),
        0 <= out < 360,
{
    match degrees.checked_rem_euclid(360) {
        Some(r) => r,
        None => 0,
    }
}

/// The sign of the shorter way round from `from` to `to`: one for
/// increasing degrees, minus one for decreasing.
pub open spec fn rotation_direction_spec(from: Fixed, to: Fixed) -> Fixed {
    if sanitize_degrees(to.minus(from)).raw <= HALF_TURN {
        Fixed { raw: SCALE }
    } else {
        Fixed { raw: MINUS_ONE }
    }
}

#[verifier::when_used_as_spec(rotation_direction_spec)]
pub fn rotation_direction(from: Fixed, to: Fixed) -> (out: Fixed)
    ensures
        out == rotation_direction_spec(from, to),
        out.raw == SCALE || out.raw == MINUS_ONE,
{
    if sanitize_degrees(to.minus(from)).raw <= HALF_TURN {
        Fixed { raw: SCALE }
    } else {
        Fixed { raw: MINUS_ONE }
    }
}

/// The distance between two angles around the circle:
/// `180 - | |a - b| - 180 |`.
pub open spec fn difference_degrees_spec(a: Fixed, b: Fixed) -> Fixed {
    Fixed { raw: HALF_TURN }.minus(a.minus(b).abs().minus(Fixed { raw: HALF_TURN }).abs())
}

#[verifier::when_used_as_spec(difference_degrees_spec)]
pub fn difference_degrees(a: Fixed, b: Fixed) -> (out: Fixed)
    ensures
        out == difference_degrees_spec(a, b),
        (0 <= a.raw < FULL_TURN && 0 <= b.raw < FULL_TURN) ==> 0 <= out.raw <= HALF_TURN,
{
    Fixed { raw: HALF_TURN }.minus(a.minus(b).abs().minus(Fixed { raw: HALF_TURN }).abs())
}

/// The sum of three numbers weighted by three raw coefficients: one row of
/// a matrix applied to a vector.
pub open spec fn weighted_sum_spec(v: (Fixed, Fixed, Fixed), k0: i128, k1: i128, k2: i128) -> Fixed {
    v.0.times(Fixed { raw: k0 }).plus(v.1.times(Fixed { raw: k1 })).plus(
        v.2.times(Fixed { raw: k2 }),
    )
}

#[verifier::when_used_as_spec(weighted_sum_spec)]
pub fn weighted_sum(v: (Fixed, Fixed, Fixed), k0: i128, k1: i128, k2: i128) -> (out: Fixed)
    ensures
        out == weighted_sum_spec(v, k0, k1, k2),
{
    v.0.times(Fixed { raw: k0 }).plus(v.1.times(Fixed { raw: k1 })).plus(
        v.2.times(Fixed { raw: k2 }),
    )
}

/// A matrix of raw coefficients, by rows.
pub type Matrix = ((i128, i128, i128), (i128, i128, i128), (i128, i128, i128));

/// A matrix, given by its rows, applied to a vector.
pub open spec fn matrix_multiply_spec(
    row: (Fixed, Fixed, Fixed),
    matrix: Matrix,
) -> (Fixed, Fixed, Fixed) {
    (
        weighted_sum(row, matrix.0.0, matrix.0.1, matrix.0.2),
        weighted_sum(row, matrix.1.0, matrix.1.1, matrix.1.2),
        weighted_sum(row, matrix.2.0, matrix.2.1, matrix.2.2),
    )
}

#[verifier::when_used_as_spec(matrix_multiply_spec)]
pub fn matrix_multiply(
    row: (Fixed, Fixed, Fixed),
    matrix: Matrix,
) -> (out: (Fixed, Fixed, Fixed))
    ensures
        out == matrix_multiply_spec(row, matrix),
{
    (
        weighted_sum(row, matrix.0.0, matrix.0.1, matrix.0.2),
        weighted_sum(row, matrix.1.0, matrix.1.1, matrix.1.2),
        weighted_sum(row, matrix.2.0, matrix.2.1, matrix.2.2),
    )
}

/// The distance between two angles does not depend on their order.
pub proof fn lemma_difference_is_symmetric(a: Fixed, b: Fixed)
    requires
        0 <= a.raw < FULL_TURN,
        0 <= b.raw < FULL_TURN,
    ensures
        difference_degrees_spec(a, b) == difference_degrees_spec(b, a),
{
}

} // verus!
