//! Colours as points of a colour space, for quantizers.
use vstd::prelude::*;
use crate::fixed::Fixed;
use crate::utils::color::{argb_from_lab, lab_from_argb};

verus! {

/// A colour space in which a quantizer measures distances.
pub trait PointProvider {
    /// A point of the space.
    type Point;

    /// The point of an sRGB colour.
    fn from_int(&self, argb: u32) -> Self::Point;

    /// The sRGB colour of a point.
    fn to_int(&self, point: Self::Point) -> u32;

    /// The squared distance of two points.
    fn distance(&self, a: &Self::Point, b: &Self::Point) -> Fixed;
}

/// The colour space L*a*b*.
#[derive(Clone, Copy, Debug, Default, PartialEq, Eq, Hash)]
pub struct PointProviderLab;

/// The square of the Euclidean distance of two points of L*a*b*: the CIE
/// 1976 colour difference without its square root, which orders pairs of
/// colours as the difference itself does.
#[verifier::opaque]
pub open spec fn lab_distance_squared_spec(
    one: (Fixed, Fixed, Fixed),
    two: (Fixed, Fixed, Fixed),
) -> Fixed {
    let d_l = one.0.minus(two.0);
    let d_a = one.1.minus(two.1);
    let d_b = one.2.minus(two.2);
    d_l.times(d_l).plus(d_a.times(d_a)).plus(d_b.times(d_b))
}

#[verifier::when_used_as_spec(lab_distance_squared_spec)]
pub fn lab_distance_squared(one: (Fixed, Fixed, Fixed), two: (Fixed, Fixed, Fixed)) -> (out: Fixed)
    ensures
        out == lab_distance_squared_spec(one, two),
{
    proof {
        reveal(lab_distance_squared_spec);
    }
    let d_l = one.0.minus(two.0);
    let d_a = one.1.minus(two.1);
    let d_b = one.2.minus(two.2);
    d_l.times(d_l).plus(d_a.times(d_a)).plus(d_b.times(d_b))
}

impl PointProvider for PointProviderLab {
    type Point = (Fixed, Fixed, Fixed);

    /// The L*, a* and b* of an sRGB colour.
    fn from_int(&self, argb: u32) -> (out: Self::Point)
        ensures
            out == lab_from_argb(argb),
    {
        lab_from_argb(argb)
    }

    /// The sRGB colour of a point of L*a*b*.
    fn to_int(&self, point: Self::Point) -> (out: u32)
        ensures
            out == argb_from_lab(point.0, point.1, point.2),
    {
        argb_from_lab(point.0, point.1, point.2)
    }

    /// The squared distance of two points of L*a*b*.
    fn distance(&self, a: &Self::Point, b: &Self::Point) -> (out: Fixed)
        ensures
            out == lab_distance_squared(*a, *b),
    {
        lab_distance_squared(*a, *b)
    }
}

} // verus!
