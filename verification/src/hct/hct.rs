//! A colour in HCT: hue and chroma of CAM16, tone of L*a*b*.
use vstd::prelude::*;
use crate::fixed::Fixed;
use crate::hct::cam16::Cam16;
use crate::hct::hct_solver::solve_to_int;
use crate::hct::viewing_conditions::ViewingConditions;
use crate::utils::color::{is_opaque, lstar_from_argb, lstar_from_y};

verus! {

/// A colour as hue, chroma and tone, together with the sRGB colour that
/// these three were measured on.
///
/// A well-formed value holds exactly the hue, chroma and tone of its
/// `argb`: a colour asked for by hue, chroma and tone is first brought
/// into sRGB, and then measured again.
#[derive(Clone, Copy, Debug, PartialEq, Eq, Structural)]
pub struct Hct {
    pub hue: Fixed,
    pub chroma: Fixed,
    pub tone: Fixed,
    pub argb: u32,
}

impl Hct {
    /// Whether hue, chroma and tone are those of `argb`.
    pub open spec fn wf(self) -> bool {
        self == Self::spec_from_int(self.argb)
    }

    /// The measure of an sRGB colour.
    pub open spec fn spec_from_int(argb: u32) -> Hct {
        let cam = Cam16::from_int(argb);
        Hct { hue: cam.hue, chroma: cam.chroma, tone: lstar_from_argb(argb), argb }
    }

    #[verifier::when_used_as_spec(spec_from_int)]
    pub fn from_int(argb: u32) -> (out: Hct)
        ensures
            out == Self::spec_from_int(argb),
            out.wf(),
            out.argb == argb,
    {
        let cam = Cam16::from_int(argb);
        Hct { hue: cam.hue, chroma: cam.chroma, tone: lstar_from_argb(argb), argb }
    }

    /// The sRGB colour nearest to the given hue, in degrees, chroma and
    /// tone, measured: its chroma is lower than asked where sRGB cannot
    /// show as much at that hue and tone.
    pub open spec fn spec_from(hue: Fixed, chroma: Fixed, tone: Fixed) -> Hct {
        Self::from_int(solve_to_int(hue, chroma, tone))
    }

    #[verifier::when_used_as_spec(spec_from)]
    pub fn from(hue: Fixed, chroma: Fixed, tone: Fixed) -> (out: Hct)
        ensures
            out == Self::spec_from(hue, chroma, tone),
            out.wf(),
            is_opaque(out.argb),
    {
        Self::from_int(solve_to_int(hue, chroma, tone))
    }

    /// The hue, in degrees from 0 to 360.
    pub fn hue(&self) -> (out: Fixed)
        ensures
            out == self.hue,
    {
        self.hue
    }

    /// The chroma.
    pub fn chroma(&self) -> (out: Fixed)
        ensures
            out == self.chroma,
    {
        self.chroma
    }

    /// The tone, from 0 to 100.
    pub fn tone(&self) -> (out: Fixed)
        ensures
            out == self.tone,
    {
        self.tone
    }

    /// The sRGB colour.
    pub fn to_int(&self) -> (argb: u32)
        ensures
            argb == self.argb,
    {
        self.argb
    }

    /// Replaces this colour by the one nearest to a new hue and its own
    /// chroma and tone.
    pub fn set_hue(&mut self, new_hue: Fixed)
        ensures
            *final(self) == Self::spec_from(new_hue, old(self).chroma, old(self).tone),
            final(self).wf(),
    {
        *self = Self::from(new_hue, self.chroma, self.tone);
    }

    /// Replaces this colour by the one nearest to a new chroma and its own
    /// hue and tone.
    pub fn set_chroma(&mut self, new_chroma: Fixed)
        ensures
            *final(self) == Self::spec_from(old(self).hue, new_chroma, old(self).tone),
            final(self).wf(),
    {
        *self = Self::from(self.hue, new_chroma, self.tone);
    }

    /// Replaces this colour by the one nearest to a new tone and its own
    /// hue and chroma.
    pub fn set_tone(&mut self, new_tone: Fixed)
        ensures
            *final(self) == Self::spec_from(old(self).hue, old(self).chroma, new_tone),
            final(self).wf(),
    {
        *self = Self::from(self.hue, self.chroma, new_tone);
    }

    /// This colour as it appears under other viewing conditions: the
    /// point of XYZ at which it is seen there, measured again under the
    /// standard conditions, with the tone of that point's luminance.
    #[verifier::opaque]
    pub open spec fn spec_in_viewing_conditions(&self, vc: &ViewingConditions) -> Hct {
        let viewed_in_vc = Cam16::from_int(self.argb).xyz_in_viewing_conditions(vc);
        let recast_in_vc = Cam16::from_xyz_in_viewing_conditions(
            viewed_in_vc.0,
            viewed_in_vc.1,
            viewed_in_vc.2,
            &ViewingConditions::standard(),
        );
        Self::from(recast_in_vc.hue, recast_in_vc.chroma, lstar_from_y(viewed_in_vc.1))
    }

    #[verifier::when_used_as_spec(spec_in_viewing_conditions)]
    pub fn in_viewing_conditions(&self, vc: &ViewingConditions) -> (out: Hct)
        ensures
            out == self.spec_in_viewing_conditions(vc),
            out.wf(),
    {
        proof {
            reveal(Hct::spec_in_viewing_conditions);
        }
        let viewed_in_vc = Cam16::from_int(self.argb).xyz_in_viewing_conditions(vc);
        let recast_in_vc = Cam16::from_xyz_in_viewing_conditions(
            viewed_in_vc.0,
            viewed_in_vc.1,
            viewed_in_vc.2,
            &ViewingConditions::standard(),
        );
        Self::from(recast_in_vc.hue, recast_in_vc.chroma, lstar_from_y(viewed_in_vc.1))
    }

    /// Whether a hue is blue: from 250 degrees up to, not including, 270.
    pub open spec fn spec_is_blue(hue: Fixed) -> bool {
        hue.ge(Fixed::from_int(250)) && hue.lt(Fixed::from_int(270))
    }

    #[verifier::when_used_as_spec(spec_is_blue)]
    pub fn is_blue(hue: Fixed) -> (out: bool)
        ensures
            out == Self::spec_is_blue(hue),
    {
        hue.ge(Fixed::from_int(250)) && hue.lt(Fixed::from_int(270))
    }

    /// Whether a hue is yellow: from 105 degrees up to, not including, 125.
    pub open spec fn spec_is_yellow(hue: Fixed) -> bool {
        hue.ge(Fixed::from_int(105)) && hue.lt(Fixed::from_int(125))
    }

    #[verifier::when_used_as_spec(spec_is_yellow)]
    pub fn is_yellow(hue: Fixed) -> (out: bool)
        ensures
            out == Self::spec_is_yellow(hue),
    {
        hue.ge(Fixed::from_int(105)) && hue.lt(Fixed::from_int(125))
    }

    /// Whether a hue is cyan: from 170 degrees up to, not including, 207.
    pub open spec fn spec_is_cyan(hue: Fixed) -> bool {
        hue.ge(Fixed::from_int(170)) && hue.lt(Fixed::from_int(207))
    }

    #[verifier::when_used_as_spec(spec_is_cyan)]
    pub fn is_cyan(hue: Fixed) -> (out: bool)
        ensures
            out == Self::spec_is_cyan(hue),
    {
        hue.ge(Fixed::from_int(170)) && hue.lt(Fixed::from_int(207))
    }
}

impl Default for Hct {
    /// Black, with hue, chroma and tone zero.
    fn default() -> (out: Self)
        ensures
            out == (Hct {
                hue: Fixed::from_int(0),
                chroma: Fixed::from_int(0),
                tone: Fixed::from_int(0),
                argb: 0xff00_0000,
            }),
    {
        Hct {
            hue: Fixed::from_int(0),
            chroma: Fixed::from_int(0),
            tone: Fixed::from_int(0),
            argb: 0xff00_0000,
        }
    }
}

impl From<u32> for Hct {
    /// The measure of an sRGB colour.
    fn from(argb: u32) -> (out: Self) {
        Hct::from_int(argb)
    }
}

impl vstd::std_specs::convert::FromSpecImpl<u32> for Hct {
    open spec fn obeys_from_spec() -> bool {
        true
    }

    open spec fn from_spec(argb: u32) -> Self {
        Hct::spec_from_int(argb)
    }
}

} // verus!
