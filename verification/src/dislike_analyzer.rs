//! Colours that people tend to dislike: dark yellow-greens.
use vstd::prelude::*;
use crate::fixed::Fixed;
use crate::hct::hct::Hct;

verus! {

/// Whether a colour is disliked: its hue, rounded, is from 90 to 111
/// degrees, its chroma, rounded, is above 16, and its tone, rounded, is
/// below 65.
pub open spec fn is_disliked_spec(hct: &Hct) -> bool {
    let hue_passes = hct.hue.round().ge(Fixed::from_int(90)) && hct.hue.round().le(
        Fixed::from_int(111),
    );
    let chroma_passes = hct.chroma.round().gt(Fixed::from_int(16));
    let tone_passes = hct.tone.round().lt(Fixed::from_int(65));
    hue_passes && chroma_passes && tone_passes
}

#[verifier::when_used_as_spec(is_disliked_spec)]
pub fn is_disliked(hct: &Hct) -> (out: bool)
    ensures
        out == is_disliked_spec(hct),
{
    let hue_passes = hct.hue.round().ge(Fixed::from_int(90)) && hct.hue.round().le(
        Fixed::from_int(111),
    );
    let chroma_passes = hct.chroma.round().gt(Fixed::from_int(16));
    let tone_passes = hct.tone.round().lt(Fixed::from_int(65));
    hue_passes && chroma_passes && tone_passes
}

/// A disliked colour lightened to tone 70, with its hue and chroma; any
/// other colour as it is.
pub open spec fn fix_if_disliked_spec(hct: Hct) -> Hct {
    if is_disliked(&hct) {
        Hct::from(hct.hue, hct.chroma, Fixed::from_int(70))
    } else {
        hct
    }
}

#[verifier::when_used_as_spec(fix_if_disliked_spec)]
pub fn fix_if_disliked(hct: Hct) -> (out: Hct)
    ensures
        out == fix_if_disliked_spec(hct),
        !is_disliked(&hct) ==> out == hct,
        hct.wf() ==> out.wf(),
{
    if is_disliked(&hct) {
        Hct::from(hct.hue, hct.chroma, Fixed::from_int(70))
    } else {
        hct
    }
}

/// A colour whose tone rounds to 65 or more is not disliked, whatever its
/// hue and chroma.
pub proof fn lemma_light_colours_are_liked(hct: Hct)
    requires
        hct.tone.round().raw >= Fixed::from_int(65).raw,
    ensures
        !is_disliked(&hct),
        fix_if_disliked(hct) == hct,
{
}

/// Repairing twice is repairing once, for every colour that is liked, and
/// for every disliked colour whose repaired form has a tone that rounds to
/// 65 or more.
pub proof fn lemma_repair_settles(hct: Hct)
    requires
        is_disliked(&hct) ==> Hct::from(hct.hue, hct.chroma, Fixed::from_int(70)).tone.round().raw
            >= Fixed::from_int(65).raw,
    ensures
        !is_disliked(&fix_if_disliked(hct)),
        fix_if_disliked(fix_if_disliked(hct)) == fix_if_disliked(hct),
{
}

} // verus!
