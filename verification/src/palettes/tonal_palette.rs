//! Tonal palettes: the colours of one hue and chroma at every tone.
use std::collections::HashMap;
use vstd::prelude::*;
use vstd::std_specs::hash::*;
use crate::fixed::{fx, Fixed};
use crate::hct::hct::Hct;
use crate::utils::color::{
    argb_from_rgb, blue_from_argb, green_from_argb, is_opaque, red_from_argb,
};

verus! {

/// The chroma asked of the solver to learn the most that a tone can show.
pub const MAX_CHROMA_VALUE: i64 = 200;

/// 0.01: the key colour may fall short of the wanted chroma by this much.
pub const CHROMA_EPSILON: i128 = 10_000_000_000;

/// The tone around which the key colour is looked for: at tone 50 most
/// hues can show the most chroma.
pub const PIVOT_TONE: u8 = 50;

/// The mean of two channel values, halves rounded up.
pub open spec fn average_channel_spec(a: u8, b: u8) -> u8 {
    ((a as u16 + b as u16 + 1) / 2) as u8
}

#[verifier::when_used_as_spec(average_channel_spec)]
pub fn average_channel(a: u8, b: u8) -> (out: u8)
    ensures
        out == average_channel_spec(a, b),
{
    ((a as u16 + b as u16 + 1) / 2) as u8
}

/// The opaque colour whose channels are the means of those of two
/// colours.
#[verifier::opaque]
pub open spec fn average_argb_spec(argb1: u32, argb2: u32) -> u32 {
    argb_from_rgb(
        average_channel(red_from_argb(argb1), red_from_argb(argb2)),
        average_channel(green_from_argb(argb1), green_from_argb(argb2)),
        average_channel(blue_from_argb(argb1), blue_from_argb(argb2)),
    )
}

#[verifier::when_used_as_spec(average_argb_spec)]
pub fn average_argb(argb1: u32, argb2: u32) -> (argb: u32)
    ensures
        argb == average_argb_spec(argb1, argb2),
        is_opaque(argb),
{
    proof {
        reveal(average_argb_spec);
    }
    argb_from_rgb(
        average_channel(red_from_argb(argb1), red_from_argb(argb2)),
        average_channel(green_from_argb(argb1), green_from_argb(argb2)),
        average_channel(blue_from_argb(argb1), blue_from_argb(argb2)),
    )
}

/// The colour of hue `hue` and chroma `chroma` at the whole tone `tone`.
/// For yellow hues tone 99 is the mean of tones 98 and 100: solved for
/// directly, it would stand out from its neighbours.
#[verifier::opaque]
pub open spec fn tone_color_spec(hue: Fixed, chroma: Fixed, tone: u8) -> u32 {
    if tone == 99 && Hct::is_yellow(hue) {
        average_argb(
            Hct::from(hue, chroma, Fixed::from_int(98)).argb,
            Hct::from(hue, chroma, Fixed::from_int(100)).argb,
        )
    } else {
        Hct::from(hue, chroma, Fixed::from_int(tone as i64)).argb
    }
}

#[verifier::when_used_as_spec(tone_color_spec)]
pub fn tone_color(hue: Fixed, chroma: Fixed, tone: u8) -> (argb: u32)
    ensures
        argb == tone_color_spec(hue, chroma, tone),
        is_opaque(argb),
{
    proof {
        reveal(tone_color_spec);
    }
    if tone == 99 && Hct::is_yellow(hue) {
        average_argb(
            Hct::from(hue, chroma, Fixed::from_int(98)).argb,
            Hct::from(hue, chroma, Fixed::from_int(100)).argb,
        )
    } else {
        Hct::from(hue, chroma, Fixed::from_int(tone as i64)).argb
    }
}

/// The most chroma that sRGB can show at a hue and a whole tone: the
/// chroma of the colour that the solver finds when asked for 200.
#[verifier::opaque]
pub open spec fn max_chroma_spec(hue: Fixed, tone: u8) -> Fixed {
    Hct::from(hue, Fixed::from_int(MAX_CHROMA_VALUE), Fixed::from_int(tone as i64)).chroma
}

#[verifier::when_used_as_spec(max_chroma_spec)]
pub fn max_chroma(hue: Fixed, tone: u8) -> (out: Fixed)
    ensures
        out == max_chroma_spec(hue, tone),
{
    proof {
        reveal(max_chroma_spec);
    }
    Hct::from(hue, Fixed::from_int(MAX_CHROMA_VALUE), Fixed::from_int(tone as i64)).chroma
}

/// How far a tone is from the pivot.
pub open spec fn distance_to_pivot_spec(tone: u8) -> u8 {
    if tone >= PIVOT_TONE {
        (tone - PIVOT_TONE) as u8
    } else {
        (PIVOT_TONE - tone) as u8
    }
}

#[verifier::when_used_as_spec(distance_to_pivot_spec)]
pub fn distance_to_pivot(tone: u8) -> (out: u8)
    ensures
        out == distance_to_pivot_spec(tone),
{
    if tone >= PIVOT_TONE {
        (tone - PIVOT_TONE) as u8
    } else {
        (PIVOT_TONE - tone) as u8
    }
}

/// The tone of the key colour, searched between `lower` and `upper`: the
/// middle tone is kept where it can show the wanted chroma, on the side
/// nearer to the pivot; where it cannot, the search goes on in the
/// direction in which the most chroma that a tone can show still rises.
pub open spec fn key_tone_between(hue: Fixed, requested_chroma: Fixed, lower: u8, upper: u8) -> u8
    decreases upper - lower,
{
    if lower < upper {
        let mid = ((lower + upper) / 2) as u8;
        if max_chroma(hue, mid).ge(requested_chroma.minus(fx(CHROMA_EPSILON))) {
            if distance_to_pivot(lower) < distance_to_pivot(upper) {
                key_tone_between(hue, requested_chroma, lower, mid)
            } else if lower == mid {
                lower
            } else {
                key_tone_between(hue, requested_chroma, mid, upper)
            }
        } else if max_chroma(hue, mid).lt(max_chroma(hue, (mid + 1) as u8)) {
            key_tone_between(hue, requested_chroma, (mid + 1) as u8, upper)
        } else {
            key_tone_between(hue, requested_chroma, lower, mid)
        }
    } else {
        lower
    }
}

/// The tone of the key colour of a hue and a chroma: a whole tone from 0
/// to 100.
pub open spec fn key_tone_spec(hue: Fixed, requested_chroma: Fixed) -> u8 {
    key_tone_between(hue, requested_chroma, 0, 100)
}

/// The key tone lies between the bounds of its search.
pub proof fn lemma_key_tone_is_between(hue: Fixed, requested_chroma: Fixed, lower: u8, upper: u8)
    requires
        lower <= upper,
    ensures
        lower <= key_tone_between(hue, requested_chroma, lower, upper) <= upper,
    decreases upper - lower,
{
    if lower < upper {
        let mid = ((lower + upper) / 2) as u8;
        if max_chroma(hue, mid).ge(requested_chroma.minus(fx(CHROMA_EPSILON))) {
            if distance_to_pivot(lower) < distance_to_pivot(upper) {
                lemma_key_tone_is_between(hue, requested_chroma, lower, mid);
            } else if lower != mid {
                lemma_key_tone_is_between(hue, requested_chroma, mid, upper);
            }
        } else if max_chroma(hue, mid).lt(max_chroma(hue, (mid + 1) as u8)) {
            lemma_key_tone_is_between(hue, requested_chroma, (mid + 1) as u8, upper);
        } else {
            lemma_key_tone_is_between(hue, requested_chroma, lower, mid);
        }
    }
}

/// The search for the colour that stands for a palette: the tone nearest
/// to 50 at which the palette's hue can show the palette's chroma.
pub struct KeyColor {
    pub hue: Fixed,
    pub requested_chroma: Fixed,
    /// The most chroma of each tone that has been asked about.
    pub chroma_cache: HashMap<u8, Fixed>,
}

impl KeyColor {
    /// Whether the cache holds, for each tone in it, the most chroma that
    /// the tone can show.
    pub open spec fn wf(&self) -> bool {
        forall|tone: u8| #[trigger]
            self.chroma_cache@.contains_key(tone) ==> self.chroma_cache@[tone] == max_chroma(
                self.hue,
                tone,
            )
    }

    /// A search that has not asked about any tone yet.
    pub fn new(hue: Fixed, requested_chroma: Fixed) -> (out: Self)
        ensures
            out.wf(),
            out.hue == hue,
            out.requested_chroma == requested_chroma,
    {
        broadcast use vstd::std_specs::hash::group_hash_axioms;

        KeyColor { hue, requested_chroma, chroma_cache: HashMap::new() }
    }

    /// The most chroma that a tone can show, computed once for each tone.
    pub fn max_chroma(&mut self, tone: u8) -> (out: Fixed)
        requires
            old(self).wf(),
        ensures
            out == max_chroma(old(self).hue, tone),
            final(self).wf(),
            final(self).hue == old(self).hue,
            final(self).requested_chroma == old(self).requested_chroma,
    {
        broadcast use vstd::std_specs::hash::group_hash_axioms;

        let known: Option<Fixed> = match self.chroma_cache.get(&tone) {
            Some(chroma) => Some(*chroma),
            None => None,
        };
        match known {
            Some(chroma) => chroma,
            None => {
                let chroma = max_chroma(self.hue, tone);
                self.chroma_cache.insert(tone, chroma);
                chroma
            },
        }
    }

    /// The key colour: the palette's hue and chroma at the key tone.
    pub fn create(&mut self) -> (out: Hct)
        requires
            old(self).wf(),
        ensures
            out == key_color_of(old(self).hue, old(self).requested_chroma),
            out.wf(),
            final(self).wf(),
    {
        let ghost hue = self.hue;
        let ghost requested = self.requested_chroma;
        let mut lower_tone: u8 = 0;
        let mut upper_tone: u8 = 100;
        while lower_tone < upper_tone
            invariant
                self.wf(),
                self.hue == hue,
                self.requested_chroma == requested,
                hue == old(self).hue,
                requested == old(self).requested_chroma,
                upper_tone <= 100,
                key_tone_between(hue, requested, lower_tone, upper_tone) == key_tone_spec(
                    hue,
                    requested,
                ),
            decreases upper_tone - lower_tone,
        {
            let mid_tone: u8 = (lower_tone + upper_tone) / 2;
            let mid_chroma = self.max_chroma(mid_tone);
            let is_ascending = mid_chroma.lt(self.max_chroma(mid_tone + 1));
            let sufficient_chroma = mid_chroma.ge(
                self.requested_chroma.minus(fx(CHROMA_EPSILON)),
            );
            if sufficient_chroma {
                if distance_to_pivot(lower_tone) < distance_to_pivot(upper_tone) {
                    upper_tone = mid_tone;
                } else {
                    if lower_tone == mid_tone {
                        assert(key_tone_between(hue, requested, lower_tone, upper_tone)
                            == lower_tone);
                        return Hct::from(
                            self.hue,
                            self.requested_chroma,
                            Fixed::from_int(lower_tone as i64),
                        );
                    }
                    lower_tone = mid_tone;
                }
            } else if is_ascending {
                lower_tone = mid_tone + 1;
            } else {
                upper_tone = mid_tone;
            }
        }
        Hct::from(self.hue, self.requested_chroma, Fixed::from_int(lower_tone as i64))
    }
}

/// The key colour of a hue and a chroma: the colour of that hue and
/// chroma at the key tone.
pub open spec fn key_color_of(hue: Fixed, requested_chroma: Fixed) -> Hct {
    Hct::from(hue, requested_chroma, Fixed::from_int(key_tone_spec(hue, requested_chroma) as i64))
}

/// What determines a palette: its hue, its chroma and its key colour.
#[derive(Clone, Copy, Debug, PartialEq, Eq, Structural)]
pub struct PaletteKey {
    pub hue: Fixed,
    pub chroma: Fixed,
    pub key_color: Hct,
}

impl PaletteKey {
    /// The palette of the hue and chroma of a colour, with that colour
    /// as its key colour.
    pub open spec fn spec_from_hct(hct: Hct) -> PaletteKey {
        PaletteKey { hue: hct.hue, chroma: hct.chroma, key_color: hct }
    }

    #[verifier::when_used_as_spec(spec_from_hct)]
    pub fn from_hct(hct: Hct) -> (out: PaletteKey)
        ensures
            out == Self::spec_from_hct(hct),
    {
        PaletteKey { hue: hct.hue, chroma: hct.chroma, key_color: hct }
    }

    /// The palette of a hue and a chroma, with the key colour that the
    /// search finds for them.
    pub open spec fn spec_from_hue_and_chroma(hue: Fixed, chroma: Fixed) -> PaletteKey {
        PaletteKey { hue, chroma, key_color: key_color_of(hue, chroma) }
    }

    #[verifier::when_used_as_spec(spec_from_hue_and_chroma)]
    pub fn from_hue_and_chroma(hue: Fixed, chroma: Fixed) -> (out: PaletteKey)
        ensures
            out == Self::spec_from_hue_and_chroma(hue, chroma),
    {
        let mut search = KeyColor::new(hue, chroma);
        PaletteKey { hue, chroma, key_color: search.create() }
    }

    /// The colour of the palette at any tone, in HCT.
    pub open spec fn spec_hct(&self, tone: Fixed) -> Hct {
        Hct::from(self.hue, self.chroma, tone)
    }

    #[verifier::when_used_as_spec(spec_hct)]
    pub fn hct(&self, tone: Fixed) -> (out: Hct)
        ensures
            out == self.spec_hct(tone),
            out.wf(),
            is_opaque(out.argb),
    {
        Hct::from(self.hue, self.chroma, tone)
    }
}

/// The colours of one hue and chroma at every tone, with the ones already
/// asked for kept at hand.
pub struct TonalPalette {
    pub hue: Fixed,
    pub chroma: Fixed,
    pub key_color: Hct,
    /// The colours of the tones that have been asked for.
    pub cache: HashMap<u8, u32>,
}

impl TonalPalette {
    /// Whether each colour at hand is the colour of its tone.
    pub open spec fn wf(&self) -> bool {
        forall|tone: u8| #[trigger]
            self.cache@.contains_key(tone) ==> self.cache@[tone] == tone_color(
                self.hue,
                self.chroma,
                tone,
            ) && is_opaque(self.cache@[tone])
    }

    /// The palette of the hue and chroma of a colour, with that colour as
    /// its key colour.
    pub fn from_hct(hct: Hct) -> (out: Self)
        ensures
            out.wf(),
            out.hue == hct.hue,
            out.chroma == hct.chroma,
            out.key_color == hct,
            out.cache@ == Map::<u8, u32>::empty(),
    {
        broadcast use vstd::std_specs::hash::group_hash_axioms;

        TonalPalette { hue: hct.hue, chroma: hct.chroma, key_color: hct, cache: HashMap::new() }
    }

    /// The palette of the hue and chroma of an sRGB colour.
    pub fn from_int(argb: u32) -> (out: Self)
        ensures
            out.wf(),
            out.hue == Hct::from_int(argb).hue,
            out.chroma == Hct::from_int(argb).chroma,
            out.key_color == Hct::from_int(argb),
            out.cache@ == Map::<u8, u32>::empty(),
    {
        Self::from_hct(Hct::from_int(argb))
    }

    /// The palette of a hue and a chroma; its key colour is found by
    /// search.
    pub fn from_hue_and_chroma(hue: Fixed, chroma: Fixed) -> (out: Self)
        ensures
            out.wf(),
            out.hue == hue,
            out.chroma == chroma,
            out.key_color == key_color_of(hue, chroma),
            out.key_color.wf(),
            out.cache@ == Map::<u8, u32>::empty(),
    {
        broadcast use vstd::std_specs::hash::group_hash_axioms;

        let mut search = KeyColor::new(hue, chroma);
        let key_color = search.create();
        TonalPalette { hue, chroma, key_color, cache: HashMap::new() }
    }

    /// The palette that a key determines.
    pub fn from_key(key: PaletteKey) -> (out: Self)
        ensures
            out.wf(),
            out.key() == key,
            out.cache@ == Map::<u8, u32>::empty(),
    {
        broadcast use vstd::std_specs::hash::group_hash_axioms;

        TonalPalette {
            hue: key.hue,
            chroma: key.chroma,
            key_color: key.key_color,
            cache: HashMap::new(),
        }
    }

    /// What determines the palette.
    pub open spec fn spec_key(&self) -> PaletteKey {
        PaletteKey { hue: self.hue, chroma: self.chroma, key_color: self.key_color }
    }

    #[verifier::when_used_as_spec(spec_key)]
    pub fn key(&self) -> (out: PaletteKey)
        ensures
            out == self.spec_key(),
    {
        PaletteKey { hue: self.hue, chroma: self.chroma, key_color: self.key_color }
    }

    /// The hue of the palette, in degrees.
    pub fn hue(&self) -> (out: Fixed)
        ensures
            out == self.hue,
    {
        self.hue
    }

    /// The chroma of the palette.
    pub fn chroma(&self) -> (out: Fixed)
        ensures
            out == self.chroma,
    {
        self.chroma
    }

    /// The colour that stands for the palette.
    pub fn key_color(&self) -> (out: &Hct)
        ensures
            *out == self.key_color,
    {
        &self.key_color
    }

    /// The colour of the palette at a whole tone. The palette remembers
    /// it; what it answers never depends on what it remembers.
    pub fn tone(&mut self, tone: u8) -> (argb: u32)
        requires
            old(self).wf(),
        ensures
            argb == tone_color(old(self).hue, old(self).chroma, tone),
            is_opaque(argb),
            final(self).wf(),
            final(self).hue == old(self).hue,
            final(self).chroma == old(self).chroma,
            final(self).key_color == old(self).key_color,
    {
        broadcast use vstd::std_specs::hash::group_hash_axioms;

        let known: Option<u32> = match self.cache.get(&tone) {
            Some(color) => Some(*color),
            None => None,
        };
        match known {
            Some(color) => color,
            None => {
                let color = tone_color(self.hue, self.chroma, tone);
                self.cache.insert(tone, color);
                color
            },
        }
    }

    /// The colour of the palette at any tone, in HCT.
    pub open spec fn spec_hct(&self, tone: Fixed) -> Hct {
        Hct::from(self.hue, self.chroma, tone)
    }

    #[verifier::when_used_as_spec(spec_hct)]
    pub fn hct(&self, tone: Fixed) -> (out: Hct)
        ensures
            out == self.spec_hct(tone),
            out.wf(),
            is_opaque(out.argb),
    {
        Hct::from(self.hue, self.chroma, tone)
    }
}

} // verus!
