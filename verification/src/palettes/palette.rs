//! Tone tables: a palette written out at the tones that design tools
//! show.
use std::collections::HashMap;
use vstd::prelude::*;
use vstd::std_specs::hash::*;
use crate::dynamiccolor::dynamic_scheme::DynamicScheme;
use crate::palettes::tonal_palette::{tone_color, PaletteKey, TonalPalette};

verus! {

/// The tones at which a palette is written out.
pub open spec fn standard_tones() -> Seq<u8> {
    seq![0u8, 5, 10, 15, 20, 25, 30, 35, 40, 50, 60, 70, 80, 90, 95, 98, 99, 100]
}

/// The colours of a palette at the standard tones.
pub struct Palette(pub HashMap<u8, u32>);

impl Palette {
    /// The table as a map from tone to colour.
    pub open spec fn view(&self) -> Map<u8, u32> {
        self.0@
    }

    /// Whether the table holds exactly the standard tones of the palette
    /// of the given hue and chroma.
    pub open spec fn is_table_of(&self, palette: &TonalPalette) -> bool {
        &&& forall|tone: u8| #[trigger]
            self@.contains_key(tone) <==> standard_tones().contains(tone)
        &&& forall|tone: u8| #[trigger]
            self@.contains_key(tone) ==> self@[tone] == tone_color(
                palette.hue,
                palette.chroma,
                tone,
            )
    }

    /// The colour at a tone, where the table has that tone.
    pub fn get(&self, tone: u8) -> (out: Option<u32>)
        ensures
            out == (if self@.contains_key(tone) {
                Some(self@[tone])
            } else {
                None
            }),
    {
        broadcast use vstd::std_specs::hash::group_hash_axioms;

        match self.0.get(&tone) {
            Some(color) => Some(*color),
            None => None,
        }
    }

    /// The map from tone to colour.
    pub fn inner(&self) -> (out: &HashMap<u8, u32>)
        ensures
            out@ == self@,
    {
        &self.0
    }

    /// The map from tone to colour, by value.
    pub fn into_inner(self) -> (out: HashMap<u8, u32>)
        ensures
            out@ == self@,
    {
        self.0
    }

    /// The table of a map from tone to colour.
    pub fn from_map(tones: HashMap<u8, u32>) -> (out: Self)
        ensures
            out == Palette(tones),
            out@ == tones@,
    {
        Palette(tones)
    }

    /// The table of a tonal palette.
    pub fn from_tonal_palette(palette: &mut TonalPalette) -> (out: Self)
        requires
            old(palette).wf(),
        ensures
            out.is_table_of(old(palette)),
            final(palette).wf(),
            final(palette).hue == old(palette).hue,
            final(palette).chroma == old(palette).chroma,
            final(palette).key_color == old(palette).key_color,
    {
        broadcast use vstd::std_specs::hash::group_hash_axioms;

        let tones: [u8; 18] = [0, 5, 10, 15, 20, 25, 30, 35, 40, 50, 60, 70, 80, 90, 95, 98, 99, 100];
        assert(tones@ =~= standard_tones());
        let mut table: HashMap<u8, u32> = HashMap::new();
        let mut i: usize = 0;
        while i < 18
            invariant
                i <= 18,
                tones@ == standard_tones(),
                palette.wf(),
                palette.hue == old(palette).hue,
                palette.chroma == old(palette).chroma,
                palette.key_color == old(palette).key_color,
                forall|tone: u8| #[trigger]
                    table@.contains_key(tone) <==> standard_tones().take(i as int).contains(tone),
                forall|tone: u8| #[trigger]
                    table@.contains_key(tone) ==> table@[tone] == tone_color(
                        palette.hue,
                        palette.chroma,
                        tone,
                    ),
            decreases 18 - i,
        {
            let tone = tones[i];
            let color = palette.tone(tone);
            let ghost before = standard_tones().take(i as int);
            let ghost after = standard_tones().take(i + 1);
            table.insert(tone, color);
            proof {
                assert(after =~= before.push(tone));
                assert forall|t: u8| #[trigger]
                    table@.contains_key(t) <==> after.contains(t) by {
                    if before.contains(t) {
                        let k = choose|k: int| 0 <= k < before.len() && before[k] == t;
                        assert(after[k] == t);
                    }
                    if t == tone {
                        assert(after[i as int] == t);
                    }
                }
            }
            i = i + 1;
        }
        assert(standard_tones().take(18) =~= standard_tones());
        Palette(table)
    }
}

/// The tone tables of the six palettes of a scheme.
pub struct Palettes {
    pub primary: Option<Palette>,
    pub secondary: Option<Palette>,
    pub tertiary: Option<Palette>,
    pub neutral: Option<Palette>,
    pub neutral_variant: Option<Palette>,
    pub error: Option<Palette>,
}

/// The tone table of a palette given by what determines it.
pub fn table_of(key: PaletteKey) -> (out: Palette)
    ensures
        is_table_of_key(out@, key),
{
    let mut palette = TonalPalette::from_key(key);
    Palette::from_tonal_palette(&mut palette)
}

/// Whether a table holds exactly the standard tones of the palette that
/// a key determines.
pub open spec fn is_table_of_key(table: Map<u8, u32>, key: PaletteKey) -> bool {
    &&& forall|tone: u8| #[trigger] table.contains_key(tone) <==> standard_tones().contains(tone)
    &&& forall|tone: u8| #[trigger]
        table.contains_key(tone) ==> table[tone] == tone_color(key.hue, key.chroma, tone)
}

impl Palettes {
    /// Whether these are the tables of the palettes of `scheme`.
    pub open spec fn is_of(&self, scheme: &DynamicScheme) -> bool {
        &&& self.primary matches Some(table) && is_table_of_key(table@, scheme.primary_palette)
        &&& self.secondary matches Some(table) && is_table_of_key(table@, scheme.secondary_palette)
        &&& self.tertiary matches Some(table) && is_table_of_key(table@, scheme.tertiary_palette)
        &&& self.neutral matches Some(table) && is_table_of_key(table@, scheme.neutral_palette)
        &&& self.neutral_variant matches Some(table) && is_table_of_key(
            table@,
            scheme.neutral_variant_palette,
        )
        &&& self.error matches Some(table) && is_table_of_key(table@, scheme.error_palette)
    }

    /// The tables of the six palettes of a scheme.
    pub fn from_scheme(scheme: &DynamicScheme) -> (out: Self)
        ensures
            out.is_of(scheme),
    {
        Palettes {
            primary: Some(table_of(scheme.primary_palette)),
            secondary: Some(table_of(scheme.secondary_palette)),
            tertiary: Some(table_of(scheme.tertiary_palette)),
            neutral: Some(table_of(scheme.neutral_palette)),
            neutral_variant: Some(table_of(scheme.neutral_variant_palette)),
            error: Some(table_of(scheme.error_palette)),
        }
    }
}

impl From<HashMap<u8, u32>> for Palette {
    /// The table of a map from tone to colour.
    fn from(tones: HashMap<u8, u32>) -> (out: Self) {
        Palette::from_map(tones)
    }
}

impl vstd::std_specs::convert::FromSpecImpl<HashMap<u8, u32>> for Palette {
    open spec fn obeys_from_spec() -> bool {
        true
    }

    open spec fn from_spec(tones: HashMap<u8, u32>) -> Self {
        Palette(tones)
    }
}

} // verus!
