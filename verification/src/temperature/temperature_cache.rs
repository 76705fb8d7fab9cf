//! Colour temperature: which colours are warm and which are cold, and
//! from that the colours that go with a given one.
//!
//! The temperature of a colour is measured against the 361 colours that
//! have its chroma and tone and a whole hue from 0 to 360. All of them are
//! solved for once, when the cache is made.
use vstd::prelude::*;
use crate::fixed::{fx, Fixed, HALF, SCALE};
use crate::hct::hct::Hct;
use crate::utils::color::lab_from_argb;
use crate::utils::math::sanitize_degrees;

verus! {

/// The number of whole hues from 0 to 360.
pub const HUES: usize = 361;

/// 0.02.
pub const TEMPERATURE_GAIN: i128 = 20_000_000_000;

/// 1.07.
pub const TEMPERATURE_EXPONENT: i128 = 1_070_000_000_000;

/// A magnitude far beyond any temperature, below which differences of
/// temperatures can be divided exactly.
pub const TEMPERATURE_LIMIT: i128 = 10_000_000_000_000_000_000_000_000;

/// The temperature of a colour: `-0.5 + 0.02 * c^1.07 * cos(h - 50)` for
/// its chroma `c` and hue `h` in L*a*b*. Warm colours are above zero.
#[verifier::opaque]
pub open spec fn raw_temperature_spec(color: Hct) -> Fixed {
    let lab = lab_from_argb(color.argb);
    let hue = sanitize_degrees(lab.2.atan2(lab.1).to_degrees());
    let chroma = lab.1.hypot(lab.2);
    fx(TEMPERATURE_GAIN).times(chroma.pow(fx(TEMPERATURE_EXPONENT))).times(
        sanitize_degrees(hue.minus(Fixed::from_int(50))).to_radians().cos(),
    ).minus(fx(HALF))
}

#[verifier::when_used_as_spec(raw_temperature_spec)]
pub fn raw_temperature(color: Hct) -> (out: Fixed)
    ensures
        out == raw_temperature_spec(color),
{
    proof {
        reveal(raw_temperature_spec);
    }
    let lab = lab_from_argb(color.argb);
    let hue = sanitize_degrees(lab.2.atan2(lab.1).to_degrees());
    let chroma = lab.1.hypot(lab.2);
    fx(TEMPERATURE_GAIN).times(chroma.pow(fx(TEMPERATURE_EXPONENT))).times(
        sanitize_degrees(hue.minus(Fixed::from_int(50))).to_radians().cos(),
    ).minus(fx(HALF))
}

/// The whole hue, from 0 to 360, nearest to the hue of a colour.
pub open spec fn hue_key_spec(hct: &Hct) -> usize {
    hct.hue.round().clamp(Fixed::from_int(0), Fixed::from_int(360)).floor_int() as usize
}

#[verifier::when_used_as_spec(hue_key_spec)]
pub fn hue_key(hct: &Hct) -> (out: usize)
    ensures
        out == hue_key_spec(hct),
        out < HUES,
{
    hct.hue.round().clamp(Fixed::from_int(0), Fixed::from_int(360)).floor_int() as usize
}

/// The colour with the given whole hue and the chroma and tone of
/// `input`.
pub open spec fn hct_at_hue_spec(input: Hct, hue: usize) -> Hct {
    Hct::from(Fixed::from_int(hue as i64), input.chroma, input.tone)
}

#[verifier::when_used_as_spec(hct_at_hue_spec)]
pub fn hct_at_hue(input: Hct, hue: usize) -> (out: Hct)
    requires
        hue < HUES,
    ensures
        out == hct_at_hue_spec(input, hue),
{
    Hct::from(Fixed::from_int(hue as i64), input.chroma, input.tone)
}

/// Whether an angle lies on the way from `a` round to `b` in the
/// direction of growing angles.
pub open spec fn is_between_spec(angle: Fixed, a: Fixed, b: Fixed) -> bool {
    if a.lt(b) {
        a.le(angle) && angle.le(b)
    } else {
        a.le(angle) || angle.le(b)
    }
}

#[verifier::when_used_as_spec(is_between_spec)]
pub fn is_between(angle: Fixed, a: Fixed, b: Fixed) -> (out: bool)
    ensures
        out == is_between_spec(angle, a, b),
{
    if a.lt(b) {
        a.le(angle) && angle.le(b)
    } else {
        a.le(angle) || angle.le(b)
    }
}

/// The colours of the whole hues below `n`.
pub open spec fn hcts_below(input: Hct, n: nat) -> Seq<Hct> {
    Seq::new(n, |h: int| hct_at_hue(input, h as usize))
}

/// The temperatures by whole hue after the colours of the hues below `n`
/// have been entered: each colour enters its temperature at the whole
/// hue nearest to its own, over what was there.
pub open spec fn temps_below(input: Hct, n: nat) -> Seq<Fixed>
    decreases n,
{
    if n == 0 {
        Seq::new(HUES as nat, |h: int| Fixed::zero())
    } else {
        let color = hct_at_hue(input, (n - 1) as usize);
        temps_below(input, (n - 1) as nat).update(hue_key(&color) as int, raw_temperature(color))
    }
}

/// The temperatures by whole hue: those of the 361 colours, then that of
/// the input colour.
pub open spec fn temps_of(input: Hct) -> Seq<Fixed> {
    temps_below(input, HUES as nat).update(hue_key(&input) as int, raw_temperature(input))
}

/// The temperature entered for the whole hue nearest to that of a
/// colour.
pub open spec fn temp_of(temps: Seq<Fixed>, hct: Hct) -> Fixed {
    temps[hue_key(&hct) as int]
}

/// A list of colours, ordered by temperature, with one more colour put
/// in: after every colour that is not warmer.
pub open spec fn inserted_spec(sorted: Seq<Hct>, color: Hct, temps: Seq<Fixed>) -> Seq<Hct>
    decreases sorted.len(),
{
    if sorted.len() == 0 {
        seq![color]
    } else if temp_of(temps, sorted.last()).raw <= temp_of(temps, color).raw {
        sorted.push(color)
    } else {
        inserted_spec(sorted.drop_last(), color, temps).push(sorted.last())
    }
}

/// The first `n` colours of a list, ordered by temperature; colours of
/// equal temperature keep their order.
pub open spec fn sorted_prefix(colors: Seq<Hct>, n: nat, temps: Seq<Fixed>) -> Seq<Hct>
    decreases n,
{
    if n == 0 {
        Seq::empty()
    } else {
        inserted_spec(sorted_prefix(colors, (n - 1) as nat, temps), colors[n - 1], temps)
    }
}

/// The 361 colours and the input colour, from coldest to warmest.
pub open spec fn hcts_by_temp_of(input: Hct) -> Seq<Hct> {
    sorted_prefix(hcts_below(input, HUES as nat).push(input), (HUES + 1) as nat, temps_of(input))
}

/// Inserting a colour makes the list one longer.
pub proof fn lemma_inserted_len(sorted: Seq<Hct>, color: Hct, temps: Seq<Fixed>)
    ensures
        inserted_spec(sorted, color, temps).len() == sorted.len() + 1,
    decreases sorted.len(),
{
    if sorted.len() > 0 && !(temp_of(temps, sorted.last()).raw <= temp_of(temps, color).raw) {
        lemma_inserted_len(sorted.drop_last(), color, temps);
    }
}

/// The ordered prefix of `n` colours has `n` colours.
pub proof fn lemma_sorted_prefix_len(colors: Seq<Hct>, n: nat, temps: Seq<Fixed>)
    ensures
        sorted_prefix(colors, n, temps).len() == n,
    decreases n,
{
    if n > 0 {
        lemma_sorted_prefix_len(colors, (n - 1) as nat, temps);
        lemma_inserted_len(sorted_prefix(colors, (n - 1) as nat, temps), colors[n - 1], temps);
    }
}

/// Whether a list of colours runs from colder to warmer.
pub open spec fn is_ordered(colors: Seq<Hct>, temps: Seq<Fixed>) -> bool {
    forall|i: int, j: int|
        0 <= i <= j < colors.len() ==> temp_of(temps, #[trigger] colors[i]).raw <= temp_of(
            temps,
            #[trigger] colors[j],
        ).raw
}

/// Inserting a colour into an ordered list leaves it ordered.
pub proof fn lemma_inserted_is_ordered(sorted: Seq<Hct>, color: Hct, temps: Seq<Fixed>)
    requires
        is_ordered(sorted, temps),
    ensures
        is_ordered(inserted_spec(sorted, color, temps), temps),
        forall|k: int|
            0 <= k < inserted_spec(sorted, color, temps).len() ==> (#[trigger] inserted_spec(
                sorted,
                color,
                temps,
            )[k] == color || sorted.contains(inserted_spec(sorted, color, temps)[k])),
    decreases sorted.len(),
{
    let result = inserted_spec(sorted, color, temps);
    lemma_inserted_len(sorted, color, temps);
    if sorted.len() == 0 {
    } else if temp_of(temps, sorted.last()).raw <= temp_of(temps, color).raw {
        assert forall|i: int, j: int| 0 <= i <= j < result.len() implies temp_of(
            temps,
            #[trigger] result[i],
        ).raw <= temp_of(temps, #[trigger] result[j]).raw by {
            if j < sorted.len() {
                assert(result[i] == sorted[i] && result[j] == sorted[j]);
            } else if i < sorted.len() {
                assert(result[i] == sorted[i]);
                assert(temp_of(temps, sorted[i]).raw <= temp_of(temps, sorted[sorted.len() - 1]).raw);
            }
        }
        assert forall|k: int| 0 <= k < result.len() implies (#[trigger] result[k] == color
            || sorted.contains(result[k])) by {
            if k < sorted.len() {
                assert(result[k] == sorted[k]);
            }
        }
    } else {
        let rest = sorted.drop_last();
        assert(is_ordered(rest, temps)) by {
            assert forall|i: int, j: int| 0 <= i <= j < rest.len() implies temp_of(
                temps,
                #[trigger] rest[i],
            ).raw <= temp_of(temps, #[trigger] rest[j]).raw by {
                assert(rest[i] == sorted[i] && rest[j] == sorted[j]);
            }
        }
        lemma_inserted_is_ordered(rest, color, temps);
        lemma_inserted_len(rest, color, temps);
        let inner = inserted_spec(rest, color, temps);
        assert forall|i: int, j: int| 0 <= i <= j < result.len() implies temp_of(
            temps,
            #[trigger] result[i],
        ).raw <= temp_of(temps, #[trigger] result[j]).raw by {
            if j < inner.len() {
                assert(result[i] == inner[i] && result[j] == inner[j]);
            } else if i < inner.len() {
                assert(result[i] == inner[i]);
                assert(result[j] == sorted.last());
                if inner[i] != color {
                    assert(rest.contains(inner[i]));
                    let k = choose|k: int| 0 <= k < rest.len() && rest[k] == inner[i];
                    assert(sorted[k] == inner[i]);
                    assert(temp_of(temps, sorted[k]).raw <= temp_of(
                        temps,
                        sorted[sorted.len() - 1],
                    ).raw);
                }
            }
        }
        assert forall|k: int| 0 <= k < result.len() implies (#[trigger] result[k] == color
            || sorted.contains(result[k])) by {
            if k < inner.len() {
                assert(result[k] == inner[k]);
                if inner[k] != color {
                    assert(rest.contains(inner[k]));
                    let m = choose|m: int| 0 <= m < rest.len() && rest[m] == inner[k];
                    assert(sorted[m] == inner[k]);
                }
            } else {
                assert(result[k] == sorted[sorted.len() - 1]);
            }
        }
    }
}

/// The colours by temperature run from colder to warmer.
pub proof fn lemma_sorted_prefix_is_ordered(colors: Seq<Hct>, n: nat, temps: Seq<Fixed>)
    ensures
        is_ordered(sorted_prefix(colors, n, temps), temps),
    decreases n,
{
    if n > 0 {
        lemma_sorted_prefix_is_ordered(colors, (n - 1) as nat, temps);
        lemma_inserted_is_ordered(sorted_prefix(colors, (n - 1) as nat, temps), colors[n - 1], temps);
    }
}

/// Puts one more colour into a list ordered by temperature.
pub fn inserted(sorted: Vec<Hct>, color: Hct, temps: &Vec<Fixed>) -> (out: Vec<Hct>)
    requires
        temps@.len() == HUES,
    ensures
        out@ == inserted_spec(sorted@, color, temps@),
    decreases sorted@.len(),
{
    let mut list = sorted;
    if list.len() == 0 {
        list.push(color);
        assert(list@ =~= seq![color]);
        list
    } else {
        let last = list[list.len() - 1];
        if temps[hue_key(&last)].raw <= temps[hue_key(&color)].raw {
            list.push(color);
            list
        } else {
            list.pop();
            assert(list@ =~= sorted@.drop_last());
            let mut rest = inserted(list, color, temps);
            rest.push(last);
            rest
        }
    }
}

/// The relative temperature of a colour among colours from `coldest` to
/// `warmest`: 0 for the coldest, 1 for the warmest, and a half where all
/// are alike.
pub open spec fn relative_temperature_spec(temps: Seq<Fixed>, coldest: Hct, warmest: Hct, hct: Hct) -> Fixed {
    let range = temp_of(temps, warmest).minus(temp_of(temps, coldest));
    if range.raw == 0 {
        fx(HALF)
    } else {
        temp_of(temps, hct).minus(temp_of(temps, coldest)).over(range)
    }
}

/// What the search for the complement has found so far.
#[derive(Clone, Copy, Debug, PartialEq, Eq, Structural)]
pub struct ComplementSearch {
    pub smallest_error: Fixed,
    pub answer: Hct,
}

/// One colour of the hue circle at a time, with the temperature gathered
/// on the way: the state of the walk that spaces analogous colours.
#[derive(Clone, Copy, Debug, PartialEq, Eq, Structural)]
pub struct Walk {
    pub last_temp: Fixed,
    pub total: Fixed,
}

/// The temperatures of a colour's hue circle, and the colours that they
/// lead to.
pub struct TemperatureCache {
    pub input: Hct,
    pub hcts_by_hue: Vec<Hct>,
    pub temps: Vec<Fixed>,
    pub hcts_by_temp: Vec<Hct>,
}

/// What a cache holds, as plain values.
pub struct TemperatureView {
    pub input: Hct,
    pub hcts_by_hue: Seq<Hct>,
    pub temps: Seq<Fixed>,
    pub hcts_by_temp: Seq<Hct>,
}

/// What the cache of a colour holds.
pub open spec fn view_of(input: Hct) -> TemperatureView {
    TemperatureView {
        input,
        hcts_by_hue: hcts_below(input, HUES as nat),
        temps: temps_of(input),
        hcts_by_temp: hcts_by_temp_of(input),
    }
}

impl TemperatureView {
    /// The coldest of the colours.
    pub open spec fn spec_coldest(&self) -> Hct {
        self.hcts_by_temp[0]
    }

    /// The warmest of the colours.
    pub open spec fn spec_warmest(&self) -> Hct {
        self.hcts_by_temp[HUES as int]
    }

    /// The temperature of a colour relative to the colours of its chroma
    /// and tone: from 0 for the coldest to 1 for the warmest.
    pub open spec fn spec_relative_temperature(&self, hct: &Hct) -> Fixed {
        relative_temperature_spec(self.temps, self.spec_coldest(), self.spec_warmest(), *hct)
    }

    /// The search for the complement after the hue `addend` degrees on
    /// from the start has been looked at: a hue between start and end
    /// whose colour is nearer in relative temperature to the wanted one
    /// replaces the answer.
    pub open spec fn spec_complement_step(&self, state: ComplementSearch, start_hue: Fixed, end_hue: Fixed, wanted: Fixed, addend: usize) -> ComplementSearch {
        let hue = sanitize_degrees(start_hue.plus(Fixed::from_int(addend as i64)));
        if !is_between(hue, start_hue, end_hue) {
            state
        } else {
            let possible = self.hcts_by_hue[hue_key(&Hct { hue, chroma: hue, tone: hue, argb: 0 })
                as int];
            let range = temp_of(self.temps, self.spec_warmest()).minus(
                temp_of(self.temps, self.spec_coldest()),
            );
            let relative = temp_of(self.temps, possible).minus(
                temp_of(self.temps, self.spec_coldest()),
            ).over(range);
            let error = wanted.minus(relative).abs();
            if range.raw != 0 && error.lt(state.smallest_error) {
                ComplementSearch { smallest_error: error, answer: possible }
            } else {
                state
            }
        }
    }

    /// The search for the complement from the step `addend` on.
    pub open spec fn complement_from(&self, state: ComplementSearch, start_hue: Fixed, end_hue: Fixed, wanted: Fixed, addend: usize) -> ComplementSearch
        decreases HUES - addend,
    {
        if addend < HUES {
            self.complement_from(
                self.spec_complement_step(state, start_hue, end_hue, wanted, addend),
                start_hue,
                end_hue,
                wanted,
                (addend + 1) as usize,
            )
        } else {
            state
        }
    }

    /// The colour that complements the input colour: among the hues on
    /// the other side of the hue circle, between the warmest and the
    /// coldest colour, the one whose relative temperature is nearest to
    /// one minus that of the input.
    pub open spec fn spec_complement(&self) -> Hct {
        let coldest_hue = self.spec_coldest().hue;
        let warmest_hue = self.spec_warmest().hue;
        let start_is_warmest = is_between(self.input.hue, coldest_hue, warmest_hue);
        let start_hue = if start_is_warmest {
            warmest_hue
        } else {
            coldest_hue
        };
        let end_hue = if start_is_warmest {
            coldest_hue
        } else {
            warmest_hue
        };
        self.complement_from(
            ComplementSearch {
                smallest_error: Fixed::from_int(1000),
                answer: self.hcts_by_hue[hue_key(&self.input) as int],
            },
            start_hue,
            end_hue,
            Fixed::from_int(1).minus(self.spec_relative_temperature(&self.input)),
            0,
        ).answer
    }

    /// The temperature passed on the way once round the hue circle from
    /// `start_hue`, counted from the step `i` on: the sum of the changes
    /// in relative temperature from each whole hue to the next.
    pub open spec fn circle_from(&self, start_hue: usize, i: usize, walk: Walk) -> Fixed
        decreases 360 - i,
    {
        if i < 360 {
            self.circle_from(start_hue, (i + 1) as usize, self.spec_walk_step(start_hue, i, walk))
        } else {
            walk.total
        }
    }

    /// The walk after the colour `i` degrees on from `start_hue`.
    pub open spec fn spec_walk_step(&self, start_hue: usize, i: usize, walk: Walk) -> Walk {
        let temp = self.spec_relative_temperature(
            &self.hcts_by_hue[((start_hue + i) % 360) as int],
        );
        Walk { last_temp: temp, total: walk.total.plus(temp.minus(walk.last_temp).abs()) }
    }

    /// The colours after `hct` has been added as often as the temperature
    /// gathered allows: once for each multiple of `temp_step` that it has
    /// reached, up to `divisions` colours in all.
    pub open spec fn added_while(colors: Seq<Hct>, hct: Hct, gathered: Fixed, temp_step: Fixed, satisfied: bool, index_addend: nat, divisions: nat) -> Seq<Hct>
        decreases divisions - colors.len(),
    {
        if satisfied && colors.len() < divisions {
            Self::added_while(
                colors.push(hct),
                hct,
                gathered,
                temp_step,
                gathered.ge(steps(colors.len() + 1 + index_addend, temp_step)),
                index_addend + 1,
                divisions,
            )
        } else {
            colors
        }
    }

    /// The colours filled up to `divisions` with `hct`.
    pub open spec fn padded(colors: Seq<Hct>, hct: Hct, divisions: nat) -> Seq<Hct> {
        if colors.len() < divisions {
            Seq::new(divisions, |i: int| if i < colors.len() { colors[i] } else { hct })
        } else {
            colors
        }
    }

    /// The colours that divide the hue circle into `divisions` steps of
    /// equal temperature, from the hue `hue_addend` degrees on from
    /// `start_hue` on. When the circle is done and colours are still
    /// missing, the last colour stands for them.
    pub open spec fn divided_from(&self, colors: Seq<Hct>, walk: Walk, hue_addend: usize, temp_step: Fixed, divisions: nat, start_hue: usize) -> Seq<Hct>
        decreases HUES - hue_addend,
    {
        if colors.len() < divisions && hue_addend <= 360 {
            let hct = self.hcts_by_hue[((start_hue + hue_addend) % 360) as int];
            let next = self.spec_walk_step(start_hue, hue_addend, walk);
            let added = Self::added_while(
                colors,
                hct,
                next.total,
                temp_step,
                next.total.ge(steps(colors.len(), temp_step)),
                1,
                divisions,
            );
            if hue_addend == 360 {
                Self::padded(added, hct, divisions)
            } else {
                self.divided_from(
                    added,
                    next,
                    (hue_addend + 1) as usize,
                    temp_step,
                    divisions,
                    start_hue,
                )
            }
        } else {
            colors
        }
    }

    /// The colours that divide the hue circle, starting at the whole hue
    /// of the input colour, into `divisions` steps of equal temperature.
    pub open spec fn spec_divided(&self, divisions: usize) -> Seq<Hct> {
        let start_hue = hue_key(&self.input);
        let start_hct = self.hcts_by_hue[start_hue as int];
        let start = Walk {
            last_temp: self.spec_relative_temperature(&start_hct),
            total: Fixed::zero(),
        };
        let temp_step = self.circle_from(start_hue, 0, start).over(
            Fixed::from_int(divisions as i64),
        );
        self.divided_from(seq![start_hct], start, 1, temp_step, divisions as nat, start_hue)
    }

    /// The place, among `len` colours round the circle, of the colour
    /// `offset` places from the first: places are counted round and round.
    pub open spec fn spec_wrapped(offset: i64, len: usize) -> usize {
        ((offset as int) % (len as int)) as usize
    }

    /// `count` colours that go with the input colour, which stands in
    /// their middle: before it the colours `(count - 1) / 2` steps back
    /// round the divided circle, after it those of the steps onward.
    pub open spec fn spec_analogous_with(&self, count: usize, divisions: usize) -> Seq<Hct> {
        let all = self.spec_divided(divisions);
        let before = (count - 1) / 2;
        Seq::new(
            count as nat,
            |j: int|
                if j < before {
                    all[Self::spec_wrapped((j - before) as i64, all.len() as usize) as int]
                } else if j == before {
                    self.input
                } else {
                    all[Self::spec_wrapped((j - before) as i64, all.len() as usize) as int]
                },
        )
    }
}

impl TemperatureCache {
    /// What the cache holds, as plain values.
    pub open spec fn view(&self) -> TemperatureView {
        TemperatureView {
            input: self.input,
            hcts_by_hue: self.hcts_by_hue@,
            temps: self.temps@,
            hcts_by_temp: self.hcts_by_temp@,
        }
    }

    /// Whether the cache holds what its input colour determines.
    pub open spec fn wf(&self) -> bool {
        &&& self@ == view_of(self.input)
        &&& self.temps@.len() == HUES
        &&& self.hcts_by_temp@.len() == HUES + 1
    }

    /// The cache of a colour.
    pub fn new(input: Hct) -> (out: Self)
        ensures
            out.wf(),
            out.input == input,
    {
        let mut hcts_by_hue: Vec<Hct> = Vec::new();
        let mut temps: Vec<Fixed> = Vec::new();
        let mut k: usize = 0;
        while k < HUES
            invariant
                k <= HUES,
                temps@ == Seq::new(k as nat, |h: int| Fixed::zero()),
            decreases HUES - k,
        {
            temps.push(Fixed::zero());
            assert(temps@ =~= Seq::new((k + 1) as nat, |h: int| Fixed::zero()));
            k = k + 1;
        }
        let mut hue: usize = 0;
        while hue < HUES
            invariant
                hue <= HUES,
                hcts_by_hue@ == hcts_below(input, hue as nat),
                temps@ == temps_below(input, hue as nat),
                temps@.len() == HUES,
            decreases HUES - hue,
        {
            let color = hct_at_hue(input, hue);
            hcts_by_hue.push(color);
            assert(hcts_by_hue@ =~= hcts_below(input, (hue + 1) as nat));
            temps.set(hue_key(&color), raw_temperature(color));
            hue = hue + 1;
        }
        temps.set(hue_key(&input), raw_temperature(input));
        let mut hcts_by_temp: Vec<Hct> = Vec::new();
        let ghost all = hcts_by_hue@.push(input);
        let mut i: usize = 0;
        while i < HUES
            invariant
                i <= HUES,
                hcts_by_hue@ == hcts_below(input, HUES as nat),
                all == hcts_by_hue@.push(input),
                temps@ == temps_of(input),
                temps@.len() == HUES,
                hcts_by_temp@ == sorted_prefix(all, i as nat, temps@),
            decreases HUES - i,
        {
            assert(all[i as int] == hcts_by_hue@[i as int]);
            hcts_by_temp = inserted(hcts_by_temp, hcts_by_hue[i], &temps);
            i = i + 1;
        }
        assert(all[HUES as int] == input);
        hcts_by_temp = inserted(hcts_by_temp, input, &temps);
        proof {
            lemma_sorted_prefix_len(all, (HUES + 1) as nat, temps@);
        }
        TemperatureCache { input, hcts_by_hue, temps, hcts_by_temp }
    }

    /// The temperature of a colour; see [`raw_temperature`].
    pub fn raw_temperature(color: Hct) -> (out: Fixed)
        ensures
            out == raw_temperature(color),
    {
        raw_temperature(color)
    }

    /// The colour that the cache was made for.
    pub fn input(&self) -> (out: &Hct)
        ensures
            *out == self.input,
    {
        &self.input
    }

    /// The 361 colours, by whole hue.
    pub fn hcts_by_hue(&self) -> (out: &Vec<Hct>)
        ensures
            out@ == self.hcts_by_hue@,
    {
        &self.hcts_by_hue
    }

    /// The 361 colours and the input colour, from coldest to warmest.
    pub fn hcts_by_temp(&self) -> (out: &Vec<Hct>)
        ensures
            out@ == self.hcts_by_temp@,
    {
        &self.hcts_by_temp
    }

    /// The temperatures by whole hue.
    pub fn temps_by_hct(&self) -> (out: &Vec<Fixed>)
        ensures
            out@ == self.temps@,
    {
        &self.temps
    }

    /// The coldest of the colours.
    pub fn coldest(&self) -> (out: &Hct)
        requires
            self.wf(),
        ensures
            *out == self@.spec_coldest(),
    {
        &self.hcts_by_temp[0]
    }

    /// The warmest of the colours.
    pub fn warmest(&self) -> (out: &Hct)
        requires
            self.wf(),
        ensures
            *out == self@.spec_warmest(),
    {
        &self.hcts_by_temp[HUES]
    }

    /// The temperature of a colour relative to the colours of its chroma
    /// and tone: from 0 for the coldest to 1 for the warmest.
    pub fn relative_temperature(&self, hct: &Hct) -> (out: Fixed)
        requires
            self.wf(),
        ensures
            out == self@.spec_relative_temperature(hct),
    {
        let coldest_temp = self.temps[hue_key(self.coldest())];
        let warmest_temp = self.temps[hue_key(self.warmest())];
        let range = warmest_temp.minus(coldest_temp);
        if range.raw == 0 {
            fx(HALF)
        } else {
            self.temps[hue_key(hct)].minus(coldest_temp).over(range)
        }
    }

    /// The relative temperature of the input colour.
    pub fn input_relative_temperature(&self) -> (out: Fixed)
        requires
            self.wf(),
        ensures
            out == self@.spec_relative_temperature(&self.input),
    {
        self.relative_temperature(&self.input)
    }

    /// One step of the search for the complement.
    pub fn complement_step(&self, state: ComplementSearch, start_hue: Fixed, end_hue: Fixed, wanted: Fixed, addend: usize) -> (out: ComplementSearch)
        requires
            self.wf(),
            addend <= 360,
        ensures
            out == self@.spec_complement_step(state, start_hue, end_hue, wanted, addend),
    {
        let hue = sanitize_degrees(start_hue.plus(Fixed::from_int(addend as i64)));
        if !is_between(hue, start_hue, end_hue) {
            state
        } else {
            let possible = self.hcts_by_hue[hue_key(&Hct { hue, chroma: hue, tone: hue, argb: 0 })];
            let coldest_temp = self.temps[hue_key(self.coldest())];
            let range = self.temps[hue_key(self.warmest())].minus(coldest_temp);
            let relative = self.temps[hue_key(&possible)].minus(coldest_temp).over(range);
            let error = wanted.minus(relative).abs();
            if range.raw != 0 && error.lt(state.smallest_error) {
                ComplementSearch { smallest_error: error, answer: possible }
            } else {
                state
            }
        }
    }

    /// The colour that complements the input colour.
    pub fn complement(&self) -> (out: Hct)
        requires
            self.wf(),
        ensures
            out == self@.spec_complement(),
    {
        let coldest_hue = self.coldest().hue;
        let warmest_hue = self.warmest().hue;
        let start_is_warmest = is_between(self.input.hue, coldest_hue, warmest_hue);
        let start_hue = if start_is_warmest {
            warmest_hue
        } else {
            coldest_hue
        };
        let end_hue = if start_is_warmest {
            coldest_hue
        } else {
            warmest_hue
        };
        let wanted = Fixed::from_int(1).minus(self.input_relative_temperature());
        let mut state = ComplementSearch {
            smallest_error: Fixed::from_int(1000),
            answer: self.hcts_by_hue[hue_key(&self.input)],
        };
        let ghost first = state;
        let mut addend: usize = 0;
        while addend < HUES
            invariant
                addend <= HUES,
                self.wf(),
                self@.complement_from(state, start_hue, end_hue, wanted, addend)
                    == self@.complement_from(first, start_hue, end_hue, wanted, 0),
            decreases HUES - addend,
        {
            state = self.complement_step(state, start_hue, end_hue, wanted, addend);
            addend = addend + 1;
        }
        state.answer
    }

    /// One step of the walk round the hue circle.
    pub fn walk_step(&self, start_hue: usize, i: usize, walk: Walk) -> (out: Walk)
        requires
            self.wf(),
            start_hue < HUES,
            i <= 360,
        ensures
            out == self@.spec_walk_step(start_hue, i, walk),
    {
        let temp = self.relative_temperature(&self.hcts_by_hue[(start_hue + i) % 360]);
        Walk { last_temp: temp, total: walk.total.plus(temp.minus(walk.last_temp).abs()) }
    }

    /// The colours that divide the hue circle into steps of equal
    /// temperature.
    pub fn divided(&self, divisions: usize) -> (out: Vec<Hct>)
        requires
            self.wf(),
            1 <= divisions <= 0x7fff_ffff,
        ensures
            out@ == self@.spec_divided(divisions),
            1 <= out@.len() <= divisions,
    {
        let start_hue = hue_key(&self.input);
        let start_hct = self.hcts_by_hue[start_hue];
        let start = Walk { last_temp: self.relative_temperature(&start_hct), total: Fixed::zero() };
        let mut walk = start;
        let mut i: usize = 0;
        while i < 360
            invariant
                i <= 360,
                self.wf(),
                start_hue < HUES,
                self@.circle_from(start_hue, i, walk) == self@.circle_from(start_hue, 0, start),
            decreases 360 - i,
        {
            walk = self.walk_step(start_hue, i, walk);
            i = i + 1;
        }
        let temp_step = walk.total.over(Fixed::from_int(divisions as i64));
        let mut all_colors: Vec<Hct> = Vec::new();
        all_colors.push(start_hct);
        assert(all_colors@ =~= seq![start_hct]);
        let mut walk = start;
        let mut hue_addend: usize = 1;
        while all_colors.len() < divisions && hue_addend <= 360
            invariant
                1 <= hue_addend <= HUES,
                self.wf(),
                start_hue < HUES,
                1 <= divisions <= 0x7fff_ffff,
                1 <= all_colors@.len() <= divisions,
                hue_addend == HUES ==> all_colors@.len() >= divisions,
                self@.divided_from(
                    all_colors@,
                    walk,
                    hue_addend,
                    temp_step,
                    divisions as nat,
                    start_hue,
                ) == self@.spec_divided(divisions),
            decreases HUES - hue_addend,
        {
            let hct = self.hcts_by_hue[(start_hue + hue_addend) % 360];
            let next = self.walk_step(start_hue, hue_addend, walk);
            let ghost before = all_colors@;
            let mut satisfied = next.total.ge(
                Fixed::from_int(all_colors.len() as i64).times(temp_step),
            );
            let mut index_addend: usize = 1;
            while satisfied && all_colors.len() < divisions
                invariant
                    1 <= index_addend <= all_colors@.len(),
                    all_colors@.len() <= divisions,
                    before.len() <= all_colors@.len(),
                    1 <= divisions <= 0x7fff_ffff,
                    TemperatureView::added_while(
                        all_colors@,
                        hct,
                        next.total,
                        temp_step,
                        satisfied,
                        index_addend as nat,
                        divisions as nat,
                    ) == TemperatureView::added_while(
                        before,
                        hct,
                        next.total,
                        temp_step,
                        next.total.ge(steps(before.len(), temp_step)),
                        1,
                        divisions as nat,
                    ),
                decreases divisions - all_colors@.len(),
            {
                all_colors.push(hct);
                satisfied = next.total.ge(
                    Fixed::from_int((all_colors.len() + index_addend) as i64).times(temp_step),
                );
                index_addend = index_addend + 1;
            }
            if hue_addend == 360 {
                let ghost unpadded = all_colors@;
                while all_colors.len() < divisions
                    invariant
                        all_colors@.len() >= unpadded.len(),
                        1 <= unpadded.len() <= divisions,
                        all_colors@.len() <= divisions,
                        forall|k: int|
                            0 <= k < all_colors@.len() ==> all_colors@[k] == (if k
                                < unpadded.len() {
                                unpadded[k]
                            } else {
                                hct
                            }),
                    decreases divisions - all_colors@.len(),
                {
                    all_colors.push(hct);
                }
                assert(all_colors@ =~= TemperatureView::padded(unpadded, hct, divisions as nat));
            }
            walk = next;
            hue_addend = hue_addend + 1;
        }
        all_colors
    }

    /// The place of a colour counted round the circle.
    pub fn wrapped(offset: i64, len: usize) -> (out: usize)
        requires
            1 <= len <= 0x7fff_ffff,
        ensures
            out == TemperatureView::spec_wrapped(offset, len),
            out < len,
    {
        assert(0 <= (offset as int) % (len as int) < len) by (nonlinear_arith)
            requires
                len >= 1,
        ;
        match offset.checked_rem_euclid(len as i64) {
            Some(r) => r as usize,
            None => 0,
        }
    }

    /// `count` colours of differing hue, equally apart in temperature,
    /// with the input colour in their middle. With fewer divisions than
    /// colours, colours repeat.
    pub fn analogous_with(&self, count: usize, divisions: usize) -> (out: Vec<Hct>)
        requires
            self.wf(),
            1 <= count <= 0x7fff_ffff,
            1 <= divisions <= 0x7fff_ffff,
        ensures
            out@ == self@.spec_analogous_with(count, divisions),
            out@.len() == count,
            out@[(count - 1) / 2] == self.input,
    {
        let all = self.divided(divisions);
        let before: usize = (count - 1) / 2;
        let mut answers: Vec<Hct> = Vec::new();
        let mut j: usize = 0;
        while j < count
            invariant
                j <= count <= 0x7fff_ffff,
                before == (count - 1) / 2,
                1 <= all@.len() <= 0x7fff_ffff,
                all@ == self@.spec_divided(divisions),
                answers@ == self@.spec_analogous_with(count, divisions).take(j as int),
            decreases count - j,
        {
            let color = if j == before {
                self.input
            } else {
                all[Self::wrapped(j as i64 - before as i64, all.len())]
            };
            answers.push(color);
            assert(answers@ =~= self@.spec_analogous_with(count, divisions).take(j + 1));
            j = j + 1;
        }
        assert(answers@ =~= self@.spec_analogous_with(count, divisions));
        answers
    }

    /// Five colours that go with the input colour, from a circle of
    /// twelve divisions.
    pub fn analogous(&self) -> (out: Vec<Hct>)
        requires
            self.wf(),
        ensures
            out@ == self@.spec_analogous_with(5, 12),
            out@.len() == 5,
            out@[2] == self.input,
    {
        self.analogous_with(5, 12)
    }
}

/// A colour of the list lies, in temperature, between the first and the
/// last of the list.
pub proof fn lemma_extremes_bound(input: Hct, k: int)
    requires
        0 <= k <= HUES,
    ensures
        temp_of(temps_of(input), hcts_by_temp_of(input)[0]).raw <= temp_of(
            temps_of(input),
            hcts_by_temp_of(input)[k],
        ).raw,
        temp_of(temps_of(input), hcts_by_temp_of(input)[k]).raw <= temp_of(
            temps_of(input),
            hcts_by_temp_of(input)[HUES as int],
        ).raw,
{
    let all = hcts_below(input, HUES as nat).push(input);
    lemma_sorted_prefix_len(all, (HUES + 1) as nat, temps_of(input));
    lemma_sorted_prefix_is_ordered(all, (HUES + 1) as nat, temps_of(input));
}

/// The relative temperature of a colour that is neither colder than the
/// coldest nor warmer than the warmest lies within 0 and 1.
pub proof fn lemma_relative_temperature_is_a_share(temps: Seq<Fixed>, coldest: Hct, warmest: Hct, hct: Hct)
    requires
        temp_of(temps, coldest).raw <= temp_of(temps, hct).raw <= temp_of(temps, warmest).raw,
        -TEMPERATURE_LIMIT <= temp_of(temps, coldest).raw,
        temp_of(temps, warmest).raw <= TEMPERATURE_LIMIT,
    ensures
        0 <= relative_temperature_spec(temps, coldest, warmest, hct).raw <= SCALE,
{
    let range = temp_of(temps, warmest).raw - temp_of(temps, coldest).raw;
    let part = temp_of(temps, hct).raw - temp_of(temps, coldest).raw;
    if range != 0 {
        assert(part * SCALE <= i128::MAX) by (nonlinear_arith)
            requires
                0 <= part <= 2 * TEMPERATURE_LIMIT,
        ;
        assert(0 <= part * SCALE <= range * SCALE) by (nonlinear_arith)
            requires
                0 <= part <= range,
        ;
        assert(0 <= (part * SCALE) / range <= SCALE) by (nonlinear_arith)
            requires
                0 <= part * SCALE <= range * SCALE,
                range > 0,
        ;
    }
}

/// The colour that complements a colour.
pub open spec fn complement_of(input: Hct) -> Hct {
    view_of(input).spec_complement()
}

/// The colours that go with a colour.
pub open spec fn analogous_of(input: Hct, count: usize, divisions: usize) -> Seq<Hct> {
    view_of(input).spec_analogous_with(count, divisions)
}

/// `count` steps of temperature.
pub open spec fn steps(count: nat, temp_step: Fixed) -> Fixed {
    Fixed::from_int(count as i64).times(temp_step)
}

} // verus!
