//! Ranking colours by how well they suit a theme.
//!
//! Given how often each colour occurs, say in an image, the colours are
//! scored by how much of the image has a hue near theirs and by their
//! chroma, and the best are chosen so that their hues are well apart.
use vstd::prelude::*;
use crate::fixed::{Fixed, HUNDREDTH};
use crate::hct::hct::Hct;
use crate::utils::math::{difference_degrees, sanitize_degrees_int};

verus! {

/// The chroma that suits a theme best.
pub const TARGET_CHROMA: i64 = 48;

/// The chroma below which a colour does not suit a theme.
pub const CUTOFF_CHROMA: i64 = 5;

/// The number of whole hues.
pub const HUE_COUNT: usize = 360;

/// The colour given where no colour suits: Google Blue.
pub const FALLBACK_COLOR: u32 = 0xff4285f4;

/// The number of colours given where none is asked for.
pub const DEFAULT_DESIRED: usize = 4;

/// The widest spacing of hues that is tried, in degrees.
pub const WIDEST_SPACING: u8 = 90;

/// The narrowest spacing of hues that is tried, in degrees.
pub const NARROWEST_SPACING: u8 = 15;

/// A colour with its score.
#[derive(Clone, Copy, Debug, PartialEq, Eq, Structural)]
pub struct ScoredHct {
    pub hct: Hct,
    pub score: Fixed,
}

/// The whole hue, from 0 to 359, below the hue of a colour.
pub open spec fn hue_below_spec(hct: &Hct) -> usize {
    sanitize_degrees_int(
        hct.hue.floor().clamp(Fixed::from_int(0), Fixed::from_int(359)).floor_int() as i64,
    ) as usize
}

#[verifier::when_used_as_spec(hue_below_spec)]
pub fn hue_below(hct: &Hct) -> (out: usize)
    ensures
        out == hue_below_spec(hct),
        out < HUE_COUNT,
{
    sanitize_degrees_int(
        hct.hue.floor().clamp(Fixed::from_int(0), Fixed::from_int(359)).floor_int() as i64,
    ) as usize
}

/// The whole hue, from 0 to 359, nearest to the hue of a colour.
pub open spec fn hue_nearest_spec(hct: &Hct) -> usize {
    sanitize_degrees_int(
        hct.hue.round().clamp(Fixed::from_int(0), Fixed::from_int(360)).floor_int() as i64,
    ) as usize
}

#[verifier::when_used_as_spec(hue_nearest_spec)]
pub fn hue_nearest(hct: &Hct) -> (out: usize)
    ensures
        out == hue_nearest_spec(hct),
        out < HUE_COUNT,
{
    sanitize_degrees_int(
        hct.hue.round().clamp(Fixed::from_int(0), Fixed::from_int(360)).floor_int() as i64,
    ) as usize
}

/// The sum of two counts, held at the greatest count.
pub open spec fn counted_spec(a: u64, b: u64) -> u64 {
    if a > u64::MAX - b {
        u64::MAX
    } else {
        (a + b) as u64
    }
}

#[verifier::when_used_as_spec(counted_spec)]
pub fn counted(a: u64, b: u64) -> (out: u64)
    ensures
        out == counted_spec(a, b),
{
    if a > u64::MAX - b {
        u64::MAX
    } else {
        (a + b) as u64
    }
}

/// A count as a number, held at the greatest whole number that has one.
pub open spec fn count_as_fixed_spec(count: u64) -> Fixed {
    if count > 0x7fff_ffff_ffff_ffff {
        Fixed::from_int(0x7fff_ffff_ffff_ffff)
    } else {
        Fixed::from_int(count as i64)
    }
}

#[verifier::when_used_as_spec(count_as_fixed_spec)]
pub fn count_as_fixed(count: u64) -> (out: Fixed)
    ensures
        out == count_as_fixed_spec(count),
{
    if count > 0x7fff_ffff_ffff_ffff {
        Fixed::from_int(0x7fff_ffff_ffff_ffff)
    } else {
        Fixed::from_int(count as i64)
    }
}

/// The score of a colour: 70 for each share of the image that has a hue
/// near its own, and for each unit of chroma away from 48 a tenth less if
/// it is below, three tenths more if it is above.
pub open spec fn score_of_spec(hct: &Hct, proportion: Fixed) -> Fixed {
    proportion.times_int(100).times(Fixed::from_tenths(7)).plus(
        hct.chroma.minus(Fixed::from_int(TARGET_CHROMA)).times(
            if hct.chroma.lt(Fixed::from_int(TARGET_CHROMA)) {
                Fixed::from_tenths(1)
            } else {
                Fixed::from_tenths(3)
            },
        ),
    )
}

#[verifier::when_used_as_spec(score_of_spec)]
pub fn score_of(hct: &Hct, proportion: Fixed) -> (out: Fixed)
    ensures
        out == score_of_spec(hct, proportion),
{
    proportion.times_int(100).times(Fixed::from_tenths(7)).plus(
        hct.chroma.minus(Fixed::from_int(TARGET_CHROMA)).times(
            if hct.chroma.lt(Fixed::from_int(TARGET_CHROMA)) {
                Fixed::from_tenths(1)
            } else {
                Fixed::from_tenths(3)
            },
        ),
    )
}

/// Whether a colour is too grey, or its hue too rare, to suit a theme:
/// its chroma is below 5, or at most a hundredth of the image has a hue
/// near its own.
pub open spec fn is_unsuitable_spec(hct: &Hct, proportion: Fixed) -> bool {
    hct.chroma.lt(Fixed::from_int(CUTOFF_CHROMA)) || proportion.raw <= HUNDREDTH
}

#[verifier::when_used_as_spec(is_unsuitable_spec)]
pub fn is_unsuitable(hct: &Hct, proportion: Fixed) -> (out: bool)
    ensures
        out == is_unsuitable_spec(hct, proportion),
{
    hct.chroma.lt(Fixed::from_int(CUTOFF_CHROMA)) || proportion.raw <= HUNDREDTH
}

/// How often each whole hue occurs among the first `n` colours, counted
/// by population.
pub open spec fn hue_populations(colors: Seq<(u32, u16)>, n: nat) -> Seq<u64>
    decreases n,
{
    if n == 0 {
        Seq::new(HUE_COUNT as nat, |h: int| 0u64)
    } else {
        let before = hue_populations(colors, (n - 1) as nat);
        let hue = hue_below(&Hct::from_int(colors[n - 1].0)) as int;
        before.update(hue, counted(before[hue], colors[n - 1].1 as u64))
    }
}

/// The population of the first `n` colours together.
pub open spec fn population_sum(colors: Seq<(u32, u16)>, n: nat) -> u64
    decreases n,
{
    if n == 0 {
        0
    } else {
        counted(population_sum(colors, (n - 1) as nat), colors[n - 1].1 as u64)
    }
}

/// The shares by hue after the share of one hue has been added to the
/// `j` hues from 14 degrees below it on.
pub open spec fn spread(shares: Seq<Fixed>, proportion: Fixed, hue: int, j: nat) -> Seq<Fixed>
    decreases j,
{
    if j == 0 {
        shares
    } else {
        let before = spread(shares, proportion, hue, (j - 1) as nat);
        let neighbor = sanitize_degrees_int((hue - 14 + (j - 1)) as i64) as int;
        before.update(neighbor, before[neighbor].plus(proportion))
    }
}

/// For each whole hue, the share of the image that has a hue within 15
/// degrees of it, after the first `h` hues have been spread.
pub open spec fn excited_shares(populations: Seq<u64>, sum: u64, h: nat) -> Seq<Fixed>
    decreases h,
{
    if h == 0 {
        Seq::new(HUE_COUNT as nat, |k: int| Fixed::zero())
    } else {
        spread(
            excited_shares(populations, sum, (h - 1) as nat),
            count_as_fixed(populations[h - 1]).over(count_as_fixed(sum)),
            h - 1,
            30,
        )
    }
}

/// The first `n` colours with their scores; with `filter`, without the
/// unsuitable ones.
pub open spec fn scored(colors: Seq<(u32, u16)>, shares: Seq<Fixed>, filter: bool, n: nat) -> Seq<ScoredHct>
    decreases n,
{
    if n == 0 {
        Seq::empty()
    } else {
        let before = scored(colors, shares, filter, (n - 1) as nat);
        let hct = Hct::from_int(colors[n - 1].0);
        let proportion = shares[hue_nearest(&hct) as int];
        if filter && is_unsuitable(&hct, proportion) {
            before
        } else {
            before.push(ScoredHct { hct, score: score_of(&hct, proportion) })
        }
    }
}

/// A list of colours, ordered from the highest score down, with one more
/// put in: after every colour whose score is not lower.
pub open spec fn ranked_with(ranked: Seq<ScoredHct>, entry: ScoredHct) -> Seq<ScoredHct>
    decreases ranked.len(),
{
    if ranked.len() == 0 {
        seq![entry]
    } else if ranked.last().score.raw >= entry.score.raw {
        ranked.push(entry)
    } else {
        ranked_with(ranked.drop_last(), entry).push(ranked.last())
    }
}

/// The first `n` of a list of colours, from the highest score down;
/// colours of equal score keep their order.
pub open spec fn ranked_prefix(entries: Seq<ScoredHct>, n: nat) -> Seq<ScoredHct>
    decreases n,
{
    if n == 0 {
        Seq::empty()
    } else {
        ranked_with(ranked_prefix(entries, (n - 1) as nat), entries[n - 1])
    }
}

/// Whether one of the first `n` colours chosen has a hue within
/// `spacing` degrees of that of `hct`.
pub open spec fn crowds(chosen: Seq<Hct>, hct: Hct, spacing: u8, n: nat) -> bool
    decreases n,
{
    if n == 0 {
        false
    } else {
        crowds(chosen, hct, spacing, (n - 1) as nat) || difference_degrees(
            hct.hue,
            chosen[n - 1].hue,
        ).lt(Fixed::from_int(spacing as i64))
    }
}

/// The colours chosen from the first `n` of the ranked ones: each colour
/// in turn, unless its hue is within `spacing` degrees of one chosen
/// before it, until `desired` are chosen. The first colour is looked at
/// even where none is desired.
pub open spec fn chosen_prefix(ranked: Seq<ScoredHct>, spacing: u8, desired: usize, n: nat) -> Seq<Hct>
    decreases n,
{
    if n == 0 {
        Seq::empty()
    } else {
        let before = chosen_prefix(ranked, spacing, desired, (n - 1) as nat);
        if (n > 1 && before.len() >= desired) || crowds(
            before,
            ranked[n - 1].hct,
            spacing,
            before.len(),
        ) {
            before
        } else {
            before.push(ranked[n - 1].hct)
        }
    }
}

/// No more colours are chosen than are desired, or one where none is.
pub proof fn lemma_chosen_is_bounded(ranked: Seq<ScoredHct>, spacing: u8, desired: usize, n: nat)
    ensures
        chosen_prefix(ranked, spacing, desired, n).len() <= n,
        chosen_prefix(ranked, spacing, desired, n).len() <= desired || chosen_prefix(
            ranked,
            spacing,
            desired,
            n,
        ).len() <= 1,
    decreases n,
{
    if n > 0 {
        lemma_chosen_is_bounded(ranked, spacing, desired, (n - 1) as nat);
    }
}

/// The colours chosen at one spacing keep that spacing: no two of them
/// have hues nearer to each other.
pub proof fn lemma_chosen_keeps_the_spacing(ranked: Seq<ScoredHct>, spacing: u8, desired: usize, n: nat, later: int)
    requires
        0 <= later < chosen_prefix(ranked, spacing, desired, n).len(),
    ensures
        !crowds(
            chosen_prefix(ranked, spacing, desired, n),
            chosen_prefix(ranked, spacing, desired, n)[later],
            spacing,
            later as nat,
        ),
    decreases n,
{
    let now = chosen_prefix(ranked, spacing, desired, n);
    if n > 0 {
        let before = chosen_prefix(ranked, spacing, desired, (n - 1) as nat);
        if later < before.len() {
            lemma_chosen_keeps_the_spacing(ranked, spacing, desired, (n - 1) as nat, later);
            assert(now[later] == before[later]);
            lemma_crowds_looks_at_a_prefix(before, now, before[later], spacing, later as nat);
        } else {
            assert(now == before.push(ranked[n - 1].hct));
            lemma_crowds_looks_at_a_prefix(before, now, ranked[n - 1].hct, spacing, before.len());
        }
    }
}

/// Whether a colour is crowded by the first `n` colours of a list does
/// not depend on the rest of the list.
pub proof fn lemma_crowds_looks_at_a_prefix(a: Seq<Hct>, b: Seq<Hct>, hct: Hct, spacing: u8, n: nat)
    requires
        n <= a.len(),
        n <= b.len(),
        forall|k: int| 0 <= k < n ==> a[k] == b[k],
    ensures
        crowds(a, hct, spacing, n) == crowds(b, hct, spacing, n),
    decreases n,
{
    if n > 0 {
        lemma_crowds_looks_at_a_prefix(a, b, hct, spacing, (n - 1) as nat);
    }
}

/// The colours chosen at the widest spacing, from `spacing` down to 15
/// degrees, at which `desired` colours can be chosen; at 15 degrees, as
/// many as can be.
pub open spec fn chosen_from(ranked: Seq<ScoredHct>, spacing: u8, desired: usize) -> Seq<Hct>
    decreases spacing,
{
    let chosen = chosen_prefix(ranked, spacing, desired, ranked.len());
    if chosen.len() >= desired || spacing <= NARROWEST_SPACING {
        chosen
    } else {
        chosen_from(ranked, (spacing - 1) as u8, desired)
    }
}

/// No more colours are chosen at any spacing than are desired, or one
/// where none is.
pub proof fn lemma_chosen_from_is_bounded(ranked: Seq<ScoredHct>, spacing: u8, desired: usize)
    ensures
        chosen_from(ranked, spacing, desired).len() <= desired || chosen_from(
            ranked,
            spacing,
            desired,
        ).len() <= 1,
    decreases spacing,
{
    lemma_chosen_is_bounded(ranked, spacing, desired, ranked.len());
    let chosen = chosen_prefix(ranked, spacing, desired, ranked.len());
    if !(chosen.len() >= desired || spacing <= NARROWEST_SPACING) {
        lemma_chosen_from_is_bounded(ranked, (spacing - 1) as u8, desired);
    }
}

/// The colours ranked by how well they suit a theme, the best first:
/// the colours chosen, or the fallback colour where none is.
pub open spec fn score_with_spec(colors: Seq<(u32, u16)>, desired: usize, fallback_color_argb: u32, filter: bool) -> Seq<u32> {
    let shares = excited_shares(
        hue_populations(colors, colors.len()),
        population_sum(colors, colors.len()),
        HUE_COUNT as nat,
    );
    let entries = scored(colors, shares, filter, colors.len());
    let chosen = chosen_from(ranked_prefix(entries, entries.len()), WIDEST_SPACING, desired);
    if chosen.len() == 0 {
        seq![fallback_color_argb]
    } else {
        chosen.map_values(|hct: Hct| hct.argb)
    }
}

/// Puts one more colour into a list ordered from the highest score down.
pub fn ranked_with_entry(ranked: Vec<ScoredHct>, entry: ScoredHct) -> (out: Vec<ScoredHct>)
    ensures
        out@ == ranked_with(ranked@, entry),
    decreases ranked@.len(),
{
    let mut list = ranked;
    if list.len() == 0 {
        list.push(entry);
        assert(list@ =~= seq![entry]);
        list
    } else {
        let last = list[list.len() - 1];
        if last.score.raw >= entry.score.raw {
            list.push(entry);
            list
        } else {
            list.pop();
            assert(list@ =~= ranked@.drop_last());
            let mut rest = ranked_with_entry(list, entry);
            rest.push(last);
            rest
        }
    }
}

/// The shares by hue: for each whole hue, the share of the image that
/// has a hue within 15 degrees of it.
pub fn excited(colors: &Vec<(u32, u16)>) -> (out: Vec<Fixed>)
    ensures
        out@ == excited_shares(
            hue_populations(colors@, colors@.len()),
            population_sum(colors@, colors@.len()),
            HUE_COUNT as nat,
        ),
        out@.len() == HUE_COUNT,
{
    let mut populations: Vec<u64> = Vec::new();
    let mut shares: Vec<Fixed> = Vec::new();
    let mut k: usize = 0;
    while k < HUE_COUNT
        invariant
            k <= HUE_COUNT,
            populations@ == Seq::new(k as nat, |h: int| 0u64),
            shares@ == Seq::new(k as nat, |h: int| Fixed::zero()),
        decreases HUE_COUNT - k,
    {
        populations.push(0);
        shares.push(Fixed::zero());
        assert(populations@ =~= Seq::new((k + 1) as nat, |h: int| 0u64));
        assert(shares@ =~= Seq::new((k + 1) as nat, |h: int| Fixed::zero()));
        k = k + 1;
    }
    let mut sum: u64 = 0;
    let mut i: usize = 0;
    while i < colors.len()
        invariant
            i <= colors@.len(),
            populations@ == hue_populations(colors@, i as nat),
            populations@.len() == HUE_COUNT,
            sum == population_sum(colors@, i as nat),
        decreases colors@.len() - i,
    {
        let hue = hue_below(&Hct::from_int(colors[i].0));
        let population: u64 = colors[i].1 as u64;
        populations.set(hue, counted(populations[hue], population));
        sum = counted(sum, population);
        i = i + 1;
    }
    let mut h: usize = 0;
    while h < HUE_COUNT
        invariant
            h <= HUE_COUNT,
            populations@.len() == HUE_COUNT,
            shares@.len() == HUE_COUNT,
            shares@ == excited_shares(populations@, sum, h as nat),
        decreases HUE_COUNT - h,
    {
        let proportion = count_as_fixed(populations[h]).over(count_as_fixed(sum));
        let ghost before = shares@;
        let mut j: usize = 0;
        while j < 30
            invariant
                j <= 30,
                h < HUE_COUNT,
                shares@.len() == HUE_COUNT,
                shares@ == spread(before, proportion, h as int, j as nat),
            decreases 30 - j,
        {
            let neighbor = sanitize_degrees_int(h as i64 - 14 + j as i64) as usize;
            shares.set(neighbor, shares[neighbor].plus(proportion));
            j = j + 1;
        }
        h = h + 1;
    }
    shares
}

/// Whether a colour already chosen has a hue within `spacing` degrees
/// of that of `hct`.
pub fn has_duplicate_hue(chosen: &Vec<Hct>, hct: &Hct, spacing: u8) -> (out: bool)
    ensures
        out == crowds(chosen@, *hct, spacing, chosen@.len()),
{
    let mut found = false;
    let mut k: usize = 0;
    while k < chosen.len()
        invariant
            k <= chosen@.len(),
            found == crowds(chosen@, *hct, spacing, k as nat),
        decreases chosen@.len() - k,
    {
        if difference_degrees(hct.hue, chosen[k].hue).lt(Fixed::from_int(spacing as i64)) {
            found = true;
        }
        k = k + 1;
    }
    found
}

/// The colours chosen at one spacing of hues.
pub fn chosen_at(ranked: &Vec<ScoredHct>, spacing: u8, desired: usize) -> (out: Vec<Hct>)
    ensures
        out@ == chosen_prefix(ranked@, spacing, desired, ranked@.len()),
{
    let mut chosen: Vec<Hct> = Vec::new();
    let mut n: usize = 0;
    while n < ranked.len()
        invariant
            n <= ranked@.len(),
            chosen@ == chosen_prefix(ranked@, spacing, desired, n as nat),
        decreases ranked@.len() - n,
    {
        if (n == 0 || chosen.len() < desired) && !has_duplicate_hue(
            &chosen,
            &ranked[n].hct,
            spacing,
        ) {
            chosen.push(ranked[n].hct);
        }
        n = n + 1;
    }
    chosen
}

/// The colours of `colors_to_population`, each with the number of times
/// that it occurs, ranked by how well they suit a theme: at most
/// `desired` colours (4 where none is given) whose hues are as far apart
/// as can be, the most suitable first. With `filter` (the default)
/// colours that are nearly grey or whose hue is rare are left out. Where
/// no colour is left, the answer is `fallback_color_argb` alone (Google
/// Blue where none is given).
pub fn score_with(colors_to_population: &Vec<(u32, u16)>, desired: Option<usize>, fallback_color_argb: Option<u32>, filter: Option<bool>) -> (out: Vec<u32>)
    ensures
        out@ == score_with_spec(
            colors_to_population@,
            match desired {
                Some(count) => count,
                None => DEFAULT_DESIRED,
            },
            match fallback_color_argb {
                Some(color) => color,
                None => FALLBACK_COLOR,
            },
            match filter {
                Some(choice) => choice,
                None => true,
            },
        ),
        out@.len() >= 1,
        out@.len() <= 1 || out@.len() <= match desired {
            Some(count) => count,
            None => DEFAULT_DESIRED,
        },
{
    let desired: usize = match desired {
        Some(count) => count,
        None => DEFAULT_DESIRED,
    };
    let fallback: u32 = match fallback_color_argb {
        Some(color) => color,
        None => FALLBACK_COLOR,
    };
    let filter: bool = match filter {
        Some(choice) => choice,
        None => true,
    };
    let shares = excited(colors_to_population);
    let mut entries: Vec<ScoredHct> = Vec::new();
    let mut i: usize = 0;
    while i < colors_to_population.len()
        invariant
            i <= colors_to_population@.len(),
            shares@.len() == HUE_COUNT,
            entries@ == scored(colors_to_population@, shares@, filter, i as nat),
        decreases colors_to_population@.len() - i,
    {
        let hct = Hct::from_int(colors_to_population[i].0);
        let proportion = shares[hue_nearest(&hct)];
        if !(filter && is_unsuitable(&hct, proportion)) {
            entries.push(ScoredHct { hct, score: score_of(&hct, proportion) });
        }
        i = i + 1;
    }
    let mut ranked: Vec<ScoredHct> = Vec::new();
    let mut n: usize = 0;
    while n < entries.len()
        invariant
            n <= entries@.len(),
            ranked@ == ranked_prefix(entries@, n as nat),
        decreases entries@.len() - n,
    {
        ranked = ranked_with_entry(ranked, entries[n]);
        n = n + 1;
    }
    let mut spacing: u8 = WIDEST_SPACING;
    let mut chosen = chosen_at(&ranked, spacing, desired);
    while chosen.len() < desired && spacing > NARROWEST_SPACING
        invariant
            chosen@ == chosen_prefix(ranked@, spacing, desired, ranked@.len()),
            chosen_from(ranked@, spacing, desired) == chosen_from(ranked@, WIDEST_SPACING, desired),
        decreases spacing,
    {
        spacing = spacing - 1;
        chosen = chosen_at(&ranked, spacing, desired);
    }
    proof {
        lemma_chosen_from_is_bounded(ranked@, WIDEST_SPACING, desired);
    }
    if chosen.len() == 0 {
        let mut answer: Vec<u32> = Vec::new();
        answer.push(fallback);
        assert(answer@ =~= seq![fallback]);
        answer
    } else {
        let mut answer: Vec<u32> = Vec::new();
        let mut k: usize = 0;
        while k < chosen.len()
            invariant
                k <= chosen@.len(),
                answer@ == chosen@.map_values(|hct: Hct| hct.argb).take(k as int),
            decreases chosen@.len() - k,
        {
            answer.push(chosen[k].argb);
            assert(answer@ =~= chosen@.map_values(|hct: Hct| hct.argb).take(k + 1));
            k = k + 1;
        }
        assert(answer@ =~= chosen@.map_values(|hct: Hct| hct.argb));
        answer
    }
}

} // verus!
