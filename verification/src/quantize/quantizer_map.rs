//! The quantizer that keeps every colour and counts it.
use std::collections::HashMap;
use vstd::prelude::*;
use vstd::std_specs::hash::*;
use crate::quantize::quantizer::{Quantizer, QuantizerResult};

verus! {

/// The quantizer that keeps every colour of the image and counts how many
/// pixels have it.
#[derive(Clone, Copy, Debug, Default, PartialEq, Eq, Hash)]
pub struct QuantizerMap;

/// How often `color` occurs among `pixels`.
pub open spec fn count_of(pixels: Seq<u32>, color: u32) -> nat
    decreases pixels.len(),
{
    if pixels.len() == 0 {
        0
    } else {
        count_of(pixels.drop_last(), color) + if pixels.last() == color {
            1nat
        } else {
            0nat
        }
    }
}

/// Whether `counts` holds exactly the colours of `pixels`, each with the
/// number of its occurrences.
pub open spec fn counts_pixels(counts: Map<u32, usize>, pixels: Seq<u32>) -> bool {
    forall|color: u32|
        {
            &&& counts.contains_key(color) <==> #[trigger] count_of(pixels, color) > 0
            &&& counts.contains_key(color) ==> counts[color] == count_of(pixels, color)
        }
}

/// No colour occurs more often than there are pixels.
pub proof fn lemma_count_is_bounded(pixels: Seq<u32>, color: u32)
    ensures
        count_of(pixels, color) <= pixels.len(),
    decreases pixels.len(),
{
    if pixels.len() > 0 {
        lemma_count_is_bounded(pixels.drop_last(), color);
    }
}

impl Quantizer for QuantizerMap {
    /// Every colour of `pixels` with the number of its occurrences;
    /// `max_colors` is not looked at.
    fn quantize(self, pixels: &[u32], max_colors: usize) -> (out: QuantizerResult)
        ensures
            counts_pixels(out.color_to_count@, pixels@),
    {
        broadcast use vstd::std_specs::hash::group_hash_axioms;

        let mut counts: HashMap<u32, usize> = HashMap::new();
        let mut i: usize = 0;
        while i < pixels.len()
            invariant
                i <= pixels.len(),
                counts_pixels(counts@, pixels@.take(i as int)),
            decreases pixels.len() - i,
        {
            let pixel = pixels[i];
            let ghost before = pixels@.take(i as int);
            let ghost after = pixels@.take(i + 1);
            let ghost old_counts = counts@;
            proof {
                assert(after.drop_last() =~= before);
                assert(after.last() == pixel);
                lemma_count_is_bounded(before, pixel);
            }
            let seen: usize = match counts.get(&pixel) {
                Some(count) => *count,
                None => 0,
            };
            assert(seen == count_of(before, pixel));
            counts.insert(pixel, seen + 1);
            proof {
                assert forall|color: u32|
                    {
                        &&& counts@.contains_key(color) <==> #[trigger] count_of(after, color) > 0
                        &&& counts@.contains_key(color) ==> counts@[color] == count_of(after, color)
                    } by {
                    assert(count_of(after, color) == count_of(before, color) + if pixel == color {
                        1nat
                    } else {
                        0nat
                    });
                }
            }
            i = i + 1;
        }
        assert(pixels@.take(pixels.len() as int) =~= pixels@);
        QuantizerResult { color_to_count: counts }
    }
}

} // verus!
