//! Hue bins: the running sums of the representative pixels of an image, one
//! bin for every thirty degrees of hue, and the average color of each bin
//! that is not empty.
//!
//! An image is a sequence of bytes, three to a pixel: red, green, blue. Bytes
//! past the last whole pixel are not read.

use vstd::prelude::*;
use crate::color::Hsl;
use crate::pixel::{
    classify_pixel, hue_bin, is_representative, lemma_pixel_hsl_valid, pixel_hsl, spec_hue_bin,
    BIN_COUNT,
};

verus! {

/// What a bin has gathered: how many pixels, and the sums of their hue,
/// saturation and lightness.
pub ghost struct BinTotals {
    pub count: nat,
    pub hue: nat,
    pub saturation: nat,
    pub lightness: nat,
}

/// The running sums of one hue bin.
#[derive(Clone, Copy, Debug, PartialEq, Eq)]
pub struct HueBucket {
    pub hue_sum: u128,
    pub saturation_sum: u128,
    pub lightness_sum: u128,
    pub count: u64,
}

impl View for HueBucket {
    type V = BinTotals;

    open spec fn view(&self) -> BinTotals {
        BinTotals {
            count: self.count as nat,
            hue: self.hue_sum as nat,
            saturation: self.saturation_sum as nat,
            lightness: self.lightness_sum as nat,
        }
    }
}

/// A color that may enter the palette, with the number of pixels behind it.
#[derive(Clone, Copy, Debug, PartialEq, Eq, Structural)]
pub struct Candidate {
    pub color: Hsl,
    pub count: u64,
}

impl BinTotals {
    /// The sums are what at most `count` valid colors can add up to.
    pub open spec fn is_consistent(self) -> bool {
        &&& self.hue <= self.count * 359_999_999
        &&& self.saturation <= self.count * 1_000_000
        &&& self.lightness <= self.count * 1_000_000
    }
}

/// Number of whole pixels in an image.
pub open spec fn pixel_count(pixels: Seq<u8>) -> int {
    pixels.len() as int / 3
}

/// Whether pixel `i` of the image is representative and its hue lies in
/// `bin`.
pub open spec fn pixel_in_bin(pixels: Seq<u8>, i: int, bin: int) -> bool {
    let r = pixels[3 * i];
    let g = pixels[3 * i + 1];
    let b = pixels[3 * i + 2];
    is_representative(r, g, b) && spec_hue_bin(pixel_hsl(r, g, b).hue) == bin
}

/// What `bin` has gathered from the first `n` pixels of the image.
pub open spec fn bin_totals(pixels: Seq<u8>, bin: int, n: int) -> BinTotals
    decreases n,
{
    if n <= 0 {
        BinTotals { count: 0, hue: 0, saturation: 0, lightness: 0 }
    } else {
        let before = bin_totals(pixels, bin, n - 1);
        if pixel_in_bin(pixels, n - 1, bin) {
            let c = pixel_hsl(pixels[3 * (n - 1)], pixels[3 * (n - 1) + 1], pixels[3 * (n - 1) + 2]);
            BinTotals {
                count: before.count + 1,
                hue: before.hue + c.hue as nat,
                saturation: before.saturation + c.saturation as nat,
                lightness: before.lightness + c.lightness as nat,
            }
        } else {
            before
        }
    }
}

/// What each of the twelve bins has gathered from the whole image.
pub open spec fn image_totals(pixels: Seq<u8>) -> Seq<BinTotals> {
    Seq::new(BIN_COUNT as nat, |bin: int| bin_totals(pixels, bin, pixel_count(pixels)))
}

/// The average color of a bin, with its pixel count.
pub open spec fn bin_average(t: BinTotals) -> Candidate
    recommends
        t.count > 0,
{
    Candidate {
        color: Hsl {
            hue: (t.hue / t.count) as u32,
            saturation: (t.saturation / t.count) as u32,
            lightness: (t.lightness / t.count) as u32,
        },
        count: t.count as u64,
    }
}

/// The averages of the first `bins` bins that are not empty, in bin order.
pub open spec fn candidates_upto(totals: Seq<BinTotals>, bins: int) -> Seq<Candidate>
    decreases bins,
{
    if bins <= 0 {
        Seq::empty()
    } else {
        let before = candidates_upto(totals, bins - 1);
        if totals[bins - 1].count > 0 {
            before.push(bin_average(totals[bins - 1]))
        } else {
            before
        }
    }
}

/// The averages of all bins that are not empty, in bin order.
pub open spec fn spec_collect_candidates(totals: Seq<BinTotals>) -> Seq<Candidate> {
    candidates_upto(totals, totals.len() as int)
}

/// A bin gathers at most one entry per pixel, and its sums stay consistent.
pub proof fn lemma_totals_consistent(pixels: Seq<u8>, bin: int, n: int)
    requires
        0 <= n,
    ensures
        bin_totals(pixels, bin, n).count <= n,
        bin_totals(pixels, bin, n).is_consistent(),
    decreases n,
{
    if n > 0 {
        lemma_totals_consistent(pixels, bin, n - 1);
        if pixel_in_bin(pixels, n - 1, bin) {
            lemma_pixel_hsl_valid(
                pixels[3 * (n - 1)],
                pixels[3 * (n - 1) + 1],
                pixels[3 * (n - 1) + 2],
            );
        }
    }
}

/// A bin stays empty as long as no pixel falls into it.
pub proof fn lemma_totals_empty(pixels: Seq<u8>, bin: int, n: int)
    requires
        forall|i: int| 0 <= i < n ==> !pixel_in_bin(pixels, i, bin),
    ensures
        bin_totals(pixels, bin, n).count == 0,
    decreases n,
{
    if n > 0 {
        lemma_totals_empty(pixels, bin, n - 1);
    }
}

/// The average of a consistent bin that is not empty is a valid color.
pub proof fn lemma_average_valid(t: BinTotals)
    requires
        t.count > 0,
        t.is_consistent(),
    ensures
        bin_average(t).color.is_valid(),
        bin_average(t).color.hue == t.hue / t.count,
        bin_average(t).color.saturation == t.saturation / t.count,
        bin_average(t).color.lightness == t.lightness / t.count,
{
    let n = t.count as int;
    let h = t.hue as int;
    let s = t.saturation as int;
    let l = t.lightness as int;
    assert(0 <= h / n <= 359_999_999) by (nonlinear_arith)
        requires
            n > 0,
            0 <= h <= n * 359_999_999,
    ;
    assert(0 <= s / n <= 1_000_000) by (nonlinear_arith)
        requires
            n > 0,
            0 <= s <= n * 1_000_000,
    ;
    assert(0 <= l / n <= 1_000_000) by (nonlinear_arith)
        requires
            n > 0,
            0 <= l <= n * 1_000_000,
    ;
}

/// Every candidate is the average of a bin that is not empty.
pub proof fn lemma_candidates_are_averages(totals: Seq<BinTotals>, bins: int)
    requires
        0 <= bins <= totals.len(),
    ensures
        candidates_upto(totals, bins).len() <= bins,
        forall|k: int|
            0 <= k < candidates_upto(totals, bins).len() ==> exists|bin: int|
                0 <= bin < bins && totals[bin].count > 0 && #[trigger] candidates_upto(
                    totals,
                    bins,
                )[k] == bin_average(totals[bin]),
        forall|bin: int|
            0 <= bin < bins && totals[bin].count > 0 ==> candidates_upto(totals, bins).contains(
                #[trigger] bin_average(totals[bin]),
            ),
    decreases bins,
{
    if bins > 0 {
        lemma_candidates_are_averages(totals, bins - 1);
        let before = candidates_upto(totals, bins - 1);
        let now = candidates_upto(totals, bins);
        if totals[bins - 1].count > 0 {
            assert(now == before.push(bin_average(totals[bins - 1])));
            assert forall|k: int| 0 <= k < now.len() implies exists|bin: int|
                0 <= bin < bins && totals[bin].count > 0 && #[trigger] now[k] == bin_average(
                    totals[bin],
                ) by {
                if k < before.len() {
                    let bin = choose|bin: int|
                        0 <= bin < bins - 1 && totals[bin].count > 0 && before[k] == bin_average(
                            totals[bin],
                        );
                    assert(0 <= bin < bins && totals[bin].count > 0 && now[k] == bin_average(
                        totals[bin],
                    ));
                } else {
                    assert(now[k] == bin_average(totals[bins - 1]));
                }
            }
            assert forall|bin: int| 0 <= bin < bins && totals[bin].count > 0 implies now.contains(
                #[trigger] bin_average(totals[bin]),
            ) by {
                if bin < bins - 1 {
                    let k = choose|k: int|
                        0 <= k < before.len() && before[k] == bin_average(totals[bin]);
                    assert(now[k] == bin_average(totals[bin]));
                } else {
                    assert(now[now.len() - 1] == bin_average(totals[bin]));
                }
            }
        }
    }
}

/// Gathers the representative pixels of an image into the twelve hue bins.
pub fn accumulate_bins(pixels: &[u8]) -> (buckets: Vec<HueBucket>)
    ensures
        buckets.len() == BIN_COUNT,
        buckets@.map_values(|b: HueBucket| b@) == image_totals(pixels@),
        forall|bin: int| 0 <= bin < BIN_COUNT ==> (#[trigger] buckets[bin])@.is_consistent(),
{
    let n: usize = pixels.len() / 3;
    let mut buckets: Vec<HueBucket> = Vec::new();
    let mut k: usize = 0;
    while k < BIN_COUNT
        invariant
            k <= BIN_COUNT,
            buckets.len() == k,
            forall|bin: int|
                0 <= bin < k ==> (#[trigger] buckets[bin])@ == bin_totals(pixels@, bin, 0),
        decreases BIN_COUNT - k,
    {
        buckets.push(HueBucket { hue_sum: 0, saturation_sum: 0, lightness_sum: 0, count: 0 });
        k += 1;
    }
    let mut i: usize = 0;
    while i < n
        invariant
            i <= n,
            n == pixels@.len() / 3,
            pixels@.len() <= usize::MAX,
            buckets.len() == BIN_COUNT,
            forall|bin: int|
                0 <= bin < BIN_COUNT ==> (#[trigger] buckets[bin])@ == bin_totals(
                    pixels@,
                    bin,
                    i as int,
                ),
        decreases n - i,
    {
        assert(3 * i + 2 < pixels@.len());
        let r = pixels[3 * i];
        let g = pixels[3 * i + 1];
        let b = pixels[3 * i + 2];
        let ghost before = buckets@;
        match classify_pixel(r, g, b) {
            Some(c) => {
                let bin = hue_bin(c.hue);
                let old = buckets[bin];
                proof {
                    lemma_totals_consistent(pixels@, bin as int, i as int);
                    assert(old@.hue <= i * 359_999_999) by (nonlinear_arith)
                        requires
                            old@.hue <= old@.count * 359_999_999,
                            old@.count <= i,
                    ;
                    assert(old@.saturation <= i * 1_000_000) by (nonlinear_arith)
                        requires
                            old@.saturation <= old@.count * 1_000_000,
                            old@.count <= i,
                    ;
                    assert(old@.lightness <= i * 1_000_000) by (nonlinear_arith)
                        requires
                            old@.lightness <= old@.count * 1_000_000,
                            old@.count <= i,
                    ;
                }
                buckets.set(
                    bin,
                    HueBucket {
                        hue_sum: old.hue_sum + c.hue as u128,
                        saturation_sum: old.saturation_sum + c.saturation as u128,
                        lightness_sum: old.lightness_sum + c.lightness as u128,
                        count: old.count + 1,
                    },
                );
                assert forall|other: int| 0 <= other < BIN_COUNT implies (
                #[trigger] buckets[other])@ == bin_totals(pixels@, other, i + 1) by {
                    if other != bin {
                        assert(buckets[other] == before[other]);
                    }
                }
            },
            None => {},
        }
        i += 1;
    }
    proof {
        assert(buckets@.map_values(|b: HueBucket| b@) =~= image_totals(pixels@));
        assert forall|bin: int| 0 <= bin < BIN_COUNT implies (
        #[trigger] buckets[bin])@.is_consistent() by {
            lemma_totals_consistent(pixels@, bin, n as int);
        }
    }
    buckets
}

/// Averages every bin that is not empty, in bin order.
pub fn collect_candidates(buckets: &Vec<HueBucket>) -> (candidates: Vec<Candidate>)
    requires
        forall|bin: int| 0 <= bin < buckets.len() ==> (#[trigger] buckets[bin])@.is_consistent(),
    ensures
        candidates@ == spec_collect_candidates(buckets@.map_values(|b: HueBucket| b@)),
        candidates.len() <= buckets.len(),
        forall|k: int| 0 <= k < candidates.len() ==> (#[trigger] candidates[k]).color.is_valid(),
{
    let ghost totals = buckets@.map_values(|b: HueBucket| b@);
    let mut candidates: Vec<Candidate> = Vec::new();
    let mut bin: usize = 0;
    while bin < buckets.len()
        invariant
            bin <= buckets.len(),
            totals == buckets@.map_values(|b: HueBucket| b@),
            candidates@ == candidates_upto(totals, bin as int),
            candidates.len() <= bin,
            forall|k: int|
                0 <= k < candidates.len() ==> (#[trigger] candidates[k]).color.is_valid(),
            forall|j: int| 0 <= j < buckets.len() ==> (#[trigger] buckets[j])@.is_consistent(),
        decreases buckets.len() - bin,
    {
        let bucket = buckets[bin];
        assert(totals[bin as int] == bucket@);
        if bucket.count > 0 {
            proof {
                lemma_average_valid(bucket@);
            }
            let n: u128 = bucket.count as u128;
            let average = Candidate {
                color: Hsl {
                    hue: (bucket.hue_sum / n) as u32,
                    saturation: (bucket.saturation_sum / n) as u32,
                    lightness: (bucket.lightness_sum / n) as u32,
                },
                count: bucket.count,
            };
            assert(average == bin_average(bucket@));
            candidates.push(average);
        }
        bin += 1;
    }
    candidates
}

} // verus!
