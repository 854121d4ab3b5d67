//! The palette of an image: six colors, ordered by hue, that stand for its
//! dominant hues.
//!
//! The representative pixels are gathered into twelve hue bins. The bins that
//! are not empty are ranked by their pixel count, the ranking is brought to
//! six entries, and these are put in order of hue. The color wheel holds their
//! RGB colors.

use vstd::prelude::*;
use crate::bins::{
    accumulate_bins, bin_average, bin_totals, candidates_upto, collect_candidates, image_totals,
    lemma_average_valid, lemma_candidates_are_averages, lemma_totals_consistent, lemma_totals_empty, pixel_count,
    pixel_in_bin, spec_collect_candidates, BinTotals, Candidate,
};
use crate::color::{hsl_to_rgb, lemma_rgb_valid, spec_hsl_to_rgb, Hsl, Rgb, UNIT};
use crate::pixel::{is_representative, BIN_COUNT};
use crate::ranking::{
    fill_to_six, is_ordered, lemma_sort_permutes_and_orders, ramp_entry,
    spec_fill_to_six, spec_stable_sort, stable_sort, stays_before, SortOrder, WHEEL_SIZE,
};

verus! {

/// Six colors in order of hue. Every color is opaque: its alpha is one.
#[derive(Clone, Copy, Debug, PartialEq, Eq)]
pub struct ColorWheel {
    pub colors: [Rgb; 6],
}

impl ColorWheel {
    /// Every color of the wheel is valid.
    pub open spec fn is_valid(self) -> bool {
        forall|i: int| 0 <= i < 6 ==> (#[trigger] self.colors[i]).is_valid()
    }

    /// The alpha of every color: one.
    pub open spec fn spec_alpha() -> u32 {
        UNIT
    }

    /// The alpha of every color: one.
    #[verifier::when_used_as_spec(spec_alpha)]
    pub fn alpha() -> (a: u32)
        ensures
            a == UNIT,
    {
        UNIT
    }

    /// The wheel as twenty-four channels: red, green, blue and alpha of each
    /// color in turn.
    pub open spec fn spec_channels(self) -> Seq<u32> {
        Seq::new(
            24,
            |k: int|
                if k % 4 == 0 {
                    self.colors[k / 4].red
                } else if k % 4 == 1 {
                    self.colors[k / 4].green
                } else if k % 4 == 2 {
                    self.colors[k / 4].blue
                } else {
                    UNIT
                },
        )
    }

    /// Packs the wheel into twenty-four channels, in millionths.
    pub fn channels(&self) -> (packed: [u32; 24])
        ensures
            packed@ == self.spec_channels(),
    {
        let c = &self.colors;
        let packed = [
            c[0].red,
            c[0].green,
            c[0].blue,
            UNIT,
            c[1].red,
            c[1].green,
            c[1].blue,
            UNIT,
            c[2].red,
            c[2].green,
            c[2].blue,
            UNIT,
            c[3].red,
            c[3].green,
            c[3].blue,
            UNIT,
            c[4].red,
            c[4].green,
            c[4].blue,
            UNIT,
            c[5].red,
            c[5].green,
            c[5].blue,
            UNIT,
        ];
        assert(packed@ =~= self.spec_channels());
        packed
    }
}

/// The bins of an image that are not empty, most pixels first.
pub open spec fn spec_ranking(pixels: Seq<u8>) -> Seq<Candidate> {
    spec_stable_sort(spec_collect_candidates(image_totals(pixels)), SortOrder::CountDescending)
}

/// The palette of an image: its ranking brought to six entries, in order of
/// hue.
pub open spec fn spec_palette(pixels: Seq<u8>) -> Seq<Candidate> {
    spec_stable_sort(spec_fill_to_six(spec_ranking(pixels)), SortOrder::HueAscending)
}

/// The wheel of a palette.
pub open spec fn spec_wheel_of(palette: Seq<Candidate>) -> ColorWheel
    recommends
        palette.len() == WHEEL_SIZE,
{
    ColorWheel {
        colors: [
            spec_hsl_to_rgb(palette[0].color),
            spec_hsl_to_rgb(palette[1].color),
            spec_hsl_to_rgb(palette[2].color),
            spec_hsl_to_rgb(palette[3].color),
            spec_hsl_to_rgb(palette[4].color),
            spec_hsl_to_rgb(palette[5].color),
        ],
    }
}

/// The color wheel of an image.
pub open spec fn spec_color_wheel(pixels: Seq<u8>) -> ColorWheel {
    spec_wheel_of(spec_palette(pixels))
}

/// The neutral ramp: six greys, each lighter than the one before.
pub open spec fn neutral_ramp() -> Seq<Candidate> {
    Seq::new(WHEEL_SIZE as nat, |i: int| ramp_entry(i))
}

/// Whether every color of `items` is valid.
pub open spec fn all_valid(items: Seq<Candidate>) -> bool {
    forall|k: int| 0 <= k < items.len() ==> (#[trigger] items[k]).color.is_valid()
}

/// A sort leaves an ordered sequence as it is.
pub proof fn lemma_sort_keeps_ordered(items: Seq<Candidate>, order: SortOrder)
    requires
        is_ordered(items, order),
    ensures
        spec_stable_sort(items, order) == items,
    decreases items.len(),
{
    if items.len() == 0 {
        assert(items =~= Seq::<Candidate>::empty());
    } else {
        let front = items.drop_last();
        assert(is_ordered(front, order)) by {
            assert forall|i: int, j: int| 0 <= i < j < front.len() implies stays_before(
                order,
                front[i],
                front[j],
            ) by {
                assert(front[i] == items[i] && front[j] == items[j]);
            }
        }
        lemma_sort_keeps_ordered(front, order);
        if front.len() > 0 {
            assert(stays_before(order, items[front.len() - 1], items[items.len() - 1]));
            assert(front.last() == items[front.len() - 1]);
        }
        assert(front.push(items.last()) =~= items);
        assert(seq![items.last()] =~= Seq::<Candidate>::empty().push(items.last()));
    }
}

/// A sort keeps every color valid.
pub proof fn lemma_sort_keeps_valid(items: Seq<Candidate>, order: SortOrder)
    requires
        all_valid(items),
    ensures
        all_valid(spec_stable_sort(items, order)),
{
    broadcast use vstd::seq_lib::group_to_multiset_ensures;

    lemma_sort_permutes_and_orders(items, order);
    let sorted = spec_stable_sort(items, order);
    assert forall|k: int| 0 <= k < sorted.len() implies (#[trigger] sorted[k]).color.is_valid() by {
        assert(sorted.contains(sorted[k]));
        assert(sorted.to_multiset().count(sorted[k]) > 0);
        assert(items.contains(sorted[k]));
    }
}

/// Filling keeps every color valid.
pub proof fn lemma_fill_keeps_valid(ranked: Seq<Candidate>)
    requires
        all_valid(ranked),
    ensures
        all_valid(spec_fill_to_six(ranked)),
        spec_fill_to_six(ranked).len() == WHEEL_SIZE,
{
    let filled = spec_fill_to_six(ranked);
    assert forall|k: int| 0 <= k < filled.len() implies (#[trigger] filled[k]).color.is_valid() by {
        if ranked.len() == 0 {
        } else if k < ranked.len() {
        } else {
            let m = k % (ranked.len() as int);
            assert(0 <= m < ranked.len());
            assert(ranked[m].color.is_valid());
        }
    }
}

/// The candidates of an image are valid colors.
pub proof fn lemma_candidates_valid(pixels: Seq<u8>)
    ensures
        all_valid(spec_collect_candidates(image_totals(pixels))),
        spec_collect_candidates(image_totals(pixels)).len() <= BIN_COUNT,
{
    let totals = image_totals(pixels);
    let candidates = spec_collect_candidates(totals);
    lemma_candidates_are_averages(totals, BIN_COUNT as int);
    assert forall|k: int| 0 <= k < candidates.len() implies (
    #[trigger] candidates[k]).color.is_valid() by {
        let bin = choose|bin: int|
            0 <= bin < BIN_COUNT && totals[bin].count > 0 && candidates[k] == bin_average(
                totals[bin],
            );
        lemma_totals_consistent(pixels, bin, pixel_count(pixels));
        lemma_average_valid(totals[bin]);
    }
}

/// Every palette has exactly six valid colors in ascending order of hue.
pub proof fn lemma_palette_is_hue_ordered(pixels: Seq<u8>)
    ensures
        spec_palette(pixels).len() == WHEEL_SIZE,
        all_valid(spec_palette(pixels)),
        forall|i: int, j: int|
            0 <= i < j < WHEEL_SIZE ==> spec_palette(pixels)[i].color.hue <= spec_palette(
                pixels,
            )[j].color.hue,
        spec_color_wheel(pixels).is_valid(),
{
    let candidates = spec_collect_candidates(image_totals(pixels));
    lemma_candidates_valid(pixels);
    lemma_sort_keeps_valid(candidates, SortOrder::CountDescending);
    let ranked = spec_ranking(pixels);
    lemma_fill_keeps_valid(ranked);
    let filled = spec_fill_to_six(ranked);
    lemma_sort_keeps_valid(filled, SortOrder::HueAscending);
    lemma_sort_permutes_and_orders(filled, SortOrder::HueAscending);
    let palette = spec_palette(pixels);
    assert forall|i: int, j: int| 0 <= i < j < WHEEL_SIZE implies palette[i].color.hue
        <= palette[j].color.hue by {
        assert(stays_before(SortOrder::HueAscending, palette[i], palette[j]));
    }
    lemma_wheel_valid(palette);
}

/// The wheel of six valid colors is valid.
pub proof fn lemma_wheel_valid(palette: Seq<Candidate>)
    requires
        palette.len() == WHEEL_SIZE,
        all_valid(palette),
    ensures
        spec_wheel_of(palette).is_valid(),
        forall|i: int|
            0 <= i < 6 ==> #[trigger] spec_wheel_of(palette).colors[i] == spec_hsl_to_rgb(
                palette[i].color,
            ),
{
    let wheel = spec_wheel_of(palette);
    assert forall|i: int| 0 <= i < 6 implies (#[trigger] wheel.colors[i]).is_valid()
        && wheel.colors[i] == spec_hsl_to_rgb(palette[i].color) by {
        lemma_rgb_valid(palette[i].color);
    }
}

/// An image without a representative pixel has the neutral ramp as its
/// palette: six greys of no saturation, each strictly lighter than the one
/// before, from a lightness of 0.2 in steps of 0.12; and the wheel holds
/// each grey at its lightness.
pub proof fn lemma_featureless_image_gives_neutral_ramp(pixels: Seq<u8>)
    requires
        forall|i: int|
            0 <= i < pixel_count(pixels) ==> !is_representative(
                #[trigger] pixels[3 * i],
                pixels[3 * i + 1],
                pixels[3 * i + 2],
            ),
    ensures
        spec_palette(pixels) == neutral_ramp(),
        forall|i: int|
            0 <= i < WHEEL_SIZE ==> (#[trigger] spec_palette(pixels)[i]).color == (Hsl {
                hue: 0,
                saturation: 0,
                lightness: (200_000 + 120_000 * i) as u32,
            }),
        forall|i: int, j: int|
            0 <= i < j < WHEEL_SIZE ==> spec_palette(pixels)[i].color.lightness < spec_palette(
                pixels,
            )[j].color.lightness,
        forall|i: int|
            0 <= i < 6 ==> (#[trigger] spec_color_wheel(pixels).colors[i]) == (Rgb {
                red: (200_000 + 120_000 * i) as u32,
                green: (200_000 + 120_000 * i) as u32,
                blue: (200_000 + 120_000 * i) as u32,
            }),
{
    let totals = image_totals(pixels);
    assert forall|bin: int| 0 <= bin < BIN_COUNT implies (#[trigger] totals[bin]).count == 0 by {
        assert forall|i: int| 0 <= i < pixel_count(pixels) implies !pixel_in_bin(
            pixels,
            i,
            bin,
        ) by {
            assert(!is_representative(pixels[3 * i], pixels[3 * i + 1], pixels[3 * i + 2]));
        }
        lemma_totals_empty(pixels, bin, pixel_count(pixels));
    }
    lemma_no_candidates(totals, BIN_COUNT as int);
    let candidates = spec_collect_candidates(totals);
    assert(candidates =~= Seq::<Candidate>::empty());
    let ranked = spec_ranking(pixels);
    assert(ranked =~= Seq::<Candidate>::empty());
    let filled = spec_fill_to_six(ranked);
    assert(filled =~= neutral_ramp());
    assert(is_ordered(neutral_ramp(), SortOrder::HueAscending));
    lemma_sort_keeps_ordered(neutral_ramp(), SortOrder::HueAscending);
    let palette = spec_palette(pixels);
    assert(all_valid(palette));
    lemma_wheel_valid(palette);
    assert forall|i: int| 0 <= i < 6 implies (#[trigger] spec_color_wheel(pixels).colors[i]) == (
    Rgb {
        red: (200_000 + 120_000 * i) as u32,
        green: (200_000 + 120_000 * i) as u32,
        blue: (200_000 + 120_000 * i) as u32,
    }) by {
        lemma_rgb_valid(palette[i].color);
    }
}

/// Bins that are all empty give no candidate.
pub proof fn lemma_no_candidates(totals: Seq<BinTotals>, bins: int)
    requires
        0 <= bins <= totals.len(),
        forall|bin: int| 0 <= bin < bins ==> (#[trigger] totals[bin]).count == 0,
    ensures
        candidates_upto(totals, bins).len() == 0,
    decreases bins,
{
    if bins > 0 {
        lemma_no_candidates(totals, bins - 1);
    }
}

/// Where an image fills at most six bins, the palette holds the average
/// color of every one of them: its sampled hue, saturation and lightness,
/// unchanged.
pub proof fn lemma_palette_keeps_bin_averages(pixels: Seq<u8>, bin: int)
    requires
        0 <= bin < BIN_COUNT,
        bin_totals(pixels, bin, pixel_count(pixels)).count > 0,
        spec_collect_candidates(image_totals(pixels)).len() <= WHEEL_SIZE,
    ensures
        spec_palette(pixels).contains(
            bin_average(bin_totals(pixels, bin, pixel_count(pixels))),
        ),
{
    broadcast use vstd::seq_lib::group_to_multiset_ensures;

    let totals = image_totals(pixels);
    let average = bin_average(totals[bin]);
    let candidates = spec_collect_candidates(totals);
    lemma_candidates_are_averages(totals, BIN_COUNT as int);
    assert(candidates.contains(average));
    lemma_sort_permutes_and_orders(candidates, SortOrder::CountDescending);
    let ranked = spec_ranking(pixels);
    assert(ranked.to_multiset().count(average) > 0);
    assert(ranked.contains(average));
    let k = choose|k: int| 0 <= k < ranked.len() && ranked[k] == average;
    let filled = spec_fill_to_six(ranked);
    assert(filled[k] == average);
    assert(filled.contains(average));
    lemma_sort_permutes_and_orders(filled, SortOrder::HueAscending);
    assert(filled.to_multiset().count(average) > 0);
    assert(spec_palette(pixels).to_multiset().count(average) > 0);
}

/// Computes the palette of an image of 8-bit RGB pixels.
pub fn palette_from_pixels(pixels: &[u8]) -> (palette: Vec<Candidate>)
    ensures
        palette@ == spec_palette(pixels@),
        palette.len() == WHEEL_SIZE,
        all_valid(palette@),
        is_ordered(palette@, SortOrder::HueAscending),
{
    let buckets = accumulate_bins(pixels);
    let candidates = collect_candidates(&buckets);
    let ranked = stable_sort(&candidates, SortOrder::CountDescending);
    let filled = fill_to_six(&ranked);
    let palette = stable_sort(&filled, SortOrder::HueAscending);
    proof {
        lemma_palette_is_hue_ordered(pixels@);
    }
    palette
}

/// Converts a palette of six valid colors to its wheel.
pub fn wheel_of(palette: &Vec<Candidate>) -> (wheel: ColorWheel)
    requires
        palette.len() == WHEEL_SIZE,
        all_valid(palette@),
    ensures
        wheel == spec_wheel_of(palette@),
        wheel.is_valid(),
{
    proof {
        lemma_wheel_valid(palette@);
    }
    ColorWheel {
        colors: [
            hsl_to_rgb(palette[0].color),
            hsl_to_rgb(palette[1].color),
            hsl_to_rgb(palette[2].color),
            hsl_to_rgb(palette[3].color),
            hsl_to_rgb(palette[4].color),
            hsl_to_rgb(palette[5].color),
        ],
    }
}

/// Computes the color wheel of an image of 8-bit RGB pixels.
pub fn color_wheel_from_pixels(pixels: &[u8]) -> (wheel: ColorWheel)
    ensures
        wheel == spec_color_wheel(pixels@),
        wheel.is_valid(),
{
    let palette = palette_from_pixels(pixels);
    wheel_of(&palette)
}

} // verus!
