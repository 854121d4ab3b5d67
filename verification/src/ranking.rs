//! Ranking candidates: a stable sort by pixel count or by hue, and the rule
//! that brings any ranking to exactly six entries.

use vstd::prelude::*;
use crate::bins::Candidate;
use crate::color::Hsl;

verus! {

/// Number of colors in a palette.
pub const WHEEL_SIZE: usize = 6;

/// Lightness of the first grey of the neutral ramp.
pub const RAMP_START: u32 = 200_000;

/// Lightness step between two greys of the neutral ramp.
pub const RAMP_STEP: u32 = 120_000;

/// Lightness that a duplicate gains for each position in the ranking.
pub const DUPLICATE_STEP: u32 = 80_000;

/// Lightness that no duplicate exceeds.
pub const DUPLICATE_CEILING: u32 = 850_000;

/// What a sort goes by.
#[derive(Clone, Copy, Debug, PartialEq, Eq, Structural)]
pub enum SortOrder {
    /// Most pixels first.
    CountDescending,
    /// Smallest hue first.
    HueAscending,
}

/// Whether `a` may stand before `b` in `order`. Two candidates that tie may
/// stand either way round.
pub open spec fn stays_before(order: SortOrder, a: Candidate, b: Candidate) -> bool {
    match order {
        SortOrder::CountDescending => a.count >= b.count,
        SortOrder::HueAscending => a.color.hue <= b.color.hue,
    }
}

/// `sorted` with `c` put behind the last entry that may stand before it.
pub open spec fn insert_sorted(sorted: Seq<Candidate>, c: Candidate, order: SortOrder) -> Seq<
    Candidate,
>
    decreases sorted.len(),
{
    if sorted.len() == 0 {
        seq![c]
    } else if stays_before(order, sorted.last(), c) {
        sorted.push(c)
    } else {
        insert_sorted(sorted.drop_last(), c, order).push(sorted.last())
    }
}

/// The entries of `items` in `order`; entries that tie keep the order they
/// came in.
pub open spec fn spec_stable_sort(items: Seq<Candidate>, order: SortOrder) -> Seq<Candidate>
    decreases items.len(),
{
    if items.len() == 0 {
        Seq::empty()
    } else {
        insert_sorted(spec_stable_sort(items.drop_last(), order), items.last(), order)
    }
}

/// Whether every entry may stand before every later one.
pub open spec fn is_ordered(items: Seq<Candidate>, order: SortOrder) -> bool {
    forall|i: int, j: int| 0 <= i < j < items.len() ==> stays_before(order, items[i], items[j])
}

/// Entry `i` of the neutral ramp: a grey without hue or saturation.
pub open spec fn ramp_entry(i: int) -> Candidate {
    Candidate {
        color: Hsl { hue: 0, saturation: 0, lightness: (RAMP_START + i * RAMP_STEP) as u32 },
        count: 1,
    }
}

/// The duplicate of `source` at `position`: the same hue and saturation,
/// lighter by one step for each position, up to the ceiling.
pub open spec fn duplicate_at(source: Candidate, position: int) -> Candidate {
    let lighter = source.color.lightness + position * DUPLICATE_STEP;
    Candidate {
        color: Hsl {
            hue: source.color.hue,
            saturation: source.color.saturation,
            lightness: if lighter <= DUPLICATE_CEILING {
                lighter as u32
            } else {
                DUPLICATE_CEILING
            },
        },
        count: 1,
    }
}

/// Entry `i` of a ranking brought to six entries: the neutral ramp where
/// the ranking is empty; else the ranking's own entry where it has one, and
/// a duplicate of the entries in turn where it has not.
pub open spec fn filled_entry(ranked: Seq<Candidate>, i: int) -> Candidate {
    if ranked.len() == 0 {
        ramp_entry(i)
    } else if i < ranked.len() {
        ranked[i]
    } else {
        duplicate_at(ranked[i % (ranked.len() as int)], i)
    }
}

/// A ranking brought to exactly six entries.
pub open spec fn spec_fill_to_six(ranked: Seq<Candidate>) -> Seq<Candidate> {
    Seq::new(WHEEL_SIZE as nat, |i: int| filled_entry(ranked, i))
}

/// Where an insertion lands: behind entry `p - 1`, which may stand before
/// `c`, and before all later entries, which may not.
pub proof fn lemma_insert_position(sorted: Seq<Candidate>, c: Candidate, order: SortOrder, p: int)
    requires
        0 <= p <= sorted.len(),
        p > 0 ==> stays_before(order, sorted[p - 1], c),
        forall|j: int| p <= j < sorted.len() ==> !stays_before(order, sorted[j], c),
    ensures
        insert_sorted(sorted, c, order) == sorted.insert(p, c),
    decreases sorted.len(),
{
    if sorted.len() == 0 {
        assert(seq![c] =~= sorted.insert(p, c));
    } else if stays_before(order, sorted.last(), c) {
        assert(p == sorted.len());
        assert(sorted.push(c) =~= sorted.insert(p, c));
    } else {
        assert(p < sorted.len());
        let front = sorted.drop_last();
        lemma_insert_position(front, c, order, p);
        assert(front.insert(p, c).push(sorted.last()) =~= sorted.insert(p, c));
    }
}

/// An insertion keeps the entries and adds the new one.
pub proof fn lemma_insert_permutes(sorted: Seq<Candidate>, c: Candidate, order: SortOrder)
    ensures
        insert_sorted(sorted, c, order).len() == sorted.len() + 1,
        insert_sorted(sorted, c, order).to_multiset() == sorted.to_multiset().insert(c),
    decreases sorted.len(),
{
    broadcast use vstd::seq_lib::group_to_multiset_ensures;

    if sorted.len() == 0 {
        assert(seq![c] =~= Seq::<Candidate>::empty().push(c));
        assert(sorted =~= Seq::<Candidate>::empty());
    } else if stays_before(order, sorted.last(), c) {
    } else {
        let front = sorted.drop_last();
        lemma_insert_permutes(front, c, order);
        assert(sorted =~= front.push(sorted.last()));
        assert(insert_sorted(sorted, c, order).to_multiset() =~= sorted.to_multiset().insert(c));
    }
}

/// An insertion into an ordered sequence leaves it ordered.
pub proof fn lemma_insert_ordered(sorted: Seq<Candidate>, c: Candidate, order: SortOrder)
    requires
        is_ordered(sorted, order),
    ensures
        is_ordered(insert_sorted(sorted, c, order), order),
        forall|k: int|
            0 <= k < insert_sorted(sorted, c, order).len() ==> {
                ||| #[trigger] insert_sorted(sorted, c, order)[k] == c
                ||| sorted.contains(insert_sorted(sorted, c, order)[k])
            },
    decreases sorted.len(),
{
    let out = insert_sorted(sorted, c, order);
    if sorted.len() == 0 {
    } else if stays_before(order, sorted.last(), c) {
        assert forall|i: int, j: int| 0 <= i < j < out.len() implies stays_before(
            order,
            out[i],
            out[j],
        ) by {
            if j == sorted.len() {
                if i < sorted.len() - 1 {
                    assert(stays_before(order, sorted[i], sorted.last()));
                }
            }
        }
        assert forall|k: int| 0 <= k < out.len() implies (#[trigger] out[k] == c
            || sorted.contains(out[k])) by {
            if k < sorted.len() {
                assert(sorted[k] == out[k]);
            }
        }
    } else {
        let front = sorted.drop_last();
        let last = sorted.last();
        assert(is_ordered(front, order)) by {
            assert forall|i: int, j: int| 0 <= i < j < front.len() implies stays_before(
                order,
                front[i],
                front[j],
            ) by {
                assert(front[i] == sorted[i] && front[j] == sorted[j]);
            }
        }
        lemma_insert_ordered(front, c, order);
        let inner = insert_sorted(front, c, order);
        lemma_insert_permutes(front, c, order);
        assert(out == inner.push(last));
        assert forall|i: int, j: int| 0 <= i < j < out.len() implies stays_before(
            order,
            out[i],
            out[j],
        ) by {
            if j == inner.len() {
                if inner[i] == c {
                    // `last` may not stand before `c`, so `c` stands before it.
                } else {
                    assert(front.contains(inner[i]));
                    let k = choose|k: int| 0 <= k < front.len() && front[k] == inner[i];
                    assert(stays_before(order, sorted[k], sorted[sorted.len() - 1]));
                }
            } else {
                assert(out[i] == inner[i] && out[j] == inner[j]);
            }
        }
        assert forall|k: int| 0 <= k < out.len() implies (#[trigger] out[k] == c
            || sorted.contains(out[k])) by {
            if k < inner.len() {
                assert(out[k] == inner[k]);
                if inner[k] != c {
                    let m = choose|m: int| 0 <= m < front.len() && front[m] == inner[k];
                    assert(sorted[m] == out[k]);
                }
            } else {
                assert(sorted[sorted.len() - 1] == out[k]);
            }
        }
    }
}

/// A sort returns the entries it was given, each as often as it came, in
/// the order asked for.
pub proof fn lemma_sort_permutes_and_orders(items: Seq<Candidate>, order: SortOrder)
    ensures
        spec_stable_sort(items, order).len() == items.len(),
        spec_stable_sort(items, order).to_multiset() == items.to_multiset(),
        is_ordered(spec_stable_sort(items, order), order),
    decreases items.len(),
{
    broadcast use vstd::seq_lib::group_to_multiset_ensures;

    if items.len() == 0 {
        assert(items =~= Seq::<Candidate>::empty());
    } else {
        let front = items.drop_last();
        lemma_sort_permutes_and_orders(front, order);
        lemma_insert_permutes(spec_stable_sort(front, order), items.last(), order);
        lemma_insert_ordered(spec_stable_sort(front, order), items.last(), order);
        assert(items =~= front.push(items.last()));
    }
}

/// Tells whether `a` may stand before `b` in `order`.
pub fn may_stand_before(order: SortOrder, a: &Candidate, b: &Candidate) -> (yes: bool)
    ensures
        yes == stays_before(order, *a, *b),
{
    match order {
        SortOrder::CountDescending => a.count >= b.count,
        SortOrder::HueAscending => a.color.hue <= b.color.hue,
    }
}

/// Sorts `items` in `order`. Entries that tie keep the order they came in.
pub fn stable_sort(items: &Vec<Candidate>, order: SortOrder) -> (sorted: Vec<Candidate>)
    ensures
        sorted@ == spec_stable_sort(items@, order),
        sorted.len() == items.len(),
        sorted@.to_multiset() == items@.to_multiset(),
        is_ordered(sorted@, order),
{
    let mut sorted: Vec<Candidate> = Vec::new();
    let mut i: usize = 0;
    assert(items@.take(0) =~= Seq::<Candidate>::empty());
    while i < items.len()
        invariant
            i <= items.len(),
            sorted@ == spec_stable_sort(items@.take(i as int), order),
            sorted.len() == i,
        decreases items.len() - i,
    {
        let c = items[i];
        let mut p: usize = sorted.len();
        while p > 0 && !may_stand_before(order, &sorted[p - 1], &c)
            invariant
                p <= sorted.len(),
                forall|j: int| p <= j < sorted.len() ==> !stays_before(order, sorted[j], c),
            decreases p,
        {
            p -= 1;
        }
        proof {
            lemma_insert_position(sorted@, c, order, p as int);
            assert(items@.take(i + 1).drop_last() =~= items@.take(i as int));
            assert(items@.take(i + 1).last() == c);
        }
        sorted.insert(p, c);
        i += 1;
    }
    proof {
        assert(items@.take(items.len() as int) =~= items@);
        lemma_sort_permutes_and_orders(items@, order);
    }
    sorted
}

/// Brings a ranking to exactly six entries: the first six where it has as
/// many, duplicates of its entries in turn where it has fewer, and the
/// neutral ramp where it has none.
pub fn fill_to_six(ranked: &Vec<Candidate>) -> (filled: Vec<Candidate>)
    ensures
        filled@ == spec_fill_to_six(ranked@),
        filled.len() == WHEEL_SIZE,
{
    let mut filled: Vec<Candidate> = Vec::new();
    let mut i: usize = 0;
    while i < WHEEL_SIZE
        invariant
            i <= WHEEL_SIZE,
            filled.len() == i,
            forall|k: int| 0 <= k < i ==> #[trigger] filled[k] == filled_entry(ranked@, k),
        decreases WHEEL_SIZE - i,
    {
        let entry = if ranked.len() == 0 {
            Candidate {
                color: Hsl {
                    hue: 0,
                    saturation: 0,
                    lightness: RAMP_START + (i as u32) * RAMP_STEP,
                },
                count: 1,
            }
        } else if i < ranked.len() {
            ranked[i]
        } else {
            let source = ranked[i % ranked.len()];
            let lighter: u64 = source.color.lightness as u64 + (i as u64) * (DUPLICATE_STEP as u64);
            Candidate {
                color: Hsl {
                    hue: source.color.hue,
                    saturation: source.color.saturation,
                    lightness: if lighter <= DUPLICATE_CEILING as u64 {
                        lighter as u32
                    } else {
                        DUPLICATE_CEILING
                    },
                },
                count: 1,
            }
        };
        filled.push(entry);
        i += 1;
    }
    assert(filled@ =~= spec_fill_to_six(ranked@));
    filled
}

} // verus!
