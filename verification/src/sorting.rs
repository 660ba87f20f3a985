//! Sorting the selected widgets along an axis, and why the place of a
//! widget in the sorted selection is the number of selected widgets that
//! go before it.

use vstd::prelude::*;
use vstd::seq_lib::lemma_multiset_commutative;
use vstd::seq_lib::to_multiset_build;
use vstd::seq_lib::to_multiset_contains;
use vstd::seq_lib::to_multiset_len;
use vstd::seq_lib::to_multiset_remove;
use crate::components::UiElement;
use crate::distribution::Axis;
use crate::distribution::Picked;
use crate::distribution::along;
use crate::distribution::count_before;
use crate::distribution::count_in;
use crate::distribution::distributed;
use crate::distribution::extent;
use crate::distribution::goes_before;
use crate::distribution::lemma_least_selected_is_least;
use crate::distribution::lemma_picked_stands_for_selected;
use crate::distribution::picked;
use crate::distribution::run_before;
use crate::distribution::run_in;
use crate::geometry::clamp_coord;
use crate::selection::selected_count;

verus! {

/// Whether `a` does not come after `b`: it has the lesser coordinate, or
/// the same coordinate and no later a place.
pub open spec fn in_order(a: Picked, b: Picked) -> bool {
    a.key < b.key || (a.key == b.key && a.index <= b.index)
}

/// Whether no item of `items` comes after a later one.
pub open spec fn is_sorted(items: Seq<Picked>) -> bool {
    forall|p: int, q: int| 0 <= p < q < items.len() ==> in_order(#[trigger] items[p], #[trigger] items[q])
}

/// Merges two sorted runs into one.
fn merge(left: &Vec<Picked>, right: &Vec<Picked>) -> (out: Vec<Picked>)
    requires
        is_sorted(left@),
        is_sorted(right@),
        left@.len() + right@.len() <= usize::MAX,
    ensures
        is_sorted(out@),
        out@.len() == left@.len() + right@.len(),
        out@.to_multiset() == left@.to_multiset().add(right@.to_multiset()),
{
    let mut out: Vec<Picked> = Vec::new();
    let mut i: usize = 0;
    let mut j: usize = 0;
    proof {
        assert(left@.take(0) =~= Seq::<Picked>::empty());
        assert(right@.take(0) =~= Seq::<Picked>::empty());
        lemma_multiset_commutative(left@.take(0), right@.take(0));
        assert(left@.take(0) + right@.take(0) =~= out@);
    }
    while i < left.len() || j < right.len()
        invariant
            i <= left@.len(),
            j <= right@.len(),
            left@.len() + right@.len() <= usize::MAX,
            is_sorted(left@),
            is_sorted(right@),
            is_sorted(out@),
            out@.len() == i + j,
            out@.to_multiset() == left@.take(i as int).to_multiset().add(
                right@.take(j as int).to_multiset(),
            ),
            forall|p: int|
                0 <= p < out@.len() && i < left@.len() ==> in_order(
                    #[trigger] out@[p],
                    left@[i as int],
                ),
            forall|p: int|
                0 <= p < out@.len() && j < right@.len() ==> in_order(
                    #[trigger] out@[p],
                    right@[j as int],
                ),
        decreases left@.len() + right@.len() - i - j,
    {
        let take_left = if i < left.len() && j < right.len() {
            let a = left[i];
            let b = right[j];
            a.key < b.key || (a.key == b.key && a.index <= b.index)
        } else {
            i < left.len()
        };
        let ghost before = out@;
        if take_left {
            let item = left[i];
            out.push(item);
            proof {
                assert(left@.take(i + 1) =~= left@.take(i as int).push(item));
                to_multiset_build(left@.take(i as int), item);
                to_multiset_build(before, item);
                assert(out@.to_multiset() =~= left@.take(i + 1).to_multiset().add(
                    right@.take(j as int).to_multiset(),
                ));
                assert forall|p: int, q: int| 0 <= p < q < out@.len() implies in_order(
                    #[trigger] out@[p],
                    #[trigger] out@[q],
                ) by {
                    if q < before.len() {
                        assert(in_order(before[p], before[q]));
                    } else {
                        assert(in_order(before[p], left@[i as int]));
                    }
                }
                assert forall|p: int| 0 <= p < out@.len() && i + 1 < left@.len() implies in_order(
                    #[trigger] out@[p],
                    left@[i + 1],
                ) by {
                    assert(in_order(left@[i as int], left@[i + 1]));
                    if p < before.len() {
                        assert(in_order(before[p], left@[i as int]));
                    }
                }
                assert forall|p: int| 0 <= p < out@.len() && j < right@.len() implies in_order(
                    #[trigger] out@[p],
                    right@[j as int],
                ) by {
                    if p < before.len() {
                        assert(in_order(before[p], right@[j as int]));
                    }
                }
            }
            i += 1;
        } else {
            let item = right[j];
            out.push(item);
            proof {
                assert(right@.take(j + 1) =~= right@.take(j as int).push(item));
                to_multiset_build(right@.take(j as int), item);
                to_multiset_build(before, item);
                assert(out@.to_multiset() =~= left@.take(i as int).to_multiset().add(
                    right@.take(j + 1).to_multiset(),
                ));
                assert forall|p: int, q: int| 0 <= p < q < out@.len() implies in_order(
                    #[trigger] out@[p],
                    #[trigger] out@[q],
                ) by {
                    if q < before.len() {
                        assert(in_order(before[p], before[q]));
                    } else {
                        assert(in_order(before[p], right@[j as int]));
                    }
                }
                assert forall|p: int| 0 <= p < out@.len() && j + 1 < right@.len() implies in_order(
                    #[trigger] out@[p],
                    right@[j + 1],
                ) by {
                    assert(in_order(right@[j as int], right@[j + 1]));
                    if p < before.len() {
                        assert(in_order(before[p], right@[j as int]));
                    }
                }
                assert forall|p: int| 0 <= p < out@.len() && i < left@.len() implies in_order(
                    #[trigger] out@[p],
                    left@[i as int],
                ) by {
                    if p < before.len() {
                        assert(in_order(before[p], left@[i as int]));
                    }
                }
            }
            j += 1;
        }
    }
    proof {
        assert(left@.take(left@.len() as int) =~= left@);
        assert(right@.take(right@.len() as int) =~= right@);
    }
    out
}

/// Sorts the items from `low` up to `high` by merging sorted halves.
fn sort_range(items: &Vec<Picked>, low: usize, high: usize) -> (sorted: Vec<Picked>)
    requires
        low <= high <= items@.len(),
    ensures
        is_sorted(sorted@),
        sorted@.len() == high - low,
        sorted@.to_multiset() == items@.subrange(low as int, high as int).to_multiset(),
    decreases high - low,
{
    if high - low <= 1 {
        let mut sorted: Vec<Picked> = Vec::new();
        if low < high {
            sorted.push(items[low]);
        }
        assert(sorted@ =~= items@.subrange(low as int, high as int));
        sorted
    } else {
        let middle = low + (high - low) / 2;
        let left = sort_range(items, low, middle);
        let right = sort_range(items, middle, high);
        let sorted = merge(&left, &right);
        proof {
            let first = items@.subrange(low as int, middle as int);
            let second = items@.subrange(middle as int, high as int);
            assert(first + second =~= items@.subrange(low as int, high as int));
            lemma_multiset_commutative(first, second);
        }
        sorted
    }
}

/// Sorts picked widgets by coordinate; those with the same coordinate come
/// in the order of their places.
pub fn sort_picked(items: &Vec<Picked>) -> (sorted: Vec<Picked>)
    ensures
        is_sorted(sorted@),
        sorted@.len() == items@.len(),
        sorted@.to_multiset() == items@.to_multiset(),
{
    let sorted = sort_range(items, 0, items.len());
    assert(items@.subrange(0, items@.len() as int) =~= items@);
    sorted
}

/// The sum of `weight` over the items.
pub open spec fn total_of(items: Seq<Picked>, weight: spec_fn(Picked) -> int) -> int
    decreases items.len(),
{
    if items.len() == 0 {
        0
    } else {
        total_of(items.drop_last(), weight) + weight(items.last())
    }
}

/// One for an item that goes before the widget at place `index` with
/// coordinate `key`, zero for any other.
pub open spec fn one_if_before(key: int, index: int) -> spec_fn(Picked) -> int {
    |item: Picked|
        if goes_before(item.key as int, item.index as int, key, index) {
            1int
        } else {
            0int
        }
}

/// The room of an item that goes before the widget at place `index` with
/// coordinate `key`, zero for any other.
pub open spec fn room_if_before(spacing: int, key: int, index: int) -> spec_fn(Picked) -> int {
    |item: Picked|
        if goes_before(item.key as int, item.index as int, key, index) {
            item.extent + spacing
        } else {
            0int
        }
}

/// The room taken by the first `k` items: for each its extent and one
/// `spacing`.
pub open spec fn room_of_first(items: Seq<Picked>, spacing: int, k: int) -> int
    decreases k,
{
    if k <= 0 {
        0
    } else {
        room_of_first(items, spacing, k - 1) + items[k - 1].extent + spacing
    }
}

proof fn lemma_total_without_one(items: Seq<Picked>, weight: spec_fn(Picked) -> int, p: int)
    requires
        0 <= p < items.len(),
    ensures
        total_of(items.remove(p), weight) + weight(items[p]) == total_of(items, weight),
    decreases items.len(),
{
    if p == items.len() - 1 {
        assert(items.remove(p) =~= items.drop_last());
    } else {
        lemma_total_without_one(items.drop_last(), weight, p);
        assert(items.remove(p).drop_last() =~= items.drop_last().remove(p));
        assert(items.remove(p).last() == items.last());
    }
}

/// A sum over items does not depend on the order of the items.
proof fn lemma_total_of_rearranged(a: Seq<Picked>, b: Seq<Picked>, weight: spec_fn(Picked) -> int)
    requires
        a.to_multiset() == b.to_multiset(),
    ensures
        total_of(a, weight) == total_of(b, weight),
    decreases a.len(),
{
    to_multiset_len(a);
    to_multiset_len(b);
    if a.len() > 0 {
        let last = a.last();
        to_multiset_contains(a, last);
        to_multiset_contains(b, last);
        assert(a[a.len() - 1] == last);
        assert(a.contains(last));
        let p = choose|p: int| 0 <= p < b.len() && b[p] == last;
        to_multiset_remove(a, a.len() - 1);
        to_multiset_remove(b, p);
        assert(a.remove(a.len() - 1) =~= a.drop_last());
        lemma_total_of_rearranged(a.drop_last(), b.remove(p), weight);
        lemma_total_without_one(b, weight, p);
    }
}

proof fn lemma_counts_are_totals(items: Seq<Picked>, spacing: int, key: int, index: int)
    ensures
        count_in(items, key, index) == total_of(items, one_if_before(key, index)),
        run_in(items, spacing, key, index) == total_of(items, room_if_before(spacing, key, index)),
    decreases items.len(),
{
    if items.len() > 0 {
        lemma_counts_are_totals(items.drop_last(), spacing, key, index);
    }
}

/// What is counted and summed before a widget is the same in whatever
/// order the items stand.
proof fn lemma_counts_of_rearranged(a: Seq<Picked>, b: Seq<Picked>, spacing: int, key: int, index: int)
    requires
        a.to_multiset() == b.to_multiset(),
    ensures
        count_in(a, key, index) == count_in(b, key, index),
        run_in(a, spacing, key, index) == run_in(b, spacing, key, index),
{
    lemma_counts_are_totals(a, spacing, key, index);
    lemma_counts_are_totals(b, spacing, key, index);
    lemma_total_of_rearranged(a, b, one_if_before(key, index));
    lemma_total_of_rearranged(a, b, room_if_before(spacing, key, index));
}

/// Whether every item of `items` stands for a selected widget of
/// `elements`, with its place, its coordinate and its extent along `axis`.
pub open spec fn stands_for_selected(items: Seq<Picked>, elements: Seq<UiElement>, axis: Axis) -> bool {
    forall|m: int|
        0 <= m < items.len() ==> {
            let item = #[trigger] items[m];
            &&& item.index < elements.len()
            &&& elements[item.index as int].selected.selected
            &&& item.key == along(elements[item.index as int].position, axis)
            &&& item.extent == extent(elements[item.index as int].size, axis)
        }
}

/// The picked widgets stand for selected widgets, each for another one,
/// with the places growing along the list.
pub proof fn lemma_picked_is_faithful(elements: Seq<UiElement>, axis: Axis)
    requires
        elements.len() <= usize::MAX,
    ensures
        stands_for_selected(picked(elements, axis), elements, axis),
        forall|m: int, n: int|
            0 <= m < n < picked(elements, axis).len() ==> (#[trigger] picked(elements, axis)[m]).index
                < (#[trigger] picked(elements, axis)[n]).index,
        picked(elements, axis).no_duplicates(),
    decreases elements.len(),
{
    let items = picked(elements, axis);
    if elements.len() > 0 {
        let rest = elements.drop_last();
        lemma_picked_is_faithful(rest, axis);
        let before = picked(rest, axis);
        assert forall|m: int| 0 <= m < before.len() implies (#[trigger] before[m]).index
            < elements.len() - 1 by {}
        assert forall|m: int| 0 <= m < items.len() implies {
            let item = #[trigger] items[m];
            &&& item.index < elements.len()
            &&& elements[item.index as int].selected.selected
            &&& item.key == along(elements[item.index as int].position, axis)
            &&& item.extent == extent(elements[item.index as int].size, axis)
        } by {
            if m < before.len() {
                assert(items[m] == before[m]);
                assert(rest[before[m].index as int] == elements[before[m].index as int]);
            }
        }
        assert forall|m: int, n: int| 0 <= m < n < items.len() implies (#[trigger] items[m]).index
            < (#[trigger] items[n]).index by {
            assert(items[m] == before[m]);
            if n < before.len() {
                assert(items[n] == before[n]);
            }
        }
    }
    assert forall|m: int, n: int| 0 <= m < items.len() && 0 <= n < items.len() && m != n implies items[m]
        != items[n] by {
        if m < n {
            assert(items[m].index < items[n].index);
        } else {
            assert(items[n].index < items[m].index);
        }
    }
}

proof fn lemma_sorted_counts(sorted: Seq<Picked>, spacing: int, k: int, m: int)
    requires
        0 <= k < sorted.len(),
        0 <= m <= sorted.len(),
        forall|p: int, q: int|
            0 <= p < q < sorted.len() ==> goes_before(
                (#[trigger] sorted[p]).key as int,
                sorted[p].index as int,
                (#[trigger] sorted[q]).key as int,
                sorted[q].index as int,
            ),
    ensures
        count_in(sorted.take(m), sorted[k].key as int, sorted[k].index as int) == (if m <= k {
            m
        } else {
            k
        }),
        run_in(sorted.take(m), spacing, sorted[k].key as int, sorted[k].index as int)
            == room_of_first(sorted, spacing, if m <= k {
            m
        } else {
            k
        }),
    decreases m,
{
    if m > 0 {
        lemma_sorted_counts(sorted, spacing, k, m - 1);
        assert(sorted.take(m).drop_last() =~= sorted.take(m - 1));
        assert(sorted.take(m).last() == sorted[m - 1]);
        if m - 1 < k {
            assert(goes_before(
                sorted[m - 1].key as int,
                sorted[m - 1].index as int,
                sorted[k].key as int,
                sorted[k].index as int,
            ));
        } else if m - 1 > k {
            assert(goes_before(
                sorted[k].key as int,
                sorted[k].index as int,
                sorted[m - 1].key as int,
                sorted[m - 1].index as int,
            ));
        }
    }
}

/// In the sorted selection every item stands for a selected widget, and
/// the item at place `k` for the widget that `k` selected widgets go
/// before; the room that those take is the room of the first `k` items.
pub proof fn lemma_sorted_place_is_rank(
    elements: Seq<UiElement>,
    axis: Axis,
    spacing: int,
    sorted: Seq<Picked>,
    k: int,
)
    requires
        elements.len() <= usize::MAX,
        is_sorted(sorted),
        sorted.to_multiset() == picked(elements, axis).to_multiset(),
        0 <= k < sorted.len(),
    ensures
        sorted[k].index < elements.len(),
        elements[sorted[k].index as int].selected.selected,
        sorted[k].key == along(elements[sorted[k].index as int].position, axis),
        sorted[k].extent == extent(elements[sorted[k].index as int].size, axis),
        count_before(elements, axis, sorted[k].key as int, sorted[k].index as int) == k,
        run_before(elements, axis, spacing, sorted[k].key as int, sorted[k].index as int)
            == room_of_first(sorted, spacing, k),
{
    let items = picked(elements, axis);
    lemma_picked_is_faithful(elements, axis);
    items.lemma_multiset_has_no_duplicates();
    sorted.lemma_multiset_has_no_duplicates_conv();
    assert forall|p: int| 0 <= p < sorted.len() implies items.contains(#[trigger] sorted[p]) by {
        to_multiset_contains(sorted, sorted[p]);
        to_multiset_contains(items, sorted[p]);
        assert(sorted.contains(sorted[p]));
    }
    assert forall|p: int, q: int| 0 <= p < q < sorted.len() implies goes_before(
        (#[trigger] sorted[p]).key as int,
        sorted[p].index as int,
        (#[trigger] sorted[q]).key as int,
        sorted[q].index as int,
    ) by {
        assert(in_order(sorted[p], sorted[q]));
        assert(sorted[p] != sorted[q]);
        assert(items.contains(sorted[p]));
        assert(items.contains(sorted[q]));
        let m = choose|m: int| 0 <= m < items.len() && items[m] == sorted[p];
        let n = choose|n: int| 0 <= n < items.len() && items[n] == sorted[q];
        if m < n {
            assert(items[m].index < items[n].index);
        } else if n < m {
            assert(items[n].index < items[m].index);
        }
    }
    assert(items.contains(sorted[k]));
    let at = choose|m: int| 0 <= m < items.len() && items[m] == sorted[k];
    assert(items[at] == sorted[k]);
    lemma_sorted_counts(sorted, spacing, k, sorted.len() as int);
    assert(sorted.take(sorted.len() as int) =~= sorted);
    lemma_counts_of_rearranged(
        sorted,
        items,
        spacing,
        sorted[k].key as int,
        sorted[k].index as int,
    );
    lemma_picked_stands_for_selected(
        elements,
        axis,
        spacing,
        sorted[k].key as int,
        sorted[k].index as int,
    );
}

/// After a distribution along `axis`, the selected widgets, taken in the
/// order of their coordinates before, stand one `spacing` apart from where
/// the first of them stood: the widget at place `k` of the sorted
/// selection stands at `c0 + k * spacing`, where `c0` is the coordinate of
/// the widget at place zero. (Where that leaves the coordinate range, the
/// widget stands at the end of the range.)
pub proof fn lemma_distribution_follows_sorted_order(
    elements: Seq<UiElement>,
    axis: Axis,
    spacing: int,
    sorted: Seq<Picked>,
    k: int,
)
    requires
        elements.len() <= usize::MAX,
        selected_count(elements) >= 2,
        is_sorted(sorted),
        sorted.to_multiset() == picked(elements, axis).to_multiset(),
        0 <= k < sorted.len(),
    ensures
        sorted.len() == selected_count(elements),
        sorted[k].index < elements.len(),
        elements[sorted[k].index as int].selected.selected,
        sorted[k].key == along(elements[sorted[k].index as int].position, axis),
        along(distributed(elements, axis, spacing)[sorted[k].index as int].position, axis)
            == clamp_coord(sorted[0].key + k * spacing),
        i32::MIN <= sorted[0].key + k * spacing <= i32::MAX ==> along(
            distributed(elements, axis, spacing)[sorted[k].index as int].position,
            axis,
        ) == sorted[0].key + k * spacing,
{
    lemma_sorted_place_is_rank(elements, axis, spacing, sorted, k);
    lemma_sorted_place_is_rank(elements, axis, spacing, sorted, 0);
    lemma_least_selected_is_least(elements, axis, sorted[0].index as int);
    lemma_picked_stands_for_selected(elements, axis, spacing, 0, 0);
    to_multiset_len(sorted);
    to_multiset_len(picked(elements, axis));
}

} // verus!
