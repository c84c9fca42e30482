//! Facts about lists from which some items were picked and converted.

use vstd::prelude::*;

verus! {

/// The positions in `items` of the items that `pick` keeps, in rising order.
pub open spec fn origins<A, B>(items: Seq<A>, pick: spec_fn(A) -> Option<B>) -> Seq<int>
    decreases items.len(),
{
    if items.len() == 0 {
        Seq::empty()
    } else {
        let before = origins(items.drop_last(), pick);
        if pick(items.last()) is Some {
            before.push(items.len() - 1)
        } else {
            before
        }
    }
}

/// What `filter_map` keeps stands in the order of the items it was made
/// from, one result for each item that `pick` keeps.
pub proof fn lemma_origins<A, B>(items: Seq<A>, pick: spec_fn(A) -> Option<B>)
    ensures
        origins(items, pick).len() == items.filter_map(pick).len(),
        forall|i: int|
            0 <= i < origins(items, pick).len() ==> 0 <= #[trigger] origins(items, pick)[i]
                < items.len() && pick(items[origins(items, pick)[i]]) == Some(
                items.filter_map(pick)[i],
            ),
        forall|i: int, j: int|
            0 <= i < j < origins(items, pick).len() ==> #[trigger] origins(items, pick)[i]
                < #[trigger] origins(items, pick)[j],
        forall|k: int|
            0 <= k < items.len() && pick(#[trigger] items[k]) is Some ==> origins(
                items,
                pick,
            ).contains(k),
    decreases items.len(),
{
    if items.len() > 0 {
        let shorter = items.drop_last();
        lemma_origins(shorter, pick);
        let out = items.filter_map(pick);
        let from = origins(items, pick);
        let from_before = origins(shorter, pick);
        assert forall|i: int| 0 <= i < from.len() implies 0 <= #[trigger] from[i] < items.len()
            && pick(items[from[i]]) == Some(out[i]) by {
            if i < from_before.len() {
                assert(from[i] == from_before[i]);
                assert(shorter[from_before[i]] == items[from_before[i]]);
            }
        }
        assert forall|i: int, j: int| 0 <= i < j < from.len() implies #[trigger] from[i]
            < #[trigger] from[j] by {
            assert(from[i] == from_before[i]);
            if j < from_before.len() {
                assert(from[j] == from_before[j]);
            }
        }
        assert forall|k: int| 0 <= k < items.len() && pick(#[trigger] items[k]) is Some implies from.contains(
            k,
        ) by {
            if k < shorter.len() {
                assert(shorter[k] == items[k]);
                assert(from_before.contains(k));
                let i = choose|i: int| 0 <= i < from_before.len() && from_before[i] == k;
                assert(from[i] == k);
            } else {
                assert(from[from.len() - 1] == k);
            }
        }
    }
}

/// One more item: `filter_map` of the first `i + 1` items is that of the
/// first `i` items, with the result for the item at `i` appended if `pick`
/// keeps it.
pub proof fn lemma_filter_map_step<A, B>(items: Seq<A>, pick: spec_fn(A) -> Option<B>, i: int)
    requires
        0 <= i < items.len(),
    ensures
        items.take(i + 1).filter_map(pick) == match pick(items[i]) {
            Some(kept) => items.take(i).filter_map(pick).push(kept),
            None => items.take(i).filter_map(pick),
        },
{
    assert(items.take(i + 1).drop_last() =~= items.take(i));
    assert(items.take(i + 1).last() == items[i]);
    if let Some(kept) = pick(items[i]) {
        assert(items.take(i).filter_map(pick) + seq![kept] =~= items.take(i).filter_map(pick).push(
            kept,
        ));
    }
}

} // verus!
