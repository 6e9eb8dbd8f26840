//! Dropping chosen positions from a vector while the rest keeps its order.

use vstd::prelude::*;

verus! {

/// The items among the first `upto` whose position is marked in `keep`, in
/// their original order.
pub open spec fn keep_prefix<T>(items: Seq<T>, keep: Seq<bool>, upto: int) -> Seq<T>
    decreases upto,
{
    if upto <= 0 {
        Seq::empty()
    } else {
        let rest = keep_prefix(items, keep, upto - 1);
        if keep[upto - 1] {
            rest.push(items[upto - 1])
        } else {
            rest
        }
    }
}

/// The items whose position is marked in `keep`, in their original order.
pub open spec fn keep_where<T>(items: Seq<T>, keep: Seq<bool>) -> Seq<T> {
    keep_prefix(items, keep, items.len() as int)
}

/// How many of the first `upto` positions are marked in `keep`.
pub open spec fn count_kept(keep: Seq<bool>, upto: int) -> nat
    decreases upto,
{
    if upto <= 0 {
        0
    } else {
        count_kept(keep, upto - 1) + if keep[upto - 1] {
            1nat
        } else {
            0nat
        }
    }
}

/// A filtered prefix has as many items as there are marked positions, and
/// never more than the prefix had.
pub proof fn lemma_keep_prefix_len<T>(items: Seq<T>, keep: Seq<bool>, upto: int)
    requires
        0 <= upto,
    ensures
        keep_prefix(items, keep, upto).len() == count_kept(keep, upto),
        count_kept(keep, upto) <= upto,
    decreases upto,
{
    if upto > 0 {
        lemma_keep_prefix_len(items, keep, upto - 1);
    }
}

/// Where every position is marked, nothing is dropped.
pub proof fn lemma_keep_all<T>(items: Seq<T>, keep: Seq<bool>, upto: int)
    requires
        0 <= upto <= items.len(),
        forall|i: int| 0 <= i < upto ==> keep[i],
    ensures
        keep_prefix(items, keep, upto) == items.take(upto),
    decreases upto,
{
    if upto > 0 {
        lemma_keep_all(items, keep, upto - 1);
        assert(items.take(upto - 1).push(items[upto - 1]) =~= items.take(upto));
    } else {
        assert(items.take(0) =~= Seq::<T>::empty());
    }
}

/// Survivors keep their relative order: the `p`-th survivor of a prefix is
/// the item at an original position `source(p)`, and `source` is strictly
/// increasing.
pub open spec fn is_order_preserving<T>(items: Seq<T>, kept: Seq<T>, source: Seq<int>) -> bool {
    &&& source.len() == kept.len()
    &&& forall|p: int| 0 <= p < kept.len() ==> 0 <= #[trigger] source[p] < items.len()
    &&& forall|p: int| 0 <= p < kept.len() ==> kept[p] == items[#[trigger] source[p]]
    &&& forall|p: int, q: int| 0 <= p < q < kept.len() ==> source[p] < source[q]
}

/// The original positions of the survivors of a prefix, in order.
pub open spec fn kept_positions(keep: Seq<bool>, upto: int) -> Seq<int>
    decreases upto,
{
    if upto <= 0 {
        Seq::empty()
    } else {
        let rest = kept_positions(keep, upto - 1);
        if keep[upto - 1] {
            rest.push(upto - 1)
        } else {
            rest
        }
    }
}

/// Filtering never reorders: the survivors are the marked items, each once,
/// in increasing order of their original position.
pub proof fn law_filter_keeps_order<T>(items: Seq<T>, keep: Seq<bool>, upto: int)
    requires
        0 <= upto <= items.len(),
    ensures
        is_order_preserving(items, keep_prefix(items, keep, upto), kept_positions(keep, upto)),
        forall|p: int|
            0 <= p < kept_positions(keep, upto).len() ==> #[trigger] kept_positions(keep, upto)[p]
                < upto && keep[kept_positions(keep, upto)[p]],
    decreases upto,
{
    if upto > 0 {
        law_filter_keeps_order(items, keep, upto - 1);
    }
}

/// Removes from `items` every position that `keep` does not mark, and
/// returns how many were removed. The survivors keep their order.
pub fn retain_by_mask<T>(items: &mut Vec<T>, keep: &Vec<bool>) -> (removed: usize)
    requires
        keep@.len() == old(items)@.len(),
    ensures
        final(items)@ == keep_where(old(items)@, keep@),
        removed == old(items)@.len() - final(items)@.len(),
{
    let mut all: Vec<T> = Vec::new();
    core::mem::swap(items, &mut all);
    let ghost original = all@;
    let total = all.len();
    let mut removed: usize = 0;
    let mut index: usize = 0;
    for item in it: all
        invariant
            it.seq() == original,
            index == it.index(),
            original.len() == total,
            keep@.len() == original.len(),
            items@ == keep_prefix(original, keep@, index as int),
            removed + items@.len() == index,
    {
        if keep[index] {
            items.push(item);
        } else {
            removed += 1;
        }
        index += 1;
    }
    removed
}

} // verus!
