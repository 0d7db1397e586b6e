//! Quicksort with the first element as pivot.

use crate::common::is_sorted;
use crate::common::swap_items;
use vstd::prelude::*;

verus! {

/// Every element from `lo` up to `hi` lies between `low` and `high`.
pub open spec fn within(s: Seq<i32>, lo: int, hi: int, low: int, high: int) -> bool {
    forall|k: int| lo <= k < hi ==> low <= #[trigger] s[k] <= high
}

/// The elements from `lo` up to `hi` are in ascending order.
pub open spec fn sorted_between(s: Seq<i32>, lo: int, hi: int) -> bool {
    forall|a: int, b: int| lo <= a <= b < hi ==> s[a] <= s[b]
}

/// Sorts in ascending order.
pub fn quicksort(slice: &mut [i32])
    ensures
        is_sorted(final(slice)@),
        final(slice)@.to_multiset() == old(slice)@.to_multiset(),
{
    let len = slice.len();
    quicksort_range(slice, 0, len, Ghost(i32::MIN as int), Ghost(i32::MAX as int));
}

/// Sorts the elements from `lo` up to `hi`, all of which lie between `low`
/// and `high`, and leaves the others where they are.
fn quicksort_range(slice: &mut [i32], lo: usize, hi: usize, Ghost(low): Ghost<int>, Ghost(high): Ghost<int>)
    requires
        lo <= hi <= old(slice)@.len(),
        within(old(slice)@, lo as int, hi as int, low, high),
    ensures
        final(slice)@.len() == old(slice)@.len(),
        final(slice)@.to_multiset() == old(slice)@.to_multiset(),
        within(final(slice)@, lo as int, hi as int, low, high),
        sorted_between(final(slice)@, lo as int, hi as int),
        forall|k: int| 0 <= k < lo || hi <= k < old(slice)@.len() ==> final(slice)@[k] == old(slice)@[k],
    decreases hi - lo,
{
    if hi - lo <= 1 {
        return ;
    }
    let pivot = slice[lo];
    let mut i = lo + 1;
    let mut j = hi - 1;
    loop
        invariant_except_break
            i <= j + 1,
        invariant
            lo < hi <= slice@.len(),
            slice@.len() == old(slice)@.len(),
            slice@.to_multiset() == old(slice)@.to_multiset(),
            within(slice@, lo as int, hi as int, low, high),
            forall|k: int| 0 <= k < lo || hi <= k < slice@.len() ==> slice@[k] == old(slice)@[k],
            slice@[lo as int] == pivot,
            lo + 1 <= i <= hi,
            lo <= j <= hi - 1,
            forall|k: int| lo < k < i ==> slice@[k] <= pivot,
            forall|k: int| j < k < hi ==> slice@[k] > pivot,
        ensures
            i >= j,
            j == lo || slice@[j as int] <= pivot,
        decreases j + 1 - i,
    {
        while i < hi && slice[i] <= pivot
            invariant
                lo + 1 <= i <= hi,
                hi <= slice@.len(),
                forall|k: int| lo < k < i ==> slice@[k] <= pivot,
            decreases hi - i,
        {
            i += 1;
        }
        while j > lo && slice[j] > pivot
            invariant
                lo <= j <= hi - 1,
                hi <= slice@.len(),
                forall|k: int| j < k < hi ==> slice@[k] > pivot,
            decreases j,
        {
            j -= 1;
        }
        if i >= j {
            break ;
        }
        swap_items(slice, i, j);
        i += 1;
        j -= 1;
    }
    swap_items(slice, lo, j);
    quicksort_range(slice, lo, j, Ghost(low), Ghost(pivot as int));
    quicksort_range(slice, j + 1, hi, Ghost(pivot as int), Ghost(high));
}

} // verus!
