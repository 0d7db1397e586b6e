//! Selection sort.

use crate::common::is_sorted;
use crate::common::swap_items;
use vstd::prelude::*;

verus! {

/// Sorts in ascending order: over and over, the least element of the part
/// that is not sorted yet is exchanged with the first of that part.
pub fn selection_sort(slice: &mut [i32])
    ensures
        is_sorted(final(slice)@),
        final(slice)@.to_multiset() == old(slice)@.to_multiset(),
{
    let len = slice.len();
    if len == 0 {
        return ;
    }
    let mut unsorted_elem_ptr: usize = 0;
    while unsorted_elem_ptr < len - 1
        invariant
            len == slice@.len(),
            len > 0,
            unsorted_elem_ptr <= len - 1,
            slice@.to_multiset() == old(slice)@.to_multiset(),
            forall|a: int, b: int| 0 <= a <= b < unsorted_elem_ptr ==> slice@[a] <= slice@[b],
            forall|a: int, b: int|
                0 <= a < unsorted_elem_ptr <= b < len ==> slice@[a] <= slice@[b],
        decreases len - unsorted_elem_ptr,
    {
        let mut min_ptr = unsorted_elem_ptr;
        let mut i = unsorted_elem_ptr;
        while i < len
            invariant
                len == slice@.len(),
                unsorted_elem_ptr <= i <= len,
                unsorted_elem_ptr <= min_ptr < len,
                forall|k: int| unsorted_elem_ptr <= k < i ==> slice@[min_ptr as int] <= slice@[k],
            decreases len - i,
        {
            if slice[i] < slice[min_ptr] {
                min_ptr = i;
            }
            i += 1;
        }
        if min_ptr != unsorted_elem_ptr {
            swap_items(slice, unsorted_elem_ptr, min_ptr);
        }
        unsorted_elem_ptr += 1;
    }
}

} // verus!
