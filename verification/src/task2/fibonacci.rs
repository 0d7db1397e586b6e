//! Search, insertion and deletion in a sorted sequence, probing at
//! Fibonacci-number offsets.

use crate::common::is_sorted;
use crate::common::lemma_sorted_same_elements;
use vstd::prelude::*;
use vstd::seq_lib::to_multiset_insert;
use vstd::seq_lib::to_multiset_remove;
use vstd::slice::slice_subrange;

verus! {

/// The Fibonacci numbers 0, 1, 1, 2, 3, 5, ...
pub open spec fn fib(k: nat) -> nat
    decreases k,
{
    if k < 2 {
        k
    } else {
        fib((k - 1) as nat) + fib((k - 2) as nat)
    }
}

/// The index examined at step `k` in a sequence of `len > 0` elements: the
/// `k`-th Fibonacci number, capped at the last index.
pub open spec fn probe_index(k: nat, len: nat) -> int {
    if fib(k) < len - 1 {
        fib(k) as int
    } else {
        len - 1
    }
}

/// The lower bound at step `k`: the index examined one step earlier.
pub open spec fn probe_floor(k: nat, len: nat) -> int {
    if k == 0 {
        0
    } else {
        probe_index((k - 1) as nat, len)
    }
}

/// The outcome of probing `s` for `value` from step `k` on: the index of the
/// first match in probing order, if any, and the insertion point.
pub open spec fn probe_from(s: Seq<i32>, value: i32, k: nat) -> (Option<int>, int)
    decreases s.len(), s.len() + 1 - k,
    via probe_from_decreases
{
    if s.len() == 0 {
        (None, 0)
    } else {
        let at = probe_index(k, s.len());
        let floor = probe_floor(k, s.len());
        if s[at] == value {
            (Some(at), at + 1)
        } else if s[at] > value {
            let inner = probe_from(s.subrange(floor, at), value, 0);
            (
                match inner.0 {
                    Some(i) => Some(floor + i),
                    None => None,
                },
                floor + inner.1,
            )
        } else if at == s.len() - 1 {
            (None, s.len() as int)
        } else {
            probe_from(s, value, k + 1)
        }
    }
}

#[via_fn]
proof fn probe_from_decreases(s: Seq<i32>, value: i32, k: nat) {
    if s.len() > 0 {
        lemma_fib_grows(k);
    }
}

/// The `k`-th Fibonacci number is at least `k - 1`.
pub proof fn lemma_fib_grows(k: nat)
    ensures
        fib(k) + 1 >= k,
        k >= 1 ==> fib(k) >= 1,
    decreases k,
{
    if k >= 2 {
        lemma_fib_grows((k - 1) as nat);
        lemma_fib_grows((k - 2) as nat);
    }
}

/// The whole search: probing from the first Fibonacci number.
pub open spec fn spec_fib_search(s: Seq<i32>, value: i32) -> (Option<int>, int) {
    probe_from(s, value, 0)
}

/// Where `value` may be spliced into `s` without breaking ascending order:
/// nothing before index `p` is above it and nothing from `p` on is below it.
pub open spec fn keeps_order(s: Seq<i32>, value: i32, p: int) -> bool {
    &&& 0 <= p <= s.len()
    &&& forall|j: int| 0 <= j < p ==> s[j] <= value
    &&& forall|j: int| p <= j < s.len() ==> s[j] >= value
}

/// Probing never leaves the sequence, and a reported match is a match.
pub proof fn lemma_probe_in_bounds(s: Seq<i32>, value: i32, k: nat)
    ensures
        0 <= probe_from(s, value, k).1 <= s.len(),
        probe_from(s, value, k).0 matches Some(i) ==> 0 <= i < s.len() && s[i] == value
            && probe_from(s, value, k).1 == i + 1,
    decreases s.len(), s.len() + 1 - k,
{
    if s.len() > 0 {
        lemma_fib_grows(k);
        let at = probe_index(k, s.len());
        if s[at] > value {
            lemma_probe_in_bounds(s.subrange(probe_floor(k, s.len()), at), value, 0);
        } else if s[at] < value && at != s.len() - 1 {
            lemma_probe_in_bounds(s, value, k + 1);
        }
    }
}

/// On a sorted sequence, probing from step `k` finds `value` exactly when it
/// occurs, and the insertion point keeps the order, provided that the lower
/// bound of step `k` lies below `value`.
pub proof fn lemma_probe_sorted(s: Seq<i32>, value: i32, k: nat)
    requires
        is_sorted(s),
        k > 0 ==> s.len() > 0 && s[probe_floor(k, s.len())] < value,
    ensures
        keeps_order(s, value, probe_from(s, value, k).1),
        probe_from(s, value, k).0 is Some <==> s.contains(value),
    decreases s.len(), s.len() + 1 - k,
{
    if s.len() > 0 {
        lemma_fib_grows(k);
        let at = probe_index(k, s.len());
        let floor = probe_floor(k, s.len());
        if s[at] > value {
            // what lies below the floor is too small, what lies from `at` on
            // is too great, and the range between them is searched on its own
            let sub = s.subrange(floor, at);
            assert(is_sorted(sub));
            lemma_probe_sorted(sub, value, 0);
            lemma_probe_in_bounds(sub, value, 0);
            let p = floor + probe_from(sub, value, 0).1;
            assert forall|j: int| 0 <= j < p implies s[j] <= value by {
                if j >= floor {
                    assert(sub[j - floor] == s[j]);
                }
            }
            assert forall|j: int| p <= j < s.len() implies s[j] >= value by {
                if j < at {
                    assert(sub[j - floor] == s[j]);
                }
            }
            if probe_from(sub, value, 0).0 is None {
                assert forall|j: int| 0 <= j < s.len() implies s[j] != value by {
                    if floor <= j < at {
                        assert(sub.contains(sub[j - floor]));
                    }
                }
            }
        } else if s[at] < value && at != s.len() - 1 {
            lemma_probe_sorted(s, value, k + 1);
        }
    }
}

/// The sequence after `value` went in at the insertion point of the search.
pub open spec fn spec_insert(s: Seq<i32>, value: i32) -> Seq<i32> {
    s.insert(spec_fib_search(s, value).1, value)
}

/// The sequence after the occurrence of `value` that the search finds came
/// out; the sequence itself when the search finds none.
pub open spec fn spec_delete(s: Seq<i32>, value: i32) -> Seq<i32> {
    match spec_fib_search(s, value).0 {
        Some(i) => s.remove(i),
        None => s,
    }
}

/// Insertion into a sorted sequence leaves it sorted, with one more
/// occurrence of the value and nothing else changed.
pub proof fn lemma_insert_sorted(s: Seq<i32>, value: i32)
    requires
        is_sorted(s),
    ensures
        is_sorted(spec_insert(s, value)),
        spec_insert(s, value).to_multiset() == s.to_multiset().insert(value),
        spec_insert(s, value).to_multiset().count(value) == s.to_multiset().count(value) + 1,
{
    lemma_probe_sorted(s, value, 0);
    let p = spec_fib_search(s, value).1;
    to_multiset_insert(s, p, value);
}

/// Deletion from a sorted sequence leaves it sorted. A value that occurs
/// loses exactly one occurrence; a value that does not occur changes nothing.
pub proof fn lemma_delete_sorted(s: Seq<i32>, value: i32)
    requires
        is_sorted(s),
    ensures
        is_sorted(spec_delete(s, value)),
        s.contains(value) ==> spec_delete(s, value).to_multiset() == s.to_multiset().remove(value),
        s.contains(value) ==> spec_delete(s, value).to_multiset().count(value)
            == s.to_multiset().count(value) - 1,
        !s.contains(value) ==> spec_delete(s, value) == s,
{
    broadcast use vstd::seq_lib::group_to_multiset_ensures;

    lemma_probe_sorted(s, value, 0);
    lemma_probe_in_bounds(s, value, 0);
}

/// Deleting a value right after inserting it restores the sorted sequence.
pub proof fn lemma_insert_then_delete(s: Seq<i32>, value: i32)
    requires
        is_sorted(s),
    ensures
        spec_delete(spec_insert(s, value), value).to_multiset() == s.to_multiset(),
        spec_delete(spec_insert(s, value), value) == s,
{
    let t = spec_insert(s, value);
    lemma_insert_sorted(s, value);
    lemma_delete_sorted(t, value);
    let p = spec_fib_search(s, value).1;
    lemma_probe_in_bounds(s, value, 0);
    assert(t[p] == value);
    let u = spec_delete(t, value);
    assert(u.to_multiset() =~= s.to_multiset());
    lemma_sorted_same_elements(u, s);
}

/// A Fibonacci number as far as `usize` can hold it.
pub open spec fn capped(n: nat) -> usize {
    if n > usize::MAX {
        usize::MAX
    } else {
        n as usize
    }
}

/// Two consecutive Fibonacci numbers, each capped at `usize::MAX`.
struct Fib {
    current: usize,
    next: usize,
}

impl Fib {
    spec fn at_step(&self, k: nat) -> bool {
        &&& self.current == capped(fib(k))
        &&& self.next == capped(fib(k + 1))
    }

    /// Hands out the current number and moves one step on.
    fn next(&mut self, Ghost(k): Ghost<nat>) -> (value: usize)
        requires
            old(self).at_step(k),
        ensures
            value == capped(fib(k)),
            final(self).at_step(k + 1),
    {
        let current = self.current;
        self.current = self.next;
        self.next = self.next.saturating_add(current);
        current
    }
}

/// Looks for `value` in `slice`, probing at Fibonacci offsets from the left
/// end of the range that is left. Returns the index of the first match that
/// the probing meets, if there is one, and the point at which `value` can be
/// inserted.
pub fn fib_search(slice: &[i32], value: &i32) -> (found: (Option<usize>, usize))
    ensures
        found.1 == spec_fib_search(slice@, *value).1,
        match found.0 {
            Some(i) => spec_fib_search(slice@, *value).0 == Some(i as int),
            None => spec_fib_search(slice@, *value).0 is None,
        },
        found.1 <= slice@.len(),
        found.0 matches Some(i) ==> i < slice@.len() && slice@[i as int] == *value && found.1 == i
            + 1,
        is_sorted(slice@) ==> keeps_order(slice@, *value, found.1 as int),
        is_sorted(slice@) ==> is_sorted(slice@.insert(found.1 as int, *value)),
        is_sorted(slice@) ==> (found.0 is Some <==> slice@.contains(*value)),
    decreases slice@.len(),
{
    proof {
        if is_sorted(slice@) {
            lemma_probe_sorted(slice@, *value, 0);
        }
    }
    if slice.len() == 0 {
        return (None, 0);
    }
    let mut fib = Fib { current: 0, next: 1 };
    let last_idx = slice.len() - 1;
    let mut prev_idx: usize = 0;
    let ghost mut k: nat = 0;
    loop
        invariant
            slice@.len() > 0,
            last_idx == slice@.len() - 1,
            fib.at_step(k),
            prev_idx == probe_floor(k, slice@.len() as nat),
            probe_from(slice@, *value, k) == spec_fib_search(slice@, *value),
            is_sorted(slice@) ==> keeps_order(slice@, *value, spec_fib_search(slice@, *value).1),
            is_sorted(slice@) ==> is_sorted(
                slice@.insert(spec_fib_search(slice@, *value).1, *value),
            ),
            is_sorted(slice@) ==> (spec_fib_search(slice@, *value).0 is Some <==> slice@.contains(
                *value,
            )),
        decreases slice@.len() + 1 - k,
    {
        let index = fib.next(Ghost(k));
        let searchin_idx = if index < last_idx {
            index
        } else {
            last_idx
        };
        proof {
            lemma_fib_grows(k);
        }
        let probed = slice[searchin_idx];
        if probed == *value {
            return (Some(searchin_idx), searchin_idx + 1);
        } else if probed > *value {
            let below = slice_subrange(slice, prev_idx, searchin_idx);
            let (res, index_to_insert) = fib_search(below, value);
            return match res {
                Some(offset) => (Some(prev_idx + offset), prev_idx + index_to_insert),
                None => (None, prev_idx + index_to_insert),
            };
        } else {
            prev_idx = searchin_idx;
        }
        if searchin_idx == last_idx {
            return (None, slice.len());
        }
        proof {
            k = k + 1;
        }
    }
}

/// Inserts `value` at the point that the search gives and returns that point.
pub fn insert(vec: &mut Vec<i32>, value: i32) -> (idx: usize)
    ensures
        idx == spec_fib_search(old(vec)@, value).1,
        final(vec)@ == spec_insert(old(vec)@, value),
        final(vec)@.to_multiset() == old(vec)@.to_multiset().insert(value),
        is_sorted(old(vec)@) ==> is_sorted(final(vec)@),
{
    let (_, idx) = fib_search(vec.as_slice(), &value);
    proof {
        to_multiset_insert(vec@, idx as int, value);
    }
    vec.insert(idx, value);
    idx
}

/// Removes the occurrence of `value` that the search finds and returns the
/// index it had; leaves the sequence as it is when the search finds none.
pub fn delete(vec: &mut Vec<i32>, value: &i32) -> (removed: Option<usize>)
    ensures
        final(vec)@ == spec_delete(old(vec)@, *value),
        match removed {
            Some(idx) => {
                &&& spec_fib_search(old(vec)@, *value).0 == Some(idx as int)
                &&& idx < old(vec)@.len()
                &&& old(vec)@[idx as int] == *value
                &&& final(vec)@.to_multiset() == old(vec)@.to_multiset().remove(*value)
            },
            None => {
                &&& spec_fib_search(old(vec)@, *value).0 is None
                &&& final(vec)@ == old(vec)@
            },
        },
        is_sorted(old(vec)@) ==> is_sorted(final(vec)@),
        is_sorted(old(vec)@) ==> (removed is Some <==> old(vec)@.contains(*value)),
{
    if let (Some(idx), _) = fib_search(vec.as_slice(), value) {
        proof {
            to_multiset_remove(vec@, idx as int);
        }
        vec.remove(idx);
        return Some(idx);
    }
    None
}

} // verus!
