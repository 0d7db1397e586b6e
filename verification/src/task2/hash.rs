//! A set of integers in a fixed number of slots, with linear probing.

use vstd::prelude::*;

verus! {

/// Every slot that probing may use is taken.
#[derive(Debug, Clone, Copy, PartialEq, Eq)]
pub struct CustomSetExceedsCapacityError;

/// The absolute value, which fits where `i32::MIN` does not.
pub open spec fn magnitude(value: i32) -> nat {
    if value < 0 {
        (-(value as int)) as nat
    } else {
        value as nat
    }
}

/// The primary slot of `value` among `capacity > 0` slots.
pub open spec fn home(value: i32, capacity: nat) -> int {
    (magnitude(value) % capacity) as int
}

/// The slot examined at step `k` of probing for `value`: step 0 looks one
/// past the primary slot, each further step one slot on, and the slot after
/// the last is slot 0.
pub open spec fn probe_slot(value: i32, capacity: nat, k: int) -> int {
    let at = home(value, capacity) + 1 + k;
    if at < capacity {
        at
    } else {
        at - capacity
    }
}

/// Probing for `value` goes on past step `k`: the slot holds another value.
pub open spec fn passes(slots: Seq<Option<i32>>, value: i32, k: int) -> bool {
    match slots[probe_slot(value, slots.len(), k)] {
        Some(other) => other != value,
        None => false,
    }
}

/// The slot at which probing for `value` stops when it starts at step `k`:
/// the first one that is empty or holds `value`. There is none when every
/// step up to the return to the primary slot goes on.
pub open spec fn settle_from(slots: Seq<Option<i32>>, value: i32, k: int) -> Option<int>
    decreases slots.len() - k,
{
    if k < 0 || k + 1 >= slots.len() {
        None
    } else if passes(slots, value, k) {
        settle_from(slots, value, k + 1)
    } else {
        Some(probe_slot(value, slots.len(), k))
    }
}

/// The slot at which probing for `value` stops.
pub open spec fn settle(slots: Seq<Option<i32>>, value: i32) -> Option<int> {
    settle_from(slots, value, 0)
}

/// The slots after `value` was added.
pub open spec fn spec_add(slots: Seq<Option<i32>>, value: i32) -> Seq<Option<i32>> {
    match settle(slots, value) {
        Some(i) => if slots[i] is None {
            slots.update(i, Some(value))
        } else {
            slots
        },
        None => slots,
    }
}

/// What adding `value` reports: `Ok(true)` when it went into an empty slot,
/// `Ok(false)` when probing met it, and the error when probing came back to
/// the primary slot.
pub open spec fn spec_add_outcome(slots: Seq<Option<i32>>, value: i32) -> Result<
    bool,
    CustomSetExceedsCapacityError,
> {
    match settle(slots, value) {
        Some(i) => Ok(slots[i] is None),
        None => Err(CustomSetExceedsCapacityError),
    }
}

/// Whether probing for `value` meets it.
pub open spec fn spec_contains(slots: Seq<Option<i32>>, value: i32) -> bool {
    match settle(slots, value) {
        Some(i) => slots[i] == Some(value),
        None => false,
    }
}

/// Every stored value sits where probing for it stops. So no value is stored
/// twice, and none sits in its primary slot.
pub open spec fn well_placed(slots: Seq<Option<i32>>) -> bool {
    forall|i: int|
        0 <= i < slots.len() ==> (#[trigger] slots[i] matches Some(v) ==> settle(slots, v) == Some(
            i,
        ))
}

/// The values that the slots hold.
pub open spec fn stored(slots: Seq<Option<i32>>) -> Set<i32> {
    Set::new(|v: i32| slots.contains(Some(v)))
}

/// The primary slot is a slot.
pub proof fn lemma_home_in_range(value: i32, capacity: nat)
    requires
        capacity > 0,
    ensures
        0 <= home(value, capacity) < capacity,
{
    assert(0 <= magnitude(value) % capacity < capacity) by (nonlinear_arith)
        requires
            capacity > 0,
    ;
}

/// Where probing from step `k` stops, it stops at a step that every step
/// from `k` on went past; where it stops nowhere, every step goes on.
pub proof fn lemma_settle_step(slots: Seq<Option<i32>>, value: i32, k: int) -> (m: int)
    requires
        0 <= k,
    ensures
        settle_from(slots, value, k) is Some ==> {
            &&& k <= m < slots.len() - 1
            &&& settle_from(slots, value, k) == Some(probe_slot(value, slots.len(), m))
            &&& !passes(slots, value, m)
            &&& forall|j: int| k <= j < m ==> passes(slots, value, j)
        },
        settle_from(slots, value, k) is None ==> forall|j: int|
            k <= j < slots.len() - 1 ==> passes(slots, value, j),
    decreases slots.len() - k,
{
    if k + 1 >= slots.len() {
        k
    } else if passes(slots, value, k) {
        lemma_settle_step(slots, value, k + 1)
    } else {
        k
    }
}

/// Probing that goes past every step from `k` up to `m` and not past `m`
/// stops at the slot of step `m`.
pub proof fn lemma_settle_at(slots: Seq<Option<i32>>, value: i32, k: int, m: int)
    requires
        0 <= k <= m < slots.len() - 1,
        !passes(slots, value, m),
        forall|j: int| k <= j < m ==> passes(slots, value, j),
    ensures
        settle_from(slots, value, k) == Some(probe_slot(value, slots.len(), m)),
    decreases m - k,
{
    if k < m {
        lemma_settle_at(slots, value, k + 1, m);
    }
}

/// The slot where probing stops is a slot, and not the primary one.
pub proof fn lemma_settle_in_range(slots: Seq<Option<i32>>, value: i32)
    ensures
        settle(slots, value) matches Some(i) ==> 0 <= i < slots.len() && i != home(
            value,
            slots.len(),
        ),
{
    lemma_settle_step(slots, value, 0);
    if slots.len() > 0 {
        lemma_home_in_range(value, slots.len());
    }
}

/// Adding keeps every value where probing for it stops.
pub proof fn lemma_add_well_placed(slots: Seq<Option<i32>>, value: i32)
    requires
        well_placed(slots),
    ensures
        well_placed(spec_add(slots, value)),
{
    let after = spec_add(slots, value);
    if after != slots {
        let i = settle(slots, value)->0;
        let m = lemma_settle_step(slots, value, 0);
        assert forall|j: int| 0 <= j < after.len() implies (#[trigger] after[j] matches Some(w)
            ==> settle(after, w) == Some(j)) by {
            if let Some(w) = after[j] {
                if j == i {
                    assert forall|s: int| 0 <= s < m implies passes(after, value, s) by {
                        assert(passes(slots, value, s));
                    }
                    lemma_settle_at(after, value, 0, m);
                } else {
                    let mw = lemma_settle_step(slots, w, 0);
                    assert forall|s: int| 0 <= s < mw implies passes(after, w, s) by {
                        assert(passes(slots, w, s));
                    }
                    lemma_settle_at(after, w, 0, mw);
                }
            }
        }
    }
}

/// With every value well placed, probing meets exactly the stored values.
pub proof fn lemma_contains_stored(slots: Seq<Option<i32>>, value: i32)
    requires
        well_placed(slots),
    ensures
        spec_contains(slots, value) == stored(slots).contains(value),
{
    lemma_settle_in_range(slots, value);
}

/// What adding does to the stored values: a new value goes in when a slot
/// is free for it, and nothing changes otherwise.
pub proof fn lemma_add_stored(slots: Seq<Option<i32>>, value: i32)
    requires
        well_placed(slots),
    ensures
        spec_add_outcome(slots, value) == Ok::<bool, CustomSetExceedsCapacityError>(true) ==> {
            &&& !stored(slots).contains(value)
            &&& stored(spec_add(slots, value)) == stored(slots).insert(value)
        },
        spec_add_outcome(slots, value) == Ok::<bool, CustomSetExceedsCapacityError>(false) ==> {
            &&& stored(slots).contains(value)
            &&& spec_add(slots, value) == slots
        },
        spec_add_outcome(slots, value) is Err ==> {
            &&& !stored(slots).contains(value)
            &&& spec_add(slots, value) == slots
        },
{
    lemma_settle_step(slots, value, 0);
    if spec_add_outcome(slots, value) == Ok::<bool, CustomSetExceedsCapacityError>(true) {
        let i = settle(slots, value)->0;
        let after = spec_add(slots, value);
        assert(after[i] == Some(value));
        assert forall|v: i32| stored(after).contains(v) == stored(slots).insert(value).contains(
            v,
        ) by {
            if stored(after).contains(v) {
                let j = choose|j: int| 0 <= j < after.len() && after[j] == Some(v);
                assert(j == i || slots[j] == Some(v));
            }
            if stored(slots).contains(v) {
                let j = choose|j: int| 0 <= j < slots.len() && slots[j] == Some(v);
                assert(after[j] == Some(v));
            }
        }
    }
}

/// Once a value is in, adding it again reports that it is there and changes
/// nothing.
pub proof fn lemma_add_twice(slots: Seq<Option<i32>>, value: i32)
    requires
        well_placed(slots),
        spec_add_outcome(slots, value) is Ok,
    ensures
        spec_add_outcome(spec_add(slots, value), value) == Ok::<
            bool,
            CustomSetExceedsCapacityError,
        >(false),
        spec_add(spec_add(slots, value), value) == spec_add(slots, value),
{
    let after = spec_add(slots, value);
    lemma_add_well_placed(slots, value);
    lemma_settle_step(slots, value, 0);
    let i = settle(slots, value)->0;
    assert(after[i] == Some(value));
}

/// No value sits in two slots.
pub proof fn lemma_no_value_twice(slots: Seq<Option<i32>>, i: int, j: int)
    requires
        well_placed(slots),
        0 <= i < slots.len(),
        0 <= j < slots.len(),
        i != j,
        slots[i] is Some,
    ensures
        slots[i] != slots[j],
{
}

/// Adding never changes the number of slots.
pub proof fn lemma_add_keeps_capacity(slots: Seq<Option<i32>>, value: i32)
    ensures
        spec_add(slots, value).len() == slots.len(),
{
    lemma_settle_in_range(slots, value);
}

/// With no slot at all, nothing can be added and nothing is found.
pub proof fn lemma_no_capacity(slots: Seq<Option<i32>>, value: i32)
    requires
        slots.len() == 0,
    ensures
        spec_add_outcome(slots, value) is Err,
        spec_add(slots, value) == slots,
        !spec_contains(slots, value),
{
}

/// A set of integers held in a fixed number of slots. Probing for a value
/// starts one slot past its primary slot and stops at an empty slot, at the
/// value itself, or back at the primary slot, which is never examined.
pub struct CustomHasSet {
    data: Vec<Option<i32>>,
    size: usize,
}

impl CustomHasSet {
    /// The slots, each empty or holding one value.
    pub closed spec fn slots(&self) -> Seq<Option<i32>> {
        self.data@
    }

    /// The number of slots is the one the set was made with, and every
    /// stored value sits where probing for it stops.
    pub closed spec fn wf(&self) -> bool {
        &&& self.size == self.data@.len()
        &&& well_placed(self.data@)
    }

    /// The values in the set.
    pub open spec fn view(&self) -> Set<i32> {
        stored(self.slots())
    }

    /// A set of `size` empty slots.
    pub fn new(size: usize) -> (set: Self)
        ensures
            set.wf(),
            set.slots() == Seq::new(size as nat, |i: int| None::<i32>),
            set@ == Set::<i32>::empty(),
    {
        let mut data: Vec<Option<i32>> = Vec::new();
        let mut filled: usize = 0;
        while filled < size
            invariant
                filled <= size,
                data@ == Seq::new(filled as nat, |i: int| None::<i32>),
            decreases size - filled,
        {
            data.push(None);
            filled += 1;
        }
        Self { data, size }
    }

    /// The number of slots.
    pub fn get_size(&self) -> (size: usize)
        requires
            self.wf(),
        ensures
            size == self.slots().len(),
    {
        self.size
    }

    /// Adds `value`: `Ok(true)` when it went into an empty slot, `Ok(false)`
    /// when it was there already, and the error when probing came back to
    /// the primary slot without finding either.
    #[verifier::loop_isolation(false)]
    pub fn add(&mut self, value: i32) -> (outcome: Result<bool, CustomSetExceedsCapacityError>)
        requires
            old(self).wf(),
        ensures
            final(self).wf(),
            final(self).slots() == spec_add(old(self).slots(), value),
            final(self).slots().len() == old(self).slots().len(),
            outcome == spec_add_outcome(old(self).slots(), value),
            old(self).slots().len() == 0 ==> outcome is Err,
            match outcome {
                Ok(true) => !old(self)@.contains(value) && final(self)@ == old(self)@.insert(value),
                Ok(false) => old(self)@.contains(value) && final(self).slots() == old(
                    self,
                ).slots(),
                Err(_) => !old(self)@.contains(value) && final(self).slots() == old(self).slots(),
            },
    {
        proof {
            lemma_add_well_placed(self.data@, value);
            lemma_add_stored(self.data@, value);
            lemma_add_keeps_capacity(self.data@, value);
        }
        if self.size == 0 {
            return Err(CustomSetExceedsCapacityError);
        }
        let orig_hash = self.hash(value);
        let mut next_hash = orig_hash;
        let ghost mut k: int = 0;
        loop
            invariant
                self.data@ == old(self).data@,
                self.size == old(self).size,
                self.size == self.data@.len(),
                self.size > 0,
                orig_hash == home(value, self.size as nat),
                0 <= k < self.size,
                next_hash == if k == 0 {
                    orig_hash as int
                } else {
                    probe_slot(value, self.size as nat, k - 1)
                },
                forall|j: int| 0 <= j < k ==> passes(self.data@, value, j),
            decreases self.size - k,
        {
            next_hash = self.rehash(next_hash);
            if next_hash >= self.size {
                next_hash = 0;
            }
            if next_hash == orig_hash {
                proof {
                    lemma_settle_step(self.data@, value, 0);
                }
                return Err(CustomSetExceedsCapacityError);
            }
            if let Some(val) = self.data[next_hash] {
                if val == value {
                    proof {
                        lemma_settle_at(self.data@, value, 0, k);
                    }
                    return Ok(false);
                }
                proof {
                    k = k + 1;
                }
                continue ;
            }
            proof {
                lemma_settle_at(self.data@, value, 0, k);
            }
            self.data[next_hash] = Some(value);
            return Ok(true);
        }
    }

    /// Whether `value` is in the set.
    #[verifier::loop_isolation(false)]
    pub fn contains(&self, value: i32) -> (found: bool)
        requires
            self.wf(),
        ensures
            found == spec_contains(self.slots(), value),
            found == self@.contains(value),
            self.slots().len() == 0 ==> !found,
    {
        proof {
            lemma_contains_stored(self.data@, value);
        }
        if self.size == 0 {
            return false;
        }
        let orig_hash = self.hash(value);
        let mut next_hash = orig_hash;
        let ghost mut k: int = 0;
        loop
            invariant
                self.size == self.data@.len(),
                self.size > 0,
                orig_hash == home(value, self.size as nat),
                0 <= k < self.size,
                next_hash == if k == 0 {
                    orig_hash as int
                } else {
                    probe_slot(value, self.size as nat, k - 1)
                },
                forall|j: int| 0 <= j < k ==> passes(self.data@, value, j),
            decreases self.size - k,
        {
            next_hash = self.rehash(next_hash);
            if next_hash >= self.size {
                next_hash = 0;
            }
            if next_hash == orig_hash {
                proof {
                    lemma_settle_step(self.data@, value, 0);
                }
                return false;
            }
            match self.data[next_hash] {
                Some(val) => {
                    if val == value {
                        proof {
                            lemma_settle_at(self.data@, value, 0, k);
                        }
                        return true;
                    }
                },
                None => {
                    proof {
                        lemma_settle_at(self.data@, value, 0, k);
                    }
                    return false;
                },
            }
            proof {
                k = k + 1;
            }
        }
    }

    /// The primary slot of `value`.
    fn hash(&self, value: i32) -> (slot: usize)
        requires
            self.size > 0,
        ensures
            slot == home(value, self.size as nat),
            slot < self.size,
    {
        let magnitude: u32 = if value < 0 {
            (-(value as i64)) as u32
        } else {
            value as u32
        };
        magnitude as usize % self.size
    }

    /// The slot after `prev_hash`, before wrapping.
    fn rehash(&self, prev_hash: usize) -> (next: usize)
        requires
            prev_hash < self.size,
        ensures
            next == prev_hash + 1,
    {
        prev_hash + 1
    }
}

} // verus!
