//! A generation-checked handle table.
//!
//! Handles are an index plus a generation counter instead of raw addresses,
//! so a null handle, a stale handle, or a repeated destroy is detected and
//! reported rather than corrupting anything. A destroyed slot is retired and
//! its generation advanced; the generation of a live slot never matches a
//! handle minted for an earlier occupant. The table also accounts for its
//! live entries, so every create can be checked against exactly one destroy.

use vstd::prelude::*;

verus! {

/// An opaque handle: a slot index and the generation the slot had when the
/// handle was minted. The null handle has generation 0, which no live slot
/// ever carries.
#[derive(Clone, Copy, PartialEq, Eq, Structural, Debug)]
pub struct Handle {
    pub idx: usize,
    pub gen: u64,
}

impl Handle {
    /// The null handle: valid in no table, ever.
    pub fn null() -> (h: Handle)
        ensures
            h == (Handle { idx: 0, gen: 0 }),
    {
        Handle { idx: 0, gen: 0 }
    }
}

/// One slot: its current generation and its occupant, if live.
pub struct Slot<T> {
    pub gen: u64,
    pub val: Option<T>,
}

/// How many of the slots are live.
pub open spec fn count_live<T>(s: Seq<Slot<T>>) -> nat
    decreases s.len(),
{
    if s.len() == 0 {
        0
    } else {
        count_live(s.drop_last()) + if s.last().val is Some { 1nat } else { 0nat }
    }
}

/// Replacing one slot changes the live count by the difference the two
/// slots contribute.
proof fn lemma_count_live_update<T>(s: Seq<Slot<T>>, i: int, x: Slot<T>)
    requires
        0 <= i < s.len(),
    ensures
        count_live(s.update(i, x)) + (if s[i].val is Some { 1nat } else { 0nat })
            == count_live(s) + (if x.val is Some { 1nat } else { 0nat }),
    decreases s.len(),
{
    if i == s.len() - 1 {
        assert(s.update(i, x).drop_last() =~= s.drop_last());
    } else {
        assert(s.update(i, x).drop_last() =~= s.drop_last().update(i, x));
        lemma_count_live_update(s.drop_last(), i, x);
    }
}

/// The handle table.
pub struct Table<T> {
    pub slots: Vec<Slot<T>>,
}

impl<T> Table<T> {
    /// Every slot's generation is at least 1 (so the null handle never
    /// matches), and a live slot's stays below the counter's ceiling (so
    /// retiring it can advance the generation).
    pub open spec fn wf(self) -> bool {
        forall|i: int|
            0 <= i < self.slots@.len() ==> 1 <= #[trigger] self.slots@[i].gen
                && (self.slots@[i].val is Some ==> self.slots@[i].gen < u64::MAX)
    }

    /// The handle names a live entry.
    pub open spec fn contains(self, h: Handle) -> bool {
        h.idx < self.slots@.len() && self.slots@[h.idx as int].gen == h.gen
            && self.slots@[h.idx as int].val is Some
    }

    /// The live entry the handle names.
    pub open spec fn value(self, h: Handle) -> T {
        self.slots@[h.idx as int].val->Some_0
    }

    /// How many entries are live.
    pub open spec fn live(self) -> nat {
        count_live(self.slots@)
    }

    /// Creates an empty table.
    pub fn new() -> (r: Table<T>)
        ensures
            r.wf(),
            r.live() == 0,
            forall|h: Handle| !r.contains(h),
    {
        Table { slots: Vec::new() }
    }

    /// Stores a value in a fresh slot and mints its handle. Every handle
    /// that was live stays live with its value; the new handle was not.
    pub fn insert(&mut self, v: T) -> (h: Handle)
        requires
            old(self).wf(),
        ensures
            final(self).wf(),
            final(self).contains(h),
            final(self).value(h) == v,
            !old(self).contains(h),
            final(self).live() == old(self).live() + 1,
            forall|h2: Handle| #[trigger] old(self).contains(h2) ==> final(self).contains(h2)
                && final(self).value(h2) == old(self).value(h2),
            forall|h2: Handle| h2 != h && #[trigger] final(self).contains(h2) ==> old(self).contains(h2),
    {
        let idx = self.slots.len();
        self.slots.push(Slot { gen: 1, val: Some(v) });
        proof {
            assert(self.slots@.drop_last() =~= old(self).slots@);
        }
        Handle { idx, gen: 1 }
    }

    /// Tells whether the handle names a live entry.
    pub fn is_live(&self, h: Handle) -> (r: bool)
        ensures
            r == self.contains(h),
    {
        h.idx < self.slots.len() && self.slots[h.idx].gen == h.gen && self.slots[h.idx].val.is_some()
    }

    /// Destroys the entry the handle names: the slot is retired and its
    /// generation advanced. For a null, stale, or already-destroyed handle
    /// the table is untouched and `false` comes back, so a repeated destroy
    /// is a detected no-op.
    pub fn destroy(&mut self, h: Handle) -> (r: bool)
        requires
            old(self).wf(),
        ensures
            final(self).wf(),
            r == old(self).contains(h),
            !r ==> *final(self) == *old(self),
            r ==> final(self).live() == old(self).live() - 1,
            !final(self).contains(h),
            forall|h2: Handle| h2 != h && #[trigger] old(self).contains(h2) ==> final(self).contains(h2) && final(self).value(h2) == old(self).value(h2),
            forall|h2: Handle| #[trigger] final(self).contains(h2) ==> old(self).contains(h2),
    {
        if !self.is_live(h) {
            return false;
        }
        let g = self.slots[h.idx].gen;
        let slot = &mut self.slots[h.idx];
        *slot = Slot { gen: g + 1, val: None };
        proof {
            lemma_count_live_update(old(self).slots@, h.idx as int, self.slots@[h.idx as int]);
        }
        true
    }

    /// Takes the entry out, leaving its slot hollow: same generation, no
    /// occupant. `restore` puts an entry back under the same handle.
    pub fn withdraw(&mut self, h: Handle) -> (r: T)
        requires
            old(self).wf(),
            old(self).contains(h),
        ensures
            final(self).wf(),
            r == old(self).value(h),
            final(self).hollow(h),
            !final(self).contains(h),
            final(self).live() == old(self).live() - 1,
            forall|h2: Handle| h2 != h && #[trigger] old(self).contains(h2) ==> final(self).contains(h2) && final(self).value(h2) == old(self).value(h2),
            forall|h2: Handle| #[trigger] final(self).contains(h2) ==> old(self).contains(h2),
    {
        let slot = &mut self.slots[h.idx];
        let v_opt = slot.val.take();
        proof {
            lemma_count_live_update(old(self).slots@, h.idx as int, self.slots@[h.idx as int]);
        }
        v_opt.unwrap()
    }

    /// The slot exists under the handle's generation but has no occupant:
    /// exactly the state `withdraw` leaves behind.
    pub open spec fn hollow(self, h: Handle) -> bool {
        h.idx < self.slots@.len() && self.slots@[h.idx as int].gen == h.gen
            && self.slots@[h.idx as int].val is None && h.gen < u64::MAX
    }

    /// Puts an entry back into the hollow slot its handle names.
    pub fn restore(&mut self, h: Handle, v: T)
        requires
            old(self).wf(),
            old(self).hollow(h),
        ensures
            final(self).wf(),
            final(self).contains(h),
            final(self).value(h) == v,
            final(self).live() == old(self).live() + 1,
            forall|h2: Handle| h2 != h && #[trigger] old(self).contains(h2) ==> final(self).contains(h2) && final(self).value(h2) == old(self).value(h2),
            forall|h2: Handle| h2 != h && #[trigger] final(self).contains(h2) ==> old(self).contains(h2),
    {
        let slot = &mut self.slots[h.idx];
        slot.val = Some(v);
        proof {
            lemma_count_live_update(old(self).slots@, h.idx as int, self.slots@[h.idx as int]);
        }
    }

    /// Counts the live entries, for allocation accounting: every create is
    /// matched by exactly one destroy exactly when this returns to its old
    /// value.
    pub fn live_count(&self) -> (r: usize)
        ensures
            r == self.live(),
    {
        let mut count: usize = 0;
        let mut i: usize = 0;
        while i < self.slots.len()
            invariant
                i <= self.slots@.len(),
                count == count_live(self.slots@.take(i as int)),
                count_live(self.slots@.take(i as int)) <= i,
            decreases self.slots@.len() - i,
        {
            proof {
                assert(self.slots@.take(i + 1).drop_last() =~= self.slots@.take(i as int));
                assert(self.slots@.take(i + 1).last() == self.slots@[i as int]);
            }
            if self.slots[i].val.is_some() {
                count = count + 1;
            }
            i = i + 1;
        }
        proof {
            assert(self.slots@.take(self.slots@.len() as int) =~= self.slots@);
        }
        count
    }

    /// Borrows the entry the handle names.
    pub fn borrow_at(&self, h: Handle) -> (r: &T)
        requires
            self.contains(h),
        ensures
            *r == self.value(h),
    {
        self.slots[h.idx].val.as_ref().unwrap()
    }
}

} // verus!
