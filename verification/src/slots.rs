//! Alarm slot bookkeeping: the allocation bitmap and the callback table.
//!
//! A slot is a logical one-shot alarm, bound 1:1 to a physical compare unit.
//! Slots are handed out in index order and never returned; each slot stores
//! at most one callback, and setting a new callback replaces the old one.

use vstd::prelude::*;

verus! {

/// Number of alarm slots, fixed by the four compare units of the timer block.
pub const NUM_ALARMS: usize = 4;

/// Identity of one alarm slot, always in `0 .. NUM_ALARMS`.
#[derive(Clone, Copy, Debug, PartialEq, Eq, Structural)]
pub struct AlarmHandle {
    id: u8,
}

impl AlarmHandle {
    /// The slot index this handle names.
    pub closed spec fn id_spec(self) -> int {
        self.id as int
    }

    /// A handle is well formed when it names one of the existing slots.
    pub open spec fn wf(self) -> bool {
        0 <= self.id_spec() < NUM_ALARMS as int
    }

    pub fn new(id: u8) -> (h: AlarmHandle)
        requires
            id < NUM_ALARMS as u8,
        ensures
            h.id_spec() == id as int,
            h.wf(),
    {
        AlarmHandle { id }
    }

    pub fn id(self) -> (r: u8)
        ensures
            r as int == self.id_spec(),
    {
        self.id
    }
}

/// Index of the first unallocated slot at or after `i`, or `a.len()` if all
/// slots from `i` on are taken.
pub open spec fn first_free_from(a: Seq<bool>, i: int) -> int
    decreases a.len() - i when 0 <= i <= a.len()
{
    if i >= a.len() {
        a.len() as int
    } else if !a[i] {
        i
    } else {
        first_free_from(a, i + 1)
    }
}

/// The allocation bitmap and callback table shared by every driver front end.
///
/// `C` is the callback payload a slot carries; the driver never inspects it,
/// it only stores it and hands it back to whoever serves the interrupt.
pub struct AlarmSlots<C> {
    allocated: Vec<bool>,
    callbacks: Vec<Option<C>>,
}

impl<C: Copy> AlarmSlots<C> {
    /// True for each slot that has been handed out; never reset.
    pub closed spec fn allocated_map(self) -> Seq<bool> {
        self.allocated@
    }

    /// The callback stored for each slot, if any.
    pub closed spec fn callback_map(self) -> Seq<Option<C>> {
        self.callbacks@
    }

    /// Both tables cover exactly the fixed slot range, and a callback is
    /// only ever stored for an allocated slot.
    pub open spec fn wf(self) -> bool {
        &&& self.allocated_map().len() == NUM_ALARMS as int
        &&& self.callback_map().len() == NUM_ALARMS as int
        &&& forall|i: int|
                0 <= i < NUM_ALARMS as int && self.callback_map()[i] is Some
                    ==> self.allocated_map()[i]
    }

    /// Index of the first free slot, or `NUM_ALARMS` if none is left.
    pub open spec fn first_free(self) -> int {
        first_free_from(self.allocated_map(), 0)
    }

    /// A fresh table: no slot allocated, no callback stored.
    pub fn new() -> (s: Self)
        ensures
            s.wf(),
            forall|i: int| 0 <= i < NUM_ALARMS as int ==> !s.allocated_map()[i],
            forall|i: int| 0 <= i < NUM_ALARMS as int ==> s.callback_map()[i] is None,
    {
        let mut allocated: Vec<bool> = Vec::new();
        let mut callbacks: Vec<Option<C>> = Vec::new();
        let mut i: usize = 0;
        while i < NUM_ALARMS
            invariant
                i <= NUM_ALARMS,
                allocated@.len() == i as int,
                callbacks@.len() == i as int,
                forall|j: int| 0 <= j < i as int ==> !allocated@[j],
                forall|j: int| 0 <= j < i as int ==> callbacks@[j] is None,
            decreases NUM_ALARMS - i,
        {
            allocated.push(false);
            callbacks.push(None);
            i += 1;
        }
        AlarmSlots { allocated, callbacks }
    }

    /// Hand out the first free slot, marking it allocated, or report
    /// exhaustion.  Slots are never returned, so allocation only moves the
    /// bitmap upward.
    pub fn allocate(&mut self) -> (r: Option<AlarmHandle>)
        requires
            old(self).wf(),
        ensures
            final(self).wf(),
            final(self).callback_map() == old(self).callback_map(),
            old(self).first_free() < NUM_ALARMS as int ==> {
                &&& r matches Some(h) && h.id_spec() == old(self).first_free()
                &&& final(self).allocated_map()
                    == old(self).allocated_map().update(old(self).first_free(), true)
            },
            old(self).first_free() == NUM_ALARMS as int ==> {
                &&& r is None
                &&& final(self).allocated_map() == old(self).allocated_map()
            },
    {
        proof {
            lemma_first_free_bounds(self.allocated_map(), 0);
        }
        let mut idx: usize = 0;
        while idx < NUM_ALARMS && self.allocated[idx]
            invariant
                self == old(self),
                self.wf(),
                idx <= NUM_ALARMS,
                first_free_from(self.allocated_map(), 0)
                    == first_free_from(self.allocated_map(), idx as int),
            decreases NUM_ALARMS - idx,
        {
            idx += 1;
        }
        if idx < NUM_ALARMS {
            self.allocated.set(idx, true);
            Some(AlarmHandle::new(idx as u8))
        } else {
            None
        }
    }

    /// Store `c` as the slot's callback, replacing any previous one.
    ///
    /// The slot must have been handed out by [`Self::allocate`]; calling
    /// this for a slot that was never allocated is a caller error.
    pub fn set_callback(&mut self, h: AlarmHandle, c: C)
        requires
            old(self).wf(),
            h.wf(),
            old(self).allocated_map()[h.id_spec()],
        ensures
            final(self).wf(),
            final(self).allocated_map() == old(self).allocated_map(),
            final(self).callback_map()
                == old(self).callback_map().update(h.id_spec(), Some(c)),
    {
        let i = h.id() as usize;
        self.callbacks.set(i, Some(c));
    }

    /// Read back the slot's stored callback, if any.
    pub fn get_callback(&self, h: AlarmHandle) -> (r: Option<C>)
        requires
            self.wf(),
            h.wf(),
        ensures
            r == self.callback_map()[h.id_spec()],
    {
        self.callbacks[h.id() as usize]
    }

    /// Whether the slot is currently marked allocated.
    pub fn is_allocated(&self, h: AlarmHandle) -> (r: bool)
        requires
            self.wf(),
            h.wf(),
        ensures
            r == self.allocated_map()[h.id_spec()],
    {
        self.allocated[h.id() as usize]
    }
}

/// The first free index is in bounds, free if it exists, and everything
/// below it is taken.
pub proof fn lemma_first_free_bounds(a: Seq<bool>, i: int)
    requires
        0 <= i <= a.len(),
    ensures
        i <= first_free_from(a, i) <= a.len(),
        first_free_from(a, i) < a.len() ==> !a[first_free_from(a, i)],
        forall|j: int| i <= j < first_free_from(a, i) ==> a[j],
        first_free_from(a, i) == a.len() ==> forall|j: int| i <= j < a.len() ==> a[j],
    decreases a.len() - i,
{
    if i < a.len() && a[i] {
        lemma_first_free_bounds(a, i + 1);
    }
}

/// Two successful allocations never hand out the same slot: the first
/// allocation marks its slot, no operation ever clears the mark, so by the
/// time the second allocation runs its bitmap still shows the first slot as
/// taken, and the first free index must differ.
pub proof fn lemma_allocations_are_distinct(a: Seq<bool>, b: Seq<bool>)
    requires
        a.len() == b.len(),
        first_free_from(a, 0) < a.len(),
        first_free_from(b, 0) < b.len(),
        b[first_free_from(a, 0)],
    ensures
        first_free_from(a, 0) != first_free_from(b, 0),
{
    lemma_first_free_bounds(a, 0);
    lemma_first_free_bounds(b, 0);
}

/// Once every slot is taken, allocation reports exhaustion: the first free
/// index equals the table length, so `allocate` returns `None`.
pub proof fn lemma_allocation_exhausted(a: Seq<bool>)
    requires
        forall|j: int| 0 <= j < a.len() ==> a[j],
    ensures
        first_free_from(a, 0) == a.len(),
{
    lemma_first_free_bounds(a, 0);
}

} // verus!
