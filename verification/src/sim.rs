//! A pure model of the RP2040 timer block, and the driver running on it.
//!
//! The model mirrors the peripheral's observable behaviour: a free-running
//! 64-bit counter and four compare channels.  A channel can have its
//! interrupt line enabled, can be armed for an absolute tick, raises its
//! interrupt (becomes pending) once the counter passes the target, and
//! stays pending until explicitly cleared.  Arming follows the hardware's
//! rule that a deadline more than `u32::MAX` ticks in the future cannot be
//! programmed; a deadline already in the past is accepted and fires as soon
//! as the counter moves.
//!
//! [`SimTimeDriver`] runs the full driver protocol against this model, so
//! the whole state machine — allocate, set callback, arm, fire, clear,
//! re-arm — is verified end to end.  Callback invocation is recorded in an
//! invocation log: the driver never inspects the callback payload, it only
//! stores it and hands it to whoever serves the interrupt.

use vstd::prelude::*;

use crate::slots::{AlarmHandle, AlarmSlots, NUM_ALARMS};

verus! {

/// One compare channel of the modelled timer block.
#[derive(Clone, Copy, PartialEq, Eq, Structural)]
pub struct SimAlarm {
    /// Interrupt line unmasked at the peripheral.
    pub enabled: bool,
    /// Compare register armed and not yet matched.
    pub armed: bool,
    /// Absolute tick the compare register holds.
    pub target: u64,
    /// Interrupt condition raised and not yet cleared.
    pub pending: bool,
}

/// The modelled timer block: counter plus its four compare channels.
pub struct SimTimer {
    /// The free-running counter; only ever moves forward.
    pub ticks: u64,
    /// The compare channels, one per alarm slot, in slot order.
    pub alarms: Vec<SimAlarm>,
}

/// One recorded callback invocation: which slot fired and the callback
/// (with its context) that was invoked for it.
#[derive(Clone, Copy, PartialEq, Eq, Structural)]
pub struct Invocation<C> {
    pub slot: u8,
    pub callback: C,
}

/// Whether the hardware accepts arming for `tick` while the counter reads
/// `now`: the deadline must not lie more than `u32::MAX` ticks ahead.
/// Deadlines at or before `now` are accepted.
pub open spec fn schedulable(now: u64, tick: u64) -> bool {
    tick as int - now as int <= u32::MAX as int
}

/// What the counter reaching `t` does to one channel: an armed channel
/// whose target has been reached trips — it disarms and raises its
/// interrupt; every other channel is untouched.
pub open spec fn fire_due(ch: SimAlarm, t: u64) -> SimAlarm {
    if ch.armed && ch.target <= t {
        SimAlarm { armed: false, pending: true, ..ch }
    } else {
        ch
    }
}

/// A complete driver instance running against the modelled timer block.
pub struct SimTimeDriver<C> {
    /// The modelled hardware.
    pub timer: SimTimer,
    /// Allocation bitmap and callback table.
    pub slots: AlarmSlots<C>,
    /// Every callback invocation the dispatch path has performed, in order.
    pub fired: Vec<Invocation<C>>,
}

impl<C: Copy> SimTimeDriver<C> {
    /// The slot tables are well formed, the channel array covers exactly
    /// the slot range, and a channel that is armed or pending always has a
    /// callback stored — the dispatch path relies on that.
    pub open spec fn wf(self) -> bool {
        &&& self.timer.alarms@.len() == NUM_ALARMS as int
        &&& self.slots.wf()
        &&& forall|i: int|
                0 <= i < NUM_ALARMS as int
                    && (self.timer.alarms@[i].armed || self.timer.alarms@[i].pending)
                    ==> self.slots.callback_map()[i] is Some
    }

    /// A fresh driver on a quiescent timer: counter at zero, no channel
    /// enabled, armed or pending, no slot allocated, nothing fired.
    pub fn new() -> (d: Self)
        ensures
            d.wf(),
            d.timer.ticks == 0,
            forall|i: int| 0 <= i < NUM_ALARMS as int
                ==> d.timer.alarms@[i] == (SimAlarm {
                        enabled: false,
                        armed: false,
                        target: 0u64,
                        pending: false,
                    }),
            forall|i: int| 0 <= i < NUM_ALARMS as int ==> !d.slots.allocated_map()[i],
            forall|i: int| 0 <= i < NUM_ALARMS as int ==> d.slots.callback_map()[i] is None,
            d.fired@ == Seq::<Invocation<C>>::empty(),
    {
        let mut alarms: Vec<SimAlarm> = Vec::new();
        let mut i: usize = 0;
        while i < NUM_ALARMS
            invariant
                i <= NUM_ALARMS,
                alarms@.len() == i as int,
                forall|j: int| 0 <= j < i as int
                    ==> alarms@[j] == (SimAlarm {
                            enabled: false,
                            armed: false,
                            target: 0u64,
                            pending: false,
                        }),
            decreases NUM_ALARMS - i,
        {
            alarms.push(SimAlarm { enabled: false, armed: false, target: 0, pending: false });
            i += 1;
        }
        SimTimeDriver {
            timer: SimTimer { ticks: 0, alarms },
            slots: AlarmSlots::new(),
            fired: Vec::new(),
        }
    }

    /// Read the current tick.  The counter only moves forward (see
    /// [`Self::advance_to`]), so values read in call order never decrease.
    pub fn now(&self) -> (r: u64)
        ensures
            r == self.timer.ticks,
    {
        self.timer.ticks
    }

    /// What allocation leaves behind: the first free slot is handed out
    /// and marked — or, with every slot taken, nothing is handed out and
    /// nothing changes.  The hardware and the invocation log are untouched
    /// either way, and a slot, once marked, is never given back.
    pub open spec fn alloc_rel(pre: Self, post: Self, r: Option<AlarmHandle>) -> bool {
        &&& post.timer.ticks == pre.timer.ticks
        &&& post.timer.alarms@ == pre.timer.alarms@
        &&& post.fired@ == pre.fired@
        &&& post.slots.callback_map() == pre.slots.callback_map()
        &&& if pre.slots.first_free() < NUM_ALARMS as int {
                &&& r matches Some(h) && h.id_spec() == pre.slots.first_free() && h.wf()
                &&& post.slots.allocated_map()
                    == pre.slots.allocated_map().update(pre.slots.first_free(), true)
            } else {
                &&& r is None
                &&& post.slots.allocated_map() == pre.slots.allocated_map()
            }
    }

    /// Hand out the first free slot, or report capacity exhaustion.
    pub fn allocate_alarm(&mut self) -> (r: Option<AlarmHandle>)
        requires
            old(self).wf(),
        ensures
            final(self).wf(),
            Self::alloc_rel(*old(self), *final(self), r),
    {
        proof {
            crate::slots::lemma_first_free_bounds(self.slots.allocated_map(), 0);
        }
        self.slots.allocate()
    }

    /// What setting a callback leaves behind: only the slot's table entry
    /// changes, to the new callback.
    pub open spec fn set_callback_rel(pre: Self, post: Self, h: AlarmHandle, c: C) -> bool {
        &&& post.timer.ticks == pre.timer.ticks
        &&& post.timer.alarms@ == pre.timer.alarms@
        &&& post.fired@ == pre.fired@
        &&& post.slots.allocated_map() == pre.slots.allocated_map()
        &&& post.slots.callback_map() == pre.slots.callback_map().update(h.id_spec(), Some(c))
    }

    /// Store the slot's callback, unconditionally replacing any previous
    /// one.  The slot must have been handed out by
    /// [`Self::allocate_alarm`]; anything else is a caller error.
    pub fn set_alarm_callback(&mut self, h: AlarmHandle, c: C)
        requires
            old(self).wf(),
            h.wf(),
            old(self).slots.allocated_map()[h.id_spec()],
        ensures
            final(self).wf(),
            Self::set_callback_rel(*old(self), *final(self), h, c),
    {
        self.slots.set_callback(h, c);
    }

    /// What arming a slot leaves behind.  The slot's interrupt line is
    /// enabled whether or not the deadline could be programmed; `r` says
    /// whether it could, exactly when `tick` is schedulable from the
    /// current counter.  On success the channel is armed for `tick`; on
    /// failure it keeps its previous armed state and target.  Nothing else
    /// changes.
    pub open spec fn set_alarm_rel(pre: Self, post: Self, h: AlarmHandle, tick: u64, r: bool) -> bool {
        let i = h.id_spec();
        let ch = pre.timer.alarms@[i];
        &&& r == schedulable(pre.timer.ticks, tick)
        &&& post.timer.ticks == pre.timer.ticks
        &&& post.fired@ == pre.fired@
        &&& post.slots.allocated_map() == pre.slots.allocated_map()
        &&& post.slots.callback_map() == pre.slots.callback_map()
        &&& post.timer.alarms@.len() == pre.timer.alarms@.len()
        &&& forall|j: int|
                0 <= j < pre.timer.alarms@.len() && j != i
                    ==> post.timer.alarms@[j] == pre.timer.alarms@[j]
        &&& r ==> post.timer.alarms@[i]
            == (SimAlarm { enabled: true, armed: true, target: tick, pending: ch.pending })
        &&& !r ==> post.timer.alarms@[i] == (SimAlarm { enabled: true, ..ch })
    }

    /// Arm the slot's channel to fire at the absolute tick `tick`:
    /// enable its interrupt line, then program the compare register.
    /// Returns whether the hardware accepted the deadline; on `false` the
    /// caller must treat the deadline as already elapsed.
    ///
    /// A callback must be in place before arming, since the interrupt may
    /// fire at any moment afterwards and dispatch assumes a callback.
    pub fn set_alarm(&mut self, h: AlarmHandle, tick: u64) -> (r: bool)
        requires
            old(self).wf(),
            h.wf(),
            old(self).slots.callback_map()[h.id_spec()] is Some,
        ensures
            final(self).wf(),
            Self::set_alarm_rel(*old(self), *final(self), h, tick, r),
    {
        let i = h.id() as usize;
        let now = self.timer.ticks;
        let ch = &mut self.timer.alarms[i];
        ch.enabled = true;
        let elapsed_in = if tick > now { tick - now } else { 0 };
        if elapsed_in <= u32::MAX as u64 {
            ch.armed = true;
            ch.target = tick;
            true
        } else {
            false
        }
    }

    /// What moving the counter to `t` leaves behind: every armed channel
    /// whose target has been reached trips, everything else is untouched.
    pub open spec fn advance_rel(pre: Self, post: Self, t: u64) -> bool {
        &&& post.timer.ticks == t
        &&& post.fired@ == pre.fired@
        &&& post.slots.allocated_map() == pre.slots.allocated_map()
        &&& post.slots.callback_map() == pre.slots.callback_map()
        &&& post.timer.alarms@.len() == pre.timer.alarms@.len()
        &&& forall|j: int|
                0 <= j < pre.timer.alarms@.len()
                    ==> post.timer.alarms@[j] == fire_due(pre.timer.alarms@[j], t)
    }

    /// Move the free-running counter forward to `t`.  The counter never
    /// runs backwards, so `t` must not lie before the current reading.
    pub fn advance_to(&mut self, t: u64)
        requires
            old(self).wf(),
            old(self).timer.ticks <= t,
        ensures
            final(self).wf(),
            Self::advance_rel(*old(self), *final(self), t),
    {
        self.timer.ticks = t;
        let mut i: usize = 0;
        while i < NUM_ALARMS
            invariant
                old(self).wf(),
                i <= NUM_ALARMS,
                self.timer.ticks == t,
                self.fired@ == old(self).fired@,
                self.slots == old(self).slots,
                self.timer.alarms@.len() == old(self).timer.alarms@.len(),
                forall|j: int| 0 <= j < i as int
                    ==> self.timer.alarms@[j] == fire_due(old(self).timer.alarms@[j], t),
                forall|j: int| i as int <= j < NUM_ALARMS as int
                    ==> self.timer.alarms@[j] == old(self).timer.alarms@[j],
            decreases NUM_ALARMS - i,
        {
            let ch = self.timer.alarms[i];
            if ch.armed && ch.target <= t {
                let chm = &mut self.timer.alarms[i];
                chm.armed = false;
                chm.pending = true;
            }
            i += 1;
        }
    }

    /// Whether the channel's interrupt condition is currently raised.
    pub fn is_pending(&self, i: usize) -> (r: bool)
        requires
            self.wf(),
            i < NUM_ALARMS,
        ensures
            r == self.timer.alarms@[i as int].pending,
    {
        self.timer.alarms[i].pending
    }

    /// What serving the interrupt of slot `i` leaves behind: the stored
    /// callback `c` is invoked — appended to the log — exactly once, the
    /// channel's interrupt condition is cleared, and nothing else changes.
    pub open spec fn fire_rel(pre: Self, post: Self, i: int, c: C) -> bool {
        &&& pre.slots.callback_map()[i] == Some(c)
        &&& post.timer.ticks == pre.timer.ticks
        &&& post.slots.allocated_map() == pre.slots.allocated_map()
        &&& post.slots.callback_map() == pre.slots.callback_map()
        &&& post.fired@ == pre.fired@.push(Invocation { slot: i as u8, callback: c })
        &&& post.timer.alarms@.len() == pre.timer.alarms@.len()
        &&& forall|j: int|
                0 <= j < pre.timer.alarms@.len() && j != i
                    ==> post.timer.alarms@[j] == pre.timer.alarms@[j]
        &&& post.timer.alarms@[i] == (SimAlarm { pending: false, ..pre.timer.alarms@[i] })
    }

    /// Serve the interrupt of slot `i`, as the interrupt controller would
    /// once the channel's raised line is unmasked: look up the stored
    /// callback, invoke it (record it in the log), and clear the interrupt
    /// condition.  Returns the callback that was invoked.
    pub fn fire(&mut self, i: usize) -> (c: C)
        requires
            old(self).wf(),
            i < NUM_ALARMS,
            old(self).timer.alarms@[i as int].pending,
            old(self).timer.alarms@[i as int].enabled,
        ensures
            final(self).wf(),
            Self::fire_rel(*old(self), *final(self), i as int, c),
    {
        let h = AlarmHandle::new(i as u8);
        let c = match self.slots.get_callback(h) {
            Some(c) => c,
            None => vstd::pervasive::unreached(),
        };
        self.fired.push(Invocation { slot: i as u8, callback: c });
        let ch = &mut self.timer.alarms[i];
        ch.pending = false;
        c
    }

    /// One driver operation, whichever it is: allocation, callback
    /// storage, arming, movement of the counter, or dispatch of a firing.
    pub open spec fn step(pre: Self, post: Self) -> bool {
        ||| exists|r: Option<AlarmHandle>| Self::alloc_rel(pre, post, r)
        ||| exists|h: AlarmHandle, c: C| Self::set_callback_rel(pre, post, h, c)
        ||| exists|h: AlarmHandle, tick: u64, r: bool| Self::set_alarm_rel(pre, post, h, tick, r)
        ||| exists|t: u64| pre.timer.ticks <= t && Self::advance_rel(pre, post, t)
        ||| exists|i: int, c: C| Self::fire_rel(pre, post, i, c)
    }
}

/// A slot's allocation mark is never cleared: no driver operation gives a
/// slot back, there being no deallocation path.  Together with
/// [`crate::slots::lemma_allocations_are_distinct`] this makes the handles
/// of any sequence of successful allocations pairwise distinct: each
/// allocation's slot stays marked through every later operation, so no
/// later allocation can pick it again.
pub proof fn lemma_allocation_monotonic<C: Copy>(pre: SimTimeDriver<C>, post: SimTimeDriver<C>)
    requires
        pre.wf(),
        SimTimeDriver::step(pre, post),
    ensures
        forall|i: int|
            0 <= i < NUM_ALARMS as int && pre.slots.allocated_map()[i]
                ==> post.slots.allocated_map()[i],
{
}

/// The tick count read by `now` never decreases: every driver operation
/// either leaves the counter unchanged or moves it forward, so across any
/// chain of operations, values read in call order are ordered as values.
pub proof fn lemma_now_monotonic<C: Copy>(pre: SimTimeDriver<C>, post: SimTimeDriver<C>)
    requires
        SimTimeDriver::step(pre, post),
    ensures
        post.timer.ticks >= pre.timer.ticks,
{
}

/// Arming a slot and letting the counter pass the deadline produces
/// exactly one invocation — of the callback stored at arming time, with
/// its context — and leaves the channel quiescent afterwards: the
/// interrupt condition is cleared and the channel is no longer armed, so
/// no further movement of the counter can raise it again.
pub proof fn lemma_exactly_one_firing<C: Copy>(
    d0: SimTimeDriver<C>,
    d1: SimTimeDriver<C>,
    d2: SimTimeDriver<C>,
    d3: SimTimeDriver<C>,
    h: AlarmHandle,
    tick: u64,
    t: u64,
    c: C,
)
    requires
        d0.wf(),
        h.wf(),
        SimTimeDriver::set_alarm_rel(d0, d1, h, tick, true),
        SimTimeDriver::advance_rel(d1, d2, t),
        tick <= t,
        SimTimeDriver::fire_rel(d2, d3, h.id_spec(), c),
    ensures
        d0.slots.callback_map()[h.id_spec()] == Some(c),
        d3.fired@ == d0.fired@.push(Invocation { slot: h.id_spec() as u8, callback: c }),
        !d3.timer.alarms@[h.id_spec()].pending,
        !d3.timer.alarms@[h.id_spec()].armed,
        forall|t2: u64| fire_due(d3.timer.alarms@[h.id_spec()], t2)
            == d3.timer.alarms@[h.id_spec()],
{
}

/// Re-arming a slot after its callback fired succeeds — the channel is
/// back in the armable state, the slot identity and channel mapping are
/// unchanged — and a later pass of the counter over the new deadline
/// produces exactly one new invocation, of the same stored callback.
pub proof fn lemma_rearm_single_new_firing<C: Copy>(
    d0: SimTimeDriver<C>,
    d1: SimTimeDriver<C>,
    d2: SimTimeDriver<C>,
    d3: SimTimeDriver<C>,
    d4: SimTimeDriver<C>,
    h: AlarmHandle,
    c: C,
    tick2: u64,
    t2: u64,
    c2: C,
)
    requires
        h.wf(),
        // a firing of slot `h` has just been served
        SimTimeDriver::fire_rel(d0, d1, h.id_spec(), c),
        // the slot is re-armed for a new deadline within the schedulable window
        SimTimeDriver::set_alarm_rel(d1, d2, h, tick2, true),
        SimTimeDriver::advance_rel(d2, d3, t2),
        tick2 <= t2,
        SimTimeDriver::fire_rel(d3, d4, h.id_spec(), c2),
    ensures
        // the same stored callback fires again
        c2 == c,
        // and exactly one new invocation is recorded
        d4.fired@ == d1.fired@.push(Invocation { slot: h.id_spec() as u8, callback: c }),
{
}

/// Re-arming is owed success whenever the new deadline lies within the
/// hardware's schedulable window from the current counter.
pub proof fn lemma_rearm_succeeds<C: Copy>(
    pre: SimTimeDriver<C>,
    post: SimTimeDriver<C>,
    h: AlarmHandle,
    tick: u64,
    r: bool,
)
    requires
        h.wf(),
        SimTimeDriver::set_alarm_rel(pre, post, h, tick, r),
        tick as int <= pre.timer.ticks as int + u32::MAX as int,
    ensures
        r,
        post.timer.alarms@[h.id_spec()].armed,
        post.timer.alarms@[h.id_spec()].target == tick,
{
}

/// Of two callbacks set for the same slot before it fires, only the second
/// remains stored, so only the second can ever be invoked: dispatch always
/// invokes the currently stored callback.
pub proof fn lemma_second_callback_wins<C: Copy>(
    d0: SimTimeDriver<C>,
    d1: SimTimeDriver<C>,
    d2: SimTimeDriver<C>,
    h: AlarmHandle,
    c1: C,
    c2: C,
)
    requires
        d0.wf(),
        h.wf(),
        SimTimeDriver::set_callback_rel(d0, d1, h, c1),
        SimTimeDriver::set_callback_rel(d1, d2, h, c2),
    ensures
        d2.slots.callback_map()[h.id_spec()] == Some(c2),
{
}

} // verus!
