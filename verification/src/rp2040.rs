//! The driver protocol running on the real RP2040 timer peripheral.
//!
//! The peripheral is reached through `rp2040_hal`: the free-running counter
//! through `Timer`, and the four compare units through `Alarm0` .. `Alarm3`.
//! Those four are distinct concrete types with identical operations, so
//! [`Rp2040Alarm`] wraps them in a tagged variant and dispatches with a
//! single match, keeping the rest of the driver free of per-unit code.
//!
//! Everything the hardware decides — the counter value, whether a deadline
//! can still be programmed — comes through small trusted wrappers around
//! `rp2040_hal`; the bookkeeping around them (slot allocation, the callback
//! table, the fixed 1:1 slot-to-unit mapping) is verified.  The caller is
//! expected to hold a critical section around every operation, since
//! callbacks fire from interrupt context; the driver itself never blocks.

use vstd::prelude::*;

use rp2040_hal::timer::{Alarm, Alarm0, Alarm1, Alarm2, Alarm3, Instant, ScheduleAlarmError, Timer};

use crate::slots::{AlarmHandle, AlarmSlots, NUM_ALARMS};

verus! {

#[verifier::external_type_specification]
#[verifier::external_body]
pub struct ExTimer(Timer);

#[verifier::external_type_specification]
#[verifier::external_body]
pub struct ExAlarm0(Alarm0);

#[verifier::external_type_specification]
#[verifier::external_body]
pub struct ExAlarm1(Alarm1);

#[verifier::external_type_specification]
#[verifier::external_body]
pub struct ExAlarm2(Alarm2);

#[verifier::external_type_specification]
#[verifier::external_body]
pub struct ExAlarm3(Alarm3);

#[verifier::external_type_specification]
#[verifier::external_body]
pub struct ExScheduleAlarmError(ScheduleAlarmError);

/// Relies on `rp2040_hal::timer::Timer::get_counter`: reads the peripheral's
/// free-running 64-bit microsecond counter.  The value depends on the
/// hardware alone, so nothing is promised of it.
#[verifier::external_body]
fn counter_ticks(t: &Timer) -> u64 {
    t.get_counter().ticks()
}

/// Relies on `rp2040_hal::timer::Timer::alarm_0`: yields compare unit 0 the
/// first time it is called in the process, `None` afterwards.
#[verifier::external_body]
fn take_alarm_0(t: &mut Timer) -> Option<Alarm0> {
    t.alarm_0()
}

/// Relies on `rp2040_hal::timer::Timer::alarm_1`: yields compare unit 1 the
/// first time it is called in the process, `None` afterwards.
#[verifier::external_body]
fn take_alarm_1(t: &mut Timer) -> Option<Alarm1> {
    t.alarm_1()
}

/// Relies on `rp2040_hal::timer::Timer::alarm_2`: yields compare unit 2 the
/// first time it is called in the process, `None` afterwards.
#[verifier::external_body]
fn take_alarm_2(t: &mut Timer) -> Option<Alarm2> {
    t.alarm_2()
}

/// Relies on `rp2040_hal::timer::Timer::alarm_3`: yields compare unit 3 the
/// first time it is called in the process, `None` afterwards.
#[verifier::external_body]
fn take_alarm_3(t: &mut Timer) -> Option<Alarm3> {
    t.alarm_3()
}

/// Relies on `<Alarm0 as Alarm>::clear_interrupt`: acknowledges the unit's
/// interrupt condition so the next match can raise it again.
#[verifier::external_body]
fn clear_interrupt_0(a: &mut Alarm0) {
    a.clear_interrupt()
}

/// Relies on `<Alarm1 as Alarm>::clear_interrupt`.
#[verifier::external_body]
fn clear_interrupt_1(a: &mut Alarm1) {
    a.clear_interrupt()
}

/// Relies on `<Alarm2 as Alarm>::clear_interrupt`.
#[verifier::external_body]
fn clear_interrupt_2(a: &mut Alarm2) {
    a.clear_interrupt()
}

/// Relies on `<Alarm3 as Alarm>::clear_interrupt`.
#[verifier::external_body]
fn clear_interrupt_3(a: &mut Alarm3) {
    a.clear_interrupt()
}

/// Relies on `<Alarm0 as Alarm>::enable_interrupt`: unmasks the unit's
/// interrupt line at the peripheral.  Idempotent.
#[verifier::external_body]
fn enable_interrupt_0(a: &mut Alarm0) {
    a.enable_interrupt()
}

/// Relies on `<Alarm1 as Alarm>::enable_interrupt`.
#[verifier::external_body]
fn enable_interrupt_1(a: &mut Alarm1) {
    a.enable_interrupt()
}

/// Relies on `<Alarm2 as Alarm>::enable_interrupt`.
#[verifier::external_body]
fn enable_interrupt_2(a: &mut Alarm2) {
    a.enable_interrupt()
}

/// Relies on `<Alarm3 as Alarm>::enable_interrupt`.
#[verifier::external_body]
fn enable_interrupt_3(a: &mut Alarm3) {
    a.enable_interrupt()
}

/// Relies on `<Alarm0 as Alarm>::schedule_at`: programs the compare unit
/// for the absolute tick, or reports the hardware's refusal.  Whether the
/// deadline is accepted depends on a fresh counter read inside the call, so
/// nothing is promised of the outcome.
#[verifier::external_body]
fn schedule_at_0(a: &mut Alarm0, tick: u64) -> Result<(), ScheduleAlarmError> {
    a.schedule_at(Instant::from_ticks(tick))
}

/// Relies on `<Alarm1 as Alarm>::schedule_at`.
#[verifier::external_body]
fn schedule_at_1(a: &mut Alarm1, tick: u64) -> Result<(), ScheduleAlarmError> {
    a.schedule_at(Instant::from_ticks(tick))
}

/// Relies on `<Alarm2 as Alarm>::schedule_at`.
#[verifier::external_body]
fn schedule_at_2(a: &mut Alarm2, tick: u64) -> Result<(), ScheduleAlarmError> {
    a.schedule_at(Instant::from_ticks(tick))
}

/// Relies on `<Alarm3 as Alarm>::schedule_at`.
#[verifier::external_body]
fn schedule_at_3(a: &mut Alarm3, tick: u64) -> Result<(), ScheduleAlarmError> {
    a.schedule_at(Instant::from_ticks(tick))
}

/// One physical compare unit, tagged by which unit it is.  The four unit
/// types expose identical operations; the tag lets the driver hold them in
/// one array, indexed by slot, and dispatch without per-unit code.
pub enum Rp2040Alarm {
    A0(Alarm0),
    A1(Alarm1),
    A2(Alarm2),
    A3(Alarm3),
}

impl Rp2040Alarm {
    /// Which physical unit this is; the driver keeps it equal to the slot
    /// index the unit serves.
    pub open spec fn index(self) -> int {
        match self {
            Rp2040Alarm::A0(_) => 0,
            Rp2040Alarm::A1(_) => 1,
            Rp2040Alarm::A2(_) => 2,
            Rp2040Alarm::A3(_) => 3,
        }
    }

    /// Acknowledge the unit's interrupt condition.
    pub fn clear_interrupt(&mut self)
        ensures
            final(self).index() == old(self).index(),
    {
        match self {
            Rp2040Alarm::A0(a) => clear_interrupt_0(a),
            Rp2040Alarm::A1(a) => clear_interrupt_1(a),
            Rp2040Alarm::A2(a) => clear_interrupt_2(a),
            Rp2040Alarm::A3(a) => clear_interrupt_3(a),
        }
    }

    /// Unmask the unit's interrupt line.  Idempotent.
    pub fn enable_interrupt(&mut self)
        ensures
            final(self).index() == old(self).index(),
    {
        match self {
            Rp2040Alarm::A0(a) => enable_interrupt_0(a),
            Rp2040Alarm::A1(a) => enable_interrupt_1(a),
            Rp2040Alarm::A2(a) => enable_interrupt_2(a),
            Rp2040Alarm::A3(a) => enable_interrupt_3(a),
        }
    }

    /// Program the compare unit for the absolute tick `tick`, or report
    /// the hardware's refusal to the caller unchanged.
    pub fn schedule_at(&mut self, tick: u64) -> (r: Result<(), ScheduleAlarmError>)
        ensures
            final(self).index() == old(self).index(),
    {
        match self {
            Rp2040Alarm::A0(a) => schedule_at_0(a, tick),
            Rp2040Alarm::A1(a) => schedule_at_1(a, tick),
            Rp2040Alarm::A2(a) => schedule_at_2(a, tick),
            Rp2040Alarm::A3(a) => schedule_at_3(a, tick),
        }
    }
}

/// The driver on the real peripheral: the timer handle, the four compare
/// units in slot order, and the slot bookkeeping.
///
/// `C` is the callback payload a slot carries — the driver stores it and
/// hands it back to the interrupt dispatch path without inspecting it.
///
/// The caller must wrap every operation, and the whole dispatch sequence,
/// in a critical section: dispatch runs from interrupt context and shares
/// this state with ordinary control flow.
pub struct Rp2040TimeDriver<C> {
    timer: Timer,
    alarms: Vec<Rp2040Alarm>,
    slots: AlarmSlots<C>,
}

impl<C: Copy> Rp2040TimeDriver<C> {
    /// The slot bookkeeping.
    pub closed spec fn slots_spec(self) -> AlarmSlots<C> {
        self.slots
    }

    /// The compare units, in slot order.
    pub closed spec fn alarms_spec(self) -> Seq<Rp2040Alarm> {
        self.alarms@
    }

    /// One compare unit per slot, each holding the physical unit of its
    /// own index — the 1:1 mapping is fixed at initialization and never
    /// changes — and well-formed slot tables.
    pub open spec fn wf(self) -> bool {
        &&& self.alarms_spec().len() == NUM_ALARMS as int
        &&& forall|i: int| 0 <= i < NUM_ALARMS as int ==> self.alarms_spec()[i].index() == i
        &&& self.slots_spec().wf()
    }

    /// Take ownership of the timer, split it into its four compare units,
    /// and start with every slot free and no callback stored.
    ///
    /// Returns `None` when some compare unit was already claimed elsewhere
    /// in the process; the platform's startup code must treat that as a
    /// fatal double-initialization.  Must be called before interrupts for
    /// the four alarm lines are unmasked.
    pub fn init(timer: Timer) -> (r: Option<Self>)
        ensures
            r matches Some(d) ==> {
                &&& d.wf()
                &&& forall|i: int| 0 <= i < NUM_ALARMS as int
                        ==> !d.slots_spec().allocated_map()[i]
                &&& forall|i: int| 0 <= i < NUM_ALARMS as int
                        ==> d.slots_spec().callback_map()[i] is None
            },
    {
        let mut timer = timer;
        let a0 = match take_alarm_0(&mut timer) {
            Some(a) => a,
            None => {
                return None;
            },
        };
        let a1 = match take_alarm_1(&mut timer) {
            Some(a) => a,
            None => {
                return None;
            },
        };
        let a2 = match take_alarm_2(&mut timer) {
            Some(a) => a,
            None => {
                return None;
            },
        };
        let a3 = match take_alarm_3(&mut timer) {
            Some(a) => a,
            None => {
                return None;
            },
        };
        let mut alarms: Vec<Rp2040Alarm> = Vec::new();
        alarms.push(Rp2040Alarm::A0(a0));
        alarms.push(Rp2040Alarm::A1(a1));
        alarms.push(Rp2040Alarm::A2(a2));
        alarms.push(Rp2040Alarm::A3(a3));
        Some(Rp2040TimeDriver { timer, alarms, slots: AlarmSlots::new() })
    }

    /// Read the current tick from the free-running counter.  The counter
    /// is 64 bits wide at one tick per microsecond, so it never wraps in
    /// practice; the hardware only counts upward.
    pub fn now(&self) -> u64 {
        counter_ticks(&self.timer)
    }

    /// Hand out the first free slot, or report capacity exhaustion.
    pub fn allocate_alarm(&mut self) -> (r: Option<AlarmHandle>)
        requires
            old(self).wf(),
        ensures
            final(self).wf(),
            final(self).alarms_spec() == old(self).alarms_spec(),
            final(self).slots_spec().callback_map() == old(self).slots_spec().callback_map(),
            old(self).slots_spec().first_free() < NUM_ALARMS as int ==> {
                &&& r matches Some(h) && h.id_spec() == old(self).slots_spec().first_free()
                &&& final(self).slots_spec().allocated_map()
                    == old(self).slots_spec().allocated_map().update(
                        old(self).slots_spec().first_free(), true)
            },
            old(self).slots_spec().first_free() == NUM_ALARMS as int ==> {
                &&& r is None
                &&& final(self).slots_spec().allocated_map()
                    == old(self).slots_spec().allocated_map()
            },
    {
        self.slots.allocate()
    }

    /// Store the slot's callback, unconditionally replacing any previous
    /// one.  The slot must have been handed out by
    /// [`Self::allocate_alarm`]; anything else is a caller error.
    pub fn set_alarm_callback(&mut self, h: AlarmHandle, c: C)
        requires
            old(self).wf(),
            h.wf(),
            old(self).slots_spec().allocated_map()[h.id_spec()],
        ensures
            final(self).wf(),
            final(self).alarms_spec() == old(self).alarms_spec(),
            final(self).slots_spec().allocated_map() == old(self).slots_spec().allocated_map(),
            final(self).slots_spec().callback_map()
                == old(self).slots_spec().callback_map().update(h.id_spec(), Some(c)),
    {
        self.slots.set_callback(h, c);
    }

    /// Arm the slot's compare unit to fire at the absolute tick `tick`:
    /// unmask its interrupt line, then program the compare register.
    /// Returns whether the hardware accepted the deadline — it refuses one
    /// lying more than `u32::MAX` ticks past its current counter — and on
    /// `false` the caller must treat the deadline as already elapsed; the
    /// driver does not retry.
    ///
    /// A callback must be in place before arming, since the interrupt may
    /// fire at any moment afterwards and dispatch assumes a callback.
    pub fn set_alarm(&mut self, h: AlarmHandle, tick: u64) -> (r: bool)
        requires
            old(self).wf(),
            h.wf(),
            old(self).slots_spec().callback_map()[h.id_spec()] is Some,
        ensures
            final(self).wf(),
            final(self).slots_spec() == old(self).slots_spec(),
            forall|i: int| 0 <= i < NUM_ALARMS as int
                ==> final(self).alarms_spec()[i].index() == old(self).alarms_spec()[i].index(),
    {
        let i = h.id() as usize;
        let a = &mut self.alarms[i];
        a.enable_interrupt();
        match a.schedule_at(tick) {
            Ok(_) => true,
            Err(_) => false,
        }
    }

    /// Whether the slot is currently marked allocated.
    pub fn is_allocated(&self, h: AlarmHandle) -> (r: bool)
        requires
            self.wf(),
            h.wf(),
        ensures
            r == self.slots_spec().allocated_map()[h.id_spec()],
    {
        self.slots.is_allocated(h)
    }

    /// Whether a callback is stored for slot `i`.  The dispatch path
    /// treats a missing callback as a fatal platform error, so the caller
    /// checks this first and halts if it fails.
    pub fn has_callback(&self, i: usize) -> (r: bool)
        requires
            self.wf(),
            i < NUM_ALARMS,
        ensures
            r == (self.slots_spec().callback_map()[i as int] is Some),
    {
        let h = AlarmHandle::new(i as u8);
        match self.slots.get_callback(h) {
            Some(_) => true,
            None => false,
        }
    }

    /// First step of the dispatch path for the slot's interrupt line: look
    /// up the stored callback, which the caller then invokes with its
    /// stored context.
    pub fn interrupt_callback(&self, i: usize) -> (c: C)
        requires
            self.wf(),
            i < NUM_ALARMS,
            self.slots_spec().callback_map()[i as int] is Some,
        ensures
            Some(c) == self.slots_spec().callback_map()[i as int],
    {
        let h = AlarmHandle::new(i as u8);
        match self.slots.get_callback(h) {
            Some(c) => c,
            None => vstd::pervasive::unreached(),
        }
    }

    /// Final step of the dispatch path: acknowledge the interrupt
    /// condition of slot `i`'s compare unit, so the unit can raise its
    /// line again once re-armed.
    pub fn clear_interrupt(&mut self, i: usize)
        requires
            old(self).wf(),
            i < NUM_ALARMS,
        ensures
            final(self).wf(),
            final(self).slots_spec() == old(self).slots_spec(),
            forall|j: int| 0 <= j < NUM_ALARMS as int
                ==> final(self).alarms_spec()[j].index() == old(self).alarms_spec()[j].index(),
    {
        let a = &mut self.alarms[i];
        a.clear_interrupt();
    }
}

} // verus!
