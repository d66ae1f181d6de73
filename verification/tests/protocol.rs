//! Driver protocol scenarios, run against the modelled timer block.
//!
//! Callbacks are opaque to the driver, so each test picks its own payload
//! type and applies the recorded invocations itself, the way the scheduler
//! would run the function pointers the real driver hands back.

use rp2040_time_driver::sim::SimTimeDriver;
use rp2040_time_driver::slots::NUM_ALARMS;

#[test]
fn allocate_handles_distinct_and_in_range() {
    let mut d: SimTimeDriver<u64> = SimTimeDriver::new();
    let mut ids = Vec::new();
    for _ in 0..NUM_ALARMS {
        let h = d.allocate_alarm().expect("a free slot must be handed out");
        ids.push(h.id());
    }
    for &id in &ids {
        assert!((id as usize) < NUM_ALARMS);
    }
    for i in 0..ids.len() {
        for j in 0..i {
            assert_ne!(ids[i], ids[j]);
        }
    }
    assert_eq!(ids, vec![0, 1, 2, 3]);
}

#[test]
fn fifth_allocation_is_empty() {
    let mut d: SimTimeDriver<u64> = SimTimeDriver::new();
    let h0 = d.allocate_alarm().unwrap();
    d.set_alarm_callback(h0, 11);
    let h1 = d.allocate_alarm().unwrap();
    let h2 = d.allocate_alarm().unwrap();
    d.set_alarm_callback(h2, 22);
    let h3 = d.allocate_alarm().unwrap();
    let _ = (h1, h3);
    assert!(d.allocate_alarm().is_none());
    // no deallocation path exists: it stays empty
    assert!(d.allocate_alarm().is_none());
}

#[test]
fn now_is_monotonic_across_calls() {
    let mut d: SimTimeDriver<u64> = SimTimeDriver::new();
    let mut last = d.now();
    let h = d.allocate_alarm().unwrap();
    assert!(d.now() >= last);
    last = d.now();
    d.set_alarm_callback(h, 1);
    assert!(d.now() >= last);
    last = d.now();
    d.advance_to(250);
    assert!(d.now() >= last);
    last = d.now();
    assert!(d.set_alarm(h, 300));
    assert!(d.now() >= last);
    last = d.now();
    d.advance_to(1000);
    assert!(d.now() >= last);
    last = d.now();
    d.fire(h.id() as usize);
    assert!(d.now() >= last);
}

#[test]
fn armed_slot_fires_exactly_once_with_stored_context() {
    // callback payload: (function token, context token)
    let mut d: SimTimeDriver<(u64, u64)> = SimTimeDriver::new();
    let h = d.allocate_alarm().unwrap();
    let slot = h.id() as usize;
    d.set_alarm_callback(h, (7, 42));
    assert!(d.set_alarm(h, 500));

    d.advance_to(499);
    assert!(!d.is_pending(slot));
    d.advance_to(501);
    assert!(d.is_pending(slot));

    let invoked = d.fire(slot);
    assert_eq!(invoked, (7, 42));
    assert_eq!(d.fired.len(), 1);
    assert_eq!(d.fired[0].slot, h.id());
    assert_eq!(d.fired[0].callback, (7, 42));

    // interrupt condition cleared, and the channel stays quiescent
    assert!(!d.is_pending(slot));
    d.advance_to(10_000);
    assert!(!d.is_pending(slot));
    assert_eq!(d.fired.len(), 1);
}

#[test]
fn rearm_after_firing_fires_once_at_new_deadline() {
    let mut d: SimTimeDriver<(u64, u64)> = SimTimeDriver::new();
    let h = d.allocate_alarm().unwrap();
    let slot = h.id() as usize;
    d.set_alarm_callback(h, (9, 1));
    assert!(d.set_alarm(h, 100));
    d.advance_to(100);
    assert!(d.is_pending(slot));
    assert_eq!(d.fire(slot), (9, 1));

    // the slot keeps its identity, channel and callback: re-arming succeeds
    assert!(d.set_alarm(h, 900));
    assert!(!d.is_pending(slot));
    d.advance_to(899);
    assert!(!d.is_pending(slot));
    d.advance_to(900);
    assert!(d.is_pending(slot));
    assert_eq!(d.fire(slot), (9, 1));
    assert_eq!(d.fired.len(), 2);
    assert!(!d.is_pending(slot));
}

#[test]
fn second_callback_replaces_the_first() {
    let mut d: SimTimeDriver<(u64, u64)> = SimTimeDriver::new();
    let h = d.allocate_alarm().unwrap();
    let slot = h.id() as usize;
    d.set_alarm_callback(h, (1, 10));
    d.set_alarm_callback(h, (2, 20));
    assert!(d.set_alarm(h, 50));
    d.advance_to(60);
    let invoked = d.fire(slot);
    assert_eq!(invoked, (2, 20));
    // the first callback was never invoked
    for inv in &d.fired {
        assert_ne!(inv.callback, (1, 10));
    }
    assert_eq!(d.fired.len(), 1);
}

#[test]
fn counter_callbacks_scenario() {
    // callback payload: which counter to touch, and by how much
    let mut counters: [i64; 2] = [0, 0];
    let mut d: SimTimeDriver<(usize, i64)> = SimTimeDriver::new();

    let h = d.allocate_alarm().unwrap();
    assert_eq!(h.id(), 0);
    let slot = h.id() as usize;

    d.set_alarm_callback(h, (0, 1));
    let deadline = d.now() + 100;
    assert!(d.set_alarm(h, deadline));
    d.advance_to(deadline);
    assert!(d.is_pending(slot));
    let (which, delta) = d.fire(slot);
    counters[which] += delta;
    assert_eq!(counters, [1, 0]);
    assert!(!d.is_pending(slot));

    d.set_alarm_callback(h, (1, -1));
    let deadline2 = d.now() + 50;
    assert!(d.set_alarm(h, deadline2));
    d.advance_to(deadline2);
    let (which2, delta2) = d.fire(slot);
    counters[which2] += delta2;
    assert_eq!(counters, [1, -1]);
}

#[test]
fn independent_slots_fire_independently() {
    let mut d: SimTimeDriver<(u64, u64)> = SimTimeDriver::new();
    let ha = d.allocate_alarm().unwrap();
    let hb = d.allocate_alarm().unwrap();
    assert_ne!(ha.id(), hb.id());
    d.set_alarm_callback(ha, (1, 100));
    d.set_alarm_callback(hb, (2, 200));
    assert!(d.set_alarm(ha, 300));
    assert!(d.set_alarm(hb, 150));

    // only the earlier deadline has passed
    d.advance_to(200);
    assert!(!d.is_pending(ha.id() as usize));
    assert!(d.is_pending(hb.id() as usize));
    assert_eq!(d.fire(hb.id() as usize), (2, 200));

    d.advance_to(300);
    assert!(d.is_pending(ha.id() as usize));
    assert_eq!(d.fire(ha.id() as usize), (1, 100));

    assert_eq!(d.fired.len(), 2);
    assert_eq!(d.fired[0].slot, hb.id());
    assert_eq!(d.fired[1].slot, ha.id());
}

#[test]
fn deadline_too_far_ahead_is_refused() {
    let mut d: SimTimeDriver<u64> = SimTimeDriver::new();
    let h = d.allocate_alarm().unwrap();
    let slot = h.id() as usize;
    d.set_alarm_callback(h, 5);
    d.advance_to(1_000);

    // just past the schedulable window: refused, nothing armed
    let too_late = 1_000 + (u32::MAX as u64) + 1;
    assert!(!d.set_alarm(h, too_late));
    d.advance_to(too_late + 10);
    assert!(!d.is_pending(slot));
    assert_eq!(d.fired.len(), 0);

    // the slot stayed armable: a schedulable deadline is accepted
    let now = d.now();
    assert!(d.set_alarm(h, now + (u32::MAX as u64)));
}

#[test]
fn past_deadline_is_accepted_and_fires_at_once() {
    let mut d: SimTimeDriver<u64> = SimTimeDriver::new();
    let h = d.allocate_alarm().unwrap();
    let slot = h.id() as usize;
    d.set_alarm_callback(h, 3);
    d.advance_to(500);

    // a deadline already in the past is accepted...
    assert!(d.set_alarm(h, 400));
    // ...and trips as soon as the counter is looked at again
    d.advance_to(500);
    assert!(d.is_pending(slot));
    assert_eq!(d.fire(slot), 3);
}
