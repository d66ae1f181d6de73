//! Unit tests for the slot bookkeeping: handles, the allocation bitmap and
//! the callback table.

use rp2040_time_driver::slots::{AlarmHandle, AlarmSlots, NUM_ALARMS};

#[test]
fn handle_round_trip() {
    for id in 0..NUM_ALARMS as u8 {
        let h = AlarmHandle::new(id);
        assert_eq!(h.id(), id);
    }
}

#[test]
fn handles_compare_by_slot() {
    assert_eq!(AlarmHandle::new(2), AlarmHandle::new(2));
    assert_ne!(AlarmHandle::new(1), AlarmHandle::new(3));
}

#[test]
fn fresh_pool_is_empty() {
    let s: AlarmSlots<u32> = AlarmSlots::new();
    for id in 0..NUM_ALARMS as u8 {
        let h = AlarmHandle::new(id);
        assert!(!s.is_allocated(h));
        assert!(s.get_callback(h).is_none());
    }
}

#[test]
fn allocation_scans_in_index_order() {
    let mut s: AlarmSlots<u32> = AlarmSlots::new();
    for expect in 0..NUM_ALARMS as u8 {
        let h = s.allocate().expect("slot available");
        assert_eq!(h.id(), expect);
        assert!(s.is_allocated(h));
    }
    assert!(s.allocate().is_none());
}

#[test]
fn callback_is_stored_per_slot_and_replaced() {
    let mut s: AlarmSlots<u32> = AlarmSlots::new();
    let h0 = s.allocate().unwrap();
    let h1 = s.allocate().unwrap();

    s.set_callback(h0, 10);
    assert_eq!(s.get_callback(h0), Some(10));
    assert_eq!(s.get_callback(h1), None);

    s.set_callback(h1, 20);
    s.set_callback(h0, 30);
    assert_eq!(s.get_callback(h0), Some(30));
    assert_eq!(s.get_callback(h1), Some(20));
}
