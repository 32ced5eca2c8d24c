// Capability table behaviour: allocation order, exhaustion, release,
// reuse, and the implicit allocation performed by an indexed write.

use mork_capability::cap::{CapType, FrameCap, NotificationCap};
use mork_capability::cnode::CapNode;
use mork_capability::free_callback::{register_handler, HandlerCall, RecordingHandler};

#[test]
fn fresh_table_state() {
    let t = CapNode::<8>::new();
    assert!(t.is_used(0));
    for i in 1..8 {
        assert!(!t.is_used(i));
    }
    assert!(t.empty());
    assert_eq!(t.get_slot(0).get_type(), CapType::UnInit);
    assert_eq!(t.get_slot(7).get_type(), CapType::UnInit);
}

#[test]
fn allocation_fills_capacity_minus_one_then_fails() {
    // capacity 8 counting the reserved slot 0: exactly 7 allocations
    // succeed, in index order, and none of them returns slot 0
    let mut t = CapNode::<8>::new();
    for expected in 1..8 {
        let got = t.alloc_free();
        assert_eq!(got, Some(expected));
    }
    assert_eq!(t.alloc_free(), None);
    assert_eq!(t.alloc_free(), None);
}

#[test]
fn release_then_reuse() {
    let mut t = CapNode::<4>::new();
    let mut mgr = register_handler(RecordingHandler::new());
    assert_eq!(t.alloc_free(), Some(1));
    assert_eq!(t.alloc_free(), Some(2));

    t.free_slot(1, &mut mgr);
    assert!(!t.is_used(1));
    assert_eq!(t.alloc_free(), Some(1));
}

#[test]
fn write_slot_marks_unused_index_used() {
    let mut t = CapNode::<8>::new();
    assert!(!t.is_used(5));

    let cap = FrameCap::new(0x1000, 1).into_cap();
    t.write_slot(5, cap);
    assert!(t.is_used(5));
    assert_eq!(t.get_slot(5), cap);
    assert!(!t.empty());
}

#[test]
fn capacity_eight_scenario() {
    // allocate three slots, write a derived Frame capability into slot 2,
    // release slot 2 without any teardown call, then get slot 2 back
    let mut t = CapNode::<8>::new();
    let mut mgr = register_handler(RecordingHandler::new());

    assert_eq!(t.alloc_free(), Some(1));
    assert_eq!(t.alloc_free(), Some(2));
    assert_eq!(t.alloc_free(), Some(3));

    let derived = FrameCap::new(0x8000, 2).into_cap().derive();
    t.write_slot(2, derived);

    t.free_slot(2, &mut mgr);
    assert_eq!(mgr.handler.num_calls(), 0);
    assert!(!t.is_used(2));

    assert_eq!(t.alloc_free(), Some(2));
}

#[test]
fn releasing_a_stored_capability_dispatches_teardown() {
    let mut t = CapNode::<4>::new();
    let mut mgr = register_handler(RecordingHandler::new());

    let slot = t.alloc_free().unwrap();
    let mut v = NotificationCap::new(0x2000);
    v.set_badge(3);
    t.write_slot(slot, v.into_cap());

    t.free_slot(slot, &mut mgr);
    assert_eq!(mgr.handler.num_calls(), 1);
    assert_eq!(mgr.handler.call_at(0), HandlerCall::Notification(v));
    assert!(!t.is_used(slot));
}

#[test]
fn releasing_an_uninitialized_slot_makes_no_call() {
    let mut t = CapNode::<4>::new();
    let mut mgr = register_handler(RecordingHandler::new());
    assert_eq!(t.alloc_free(), Some(1));

    // the slot was allocated but never written: it holds the default word
    t.free_slot(1, &mut mgr);
    assert_eq!(mgr.handler.num_calls(), 0);
}

#[test]
fn empty_tracks_occupancy_outside_slot_zero() {
    let mut t = CapNode::<4>::new();
    let mut mgr = register_handler(RecordingHandler::new());
    assert!(t.empty());

    assert_eq!(t.alloc_free(), Some(1));
    assert!(!t.empty());

    t.free_slot(1, &mut mgr);
    assert!(t.empty());
}

#[test]
fn capacity_one_table_is_immediately_exhausted() {
    // the reserved slot 0 is the whole table: nothing is allocatable
    let mut t = CapNode::<1>::new();
    assert!(t.is_used(0));
    assert!(t.empty());
    assert_eq!(t.alloc_free(), None);
}
