// Round-trip and derivation behaviour of the capability word codec.

use mork_capability::cap::{CNodeCap, Cap, CapType, FrameCap, NotificationCap, PageTableCap, ThreadCap};

const MAX_FIELD52: u128 = 0xf_ffff_ffff_ffff;

#[test]
fn cnode_round_trip_boundaries() {
    let c = CNodeCap::new(0);
    assert_eq!(c.type_tag(), 1);
    assert_eq!(c.base_ptr(), 0);

    let c = CNodeCap::new(usize::MAX);
    assert_eq!(c.type_tag(), 1);
    assert_eq!(c.base_ptr(), (usize::MAX as u128) >> 12);
}

#[test]
fn thread_round_trip_boundaries() {
    let c = ThreadCap::new(0);
    assert_eq!(c.type_tag(), 2);
    assert_eq!(c.base_ptr(), 0);

    let c = ThreadCap::new(usize::MAX);
    assert_eq!(c.type_tag(), 2);
    assert_eq!(c.base_ptr(), (usize::MAX as u128) >> 12);
}

#[test]
fn page_table_round_trip_all_fields() {
    let mut c = PageTableCap::new(0x7000);
    assert_eq!(c.type_tag(), 3);
    assert_eq!(c.base_ptr(), 0x7);
    assert_eq!(c.mapped_addr(), 0);
    assert_eq!(c.mapped_level(), 0);
    assert_eq!(c.is_mapped(), 0);

    c.set_mapped_addr(MAX_FIELD52);
    assert_eq!(c.mapped_addr(), MAX_FIELD52);
    c.set_mapped_addr(0);
    assert_eq!(c.mapped_addr(), 0);
    c.set_mapped_addr(0x2000);
    assert_eq!(c.mapped_addr(), 0x2000);

    c.set_level(255);
    assert_eq!(c.mapped_level(), 255);
    c.set_level(0);
    assert_eq!(c.mapped_level(), 0);
    c.set_level(4);
    assert_eq!(c.mapped_level(), 4);

    c.set_mapped(1);
    assert_eq!(c.is_mapped(), 1);
    c.set_mapped(0);
    assert_eq!(c.is_mapped(), 0);
    c.set_mapped(1);

    // every setter left the other fields in place
    assert_eq!(c.type_tag(), 3);
    assert_eq!(c.base_ptr(), 0x7);
    assert_eq!(c.mapped_addr(), 0x2000);
    assert_eq!(c.mapped_level(), 4);
    assert_eq!(c.is_mapped(), 1);
}

#[test]
fn frame_round_trip_boundaries() {
    let c = FrameCap::new(0, 0);
    assert_eq!(c.type_tag(), 4);
    assert_eq!(c.base_ptr(), 0);
    assert_eq!(c.level(), 0);
    assert_eq!(c.mapped_addr(), 0);
    assert_eq!(c.is_mapped(), 0);

    let mut c = FrameCap::new(usize::MAX, 255);
    assert_eq!(c.base_ptr(), (usize::MAX as u128) >> 12);
    assert_eq!(c.level(), 255);
    c.set_mapped_addr(MAX_FIELD52);
    assert_eq!(c.mapped_addr(), MAX_FIELD52);
    c.set_mapped(1);
    assert_eq!(c.is_mapped(), 1);
    assert_eq!(c.level(), 255);
    assert_eq!(c.base_ptr(), (usize::MAX as u128) >> 12);
}

#[test]
fn frame_fields_scenario() {
    // Frame with base pointer 0x1000, level 2, mapped address 0x2000, mapped.
    let mut c = FrameCap::new(0x1000, 2);
    c.set_mapped_addr(0x2000);
    c.set_mapped(1);

    assert_eq!(c.type_tag(), 4);
    assert_eq!(c.base_ptr(), 0x1000u128 >> 12);
    assert_eq!(c.level(), 2);
    assert_eq!(c.mapped_addr(), 0x2000);
    assert_eq!(c.is_mapped(), 1);
}

#[test]
fn notification_badge_boundaries() {
    let mut c = NotificationCap::new(0x3000);
    assert_eq!(c.type_tag(), 5);
    assert_eq!(c.base_ptr(), 0x3);
    assert_eq!(c.badge(), 0);

    c.set_badge(63);
    assert_eq!(c.badge(), 63);
    assert_eq!(c.base_ptr(), 0x3);
    c.set_badge(0);
    assert_eq!(c.badge(), 0);
}

#[test]
fn notification_badge_scenario() {
    // Notification with badge 5; deriving keeps badge and base pointer.
    let mut v = NotificationCap::new(0x4000);
    v.set_badge(5);
    let c = v.into_cap();
    assert!(!c.is_derived());

    let d = c.derive();
    assert!(d.is_derived());
    assert_eq!(d.get_type(), CapType::Notification);
    let dv = d.notification_cap();
    assert_eq!(dv.badge(), 5);
    assert_eq!(dv.base_ptr(), 0x4000u128 >> 12);
}

#[test]
fn derive_sets_flag_and_preserves_fields() {
    let c = FrameCap::new(0x9000, 7).into_cap();
    assert!(!c.is_derived());
    assert_eq!(c.get_type(), CapType::Frame);

    let d = c.derive();
    assert!(d.is_derived());
    assert_eq!(d.get_type(), CapType::Frame);
    let v = d.frame_cap();
    assert_eq!(v.base_ptr(), 0x9000u128 >> 12);
    assert_eq!(v.level(), 7);

    // deriving a derived capability changes nothing
    let dd = d.derive();
    assert!(dd.is_derived());
    assert_eq!(dd, d);
}

#[test]
fn default_word_is_uninit() {
    let c = Cap::default();
    assert_eq!(c.get_type(), CapType::UnInit);
    assert!(!c.is_derived());
}

#[test]
fn from_word_names_every_kind() {
    assert_eq!(CapType::from_word(0), CapType::UnInit);
    assert_eq!(CapType::from_word(1), CapType::CNode);
    assert_eq!(CapType::from_word(2), CapType::Thread);
    assert_eq!(CapType::from_word(3), CapType::PageTable);
    assert_eq!(CapType::from_word(4), CapType::Frame);
    assert_eq!(CapType::from_word(5), CapType::Notification);
}

#[test]
fn into_cap_keeps_the_kind() {
    assert_eq!(CNodeCap::new(0x1000).into_cap().get_type(), CapType::CNode);
    assert_eq!(ThreadCap::new(0x1000).into_cap().get_type(), CapType::Thread);
    assert_eq!(PageTableCap::new(0x1000).into_cap().get_type(), CapType::PageTable);
    assert_eq!(FrameCap::new(0x1000, 0).into_cap().get_type(), CapType::Frame);
    assert_eq!(NotificationCap::new(0x1000).into_cap().get_type(), CapType::Notification);
}
