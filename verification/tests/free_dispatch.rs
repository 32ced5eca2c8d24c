// Teardown dispatch: which handler calls a free operation performs,
// observed through the call-recording handler.

use mork_capability::cap::{CNodeCap, Cap, FrameCap, NotificationCap, PageTableCap, ThreadCap};
use mork_capability::free_callback::{
    register_handler, FreeCallbackManager, HandlerCall, RecordingHandler,
};

#[test]
fn free_derived_makes_no_handler_call() {
    let mut mgr = register_handler(RecordingHandler::new());
    let c = FrameCap::new(0x5000, 1).into_cap().derive();
    c.free(&mut mgr);
    assert_eq!(mgr.handler.num_calls(), 0);
}

#[test]
fn free_uninit_makes_no_handler_call() {
    let mut mgr = register_handler(RecordingHandler::new());
    let c = Cap::default();
    c.free(&mut mgr);
    assert_eq!(mgr.handler.num_calls(), 0);
}

#[test]
fn free_cnode_calls_matching_method_once() {
    let mut mgr = register_handler(RecordingHandler::new());
    let v = CNodeCap::new(0x6000);
    v.into_cap().free(&mut mgr);
    assert_eq!(mgr.handler.num_calls(), 1);
    assert_eq!(mgr.handler.call_at(0), HandlerCall::CNode(v));
}

#[test]
fn free_thread_calls_matching_method_once() {
    let mut mgr = register_handler(RecordingHandler::new());
    let v = ThreadCap::new(0x6000);
    v.into_cap().free(&mut mgr);
    assert_eq!(mgr.handler.num_calls(), 1);
    assert_eq!(mgr.handler.call_at(0), HandlerCall::Thread(v));
}

#[test]
fn free_page_table_calls_matching_method_once() {
    let mut mgr = register_handler(RecordingHandler::new());
    let v = PageTableCap::new(0x6000);
    v.into_cap().free(&mut mgr);
    assert_eq!(mgr.handler.num_calls(), 1);
    assert_eq!(mgr.handler.call_at(0), HandlerCall::PageTable(v));
}

#[test]
fn free_frame_calls_matching_method_once_with_equal_fields() {
    let mut mgr = register_handler(RecordingHandler::new());
    let v = FrameCap::new(0x6000, 3);
    v.into_cap().free(&mut mgr);
    assert_eq!(mgr.handler.num_calls(), 1);
    match mgr.handler.call_at(0) {
        HandlerCall::Frame(f) => {
            assert_eq!(f.base_ptr(), 0x6000u128 >> 12);
            assert_eq!(f.level(), 3);
            assert_eq!(f.type_tag(), 4);
        },
        other => panic!("wrong handler method called: {:?}", other),
    }
}

#[test]
fn free_notification_calls_matching_method_once_with_equal_fields() {
    let mut mgr = register_handler(RecordingHandler::new());
    let mut v = NotificationCap::new(0x6000);
    v.set_badge(9);
    v.into_cap().free(&mut mgr);
    assert_eq!(mgr.handler.num_calls(), 1);
    match mgr.handler.call_at(0) {
        HandlerCall::Notification(n) => {
            assert_eq!(n.badge(), 9);
            assert_eq!(n.base_ptr(), 0x6000u128 >> 12);
        },
        other => panic!("wrong handler method called: {:?}", other),
    }
}

#[test]
fn manager_new_holds_its_handler() {
    let mgr = FreeCallbackManager::new(RecordingHandler::new());
    assert_eq!(mgr.handler.num_calls(), 0);
}

#[test]
fn successive_frees_append_in_order() {
    let mut mgr = register_handler(RecordingHandler::new());
    let a = ThreadCap::new(0x1000);
    let b = FrameCap::new(0x2000, 1);
    a.into_cap().free(&mut mgr);
    b.into_cap().free(&mut mgr);
    assert_eq!(mgr.handler.num_calls(), 2);
    assert_eq!(mgr.handler.call_at(0), HandlerCall::Thread(a));
    assert_eq!(mgr.handler.call_at(1), HandlerCall::Frame(b));
}
