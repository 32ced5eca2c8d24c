//! Free-callback registry: the registration point for the kind-dispatched
//! teardown handler that the codec's free operation calls.
//!
//! The registry is not a global: a `FreeCallbackManager` is built alongside
//! its handler during boot and passed explicitly to every operation that may
//! release an object. A manager therefore always carries exactly one
//! handler — the unregistered state, a boot-sequencing defect that would
//! otherwise have to abort the kernel, cannot be constructed — and the
//! handler is set exactly once: no re-registration interface exists.
//!
//! A handler's obligations are stated over its abstract call log, the
//! sequence of teardown calls it has received. `RecordingHandler` is the
//! library's own implementation; real kernels implement `CallbackHandler`
//! with their object-lifecycle subsystem.

use vstd::prelude::*;

use crate::cap::{CNodeCap, FrameCap, NotificationCap, PageTableCap, ThreadCap};

verus! {

/// One teardown call, as received by a handler: the kind-specific view of
/// the capability being freed.
#[derive(Copy, Clone, Debug, PartialEq, Eq, Structural)]
pub enum HandlerCall {
    CNode(CNodeCap),
    Thread(ThreadCap),
    PageTable(PageTableCap),
    Frame(FrameCap),
    Notification(NotificationCap),
}

/// The object-teardown interface toward the rest of the kernel: one method
/// per non-Uninitialized capability kind, each taking the kind-specific
/// view of the word being freed and performing whatever higher-layer
/// release is appropriate. Each method appends exactly its own call to the
/// handler's log and does nothing else the log can show.
pub trait CallbackHandler {
    /// The sequence of teardown calls this handler has received, in order.
    spec fn log(&self) -> Seq<HandlerCall>;

    /// Releases the capability table behind a CNode capability.
    fn free_cnode(&mut self, cap: CNodeCap)
        ensures
            final(self).log() == old(self).log().push(HandlerCall::CNode(cap)),
    ;

    /// Releases the memory frame behind a Frame capability.
    fn free_frame(&mut self, cap: FrameCap)
        ensures
            final(self).log() == old(self).log().push(HandlerCall::Frame(cap)),
    ;

    /// Releases the page table behind a PageTable capability.
    fn free_page_table(&mut self, cap: PageTableCap)
        ensures
            final(self).log() == old(self).log().push(HandlerCall::PageTable(cap)),
    ;

    /// Releases the thread behind a Thread capability.
    fn free_task(&mut self, cap: ThreadCap)
        ensures
            final(self).log() == old(self).log().push(HandlerCall::Thread(cap)),
    ;

    /// Releases the notification endpoint behind a Notification capability.
    fn free_notification(&mut self, cap: NotificationCap)
        ensures
            final(self).log() == old(self).log().push(HandlerCall::Notification(cap)),
    ;
}

/// The registry: holds exactly one teardown handler, installed when the
/// registry is constructed and never replaced.
pub struct FreeCallbackManager<H: CallbackHandler> {
    pub handler: H,
}

impl<H: CallbackHandler> FreeCallbackManager<H> {
    /// The call log of the held handler.
    pub open spec fn log(&self) -> Seq<HandlerCall> {
        self.handler.log()
    }

    /// Builds the registry around its handler.
    pub fn new(handler: H) -> (m: Self)
        ensures
            m.handler == handler,
    {
        FreeCallbackManager { handler }
    }
}

/// Installs the kernel's teardown handler and returns the registry that
/// holds it. Registration happens exactly once, during single-threaded
/// boot, before any capability is released: the registry can only be
/// constructed alongside its handler, so no release can ever find the
/// handler missing.
pub fn register_handler<H: CallbackHandler>(handler: H) -> (m: FreeCallbackManager<H>)
    ensures
        m.handler == handler,
{
    FreeCallbackManager::new(handler)
}

/// A handler that records every teardown call it receives and releases
/// nothing: the library's own `CallbackHandler`, used to observe exactly
/// which calls a free operation dispatches.
pub struct RecordingHandler {
    calls: Vec<HandlerCall>,
}

impl RecordingHandler {
    /// A handler with an empty log.
    pub fn new() -> (h: Self)
        ensures
            h.log() == Seq::<HandlerCall>::empty(),
    {
        RecordingHandler { calls: Vec::new() }
    }

    /// How many teardown calls this handler has received.
    pub fn num_calls(&self) -> (n: usize)
        ensures
            n == self.log().len(),
    {
        self.calls.len()
    }

    /// The i-th teardown call received, oldest first.
    pub fn call_at(&self, i: usize) -> (c: HandlerCall)
        requires
            i < self.log().len(),
        ensures
            c == self.log()[i as int],
    {
        self.calls[i]
    }
}

impl CallbackHandler for RecordingHandler {
    closed spec fn log(&self) -> Seq<HandlerCall> {
        self.calls@
    }

    fn free_cnode(&mut self, cap: CNodeCap) {
        self.calls.push(HandlerCall::CNode(cap));
    }

    fn free_frame(&mut self, cap: FrameCap) {
        self.calls.push(HandlerCall::Frame(cap));
    }

    fn free_page_table(&mut self, cap: PageTableCap) {
        self.calls.push(HandlerCall::PageTable(cap));
    }

    fn free_task(&mut self, cap: ThreadCap) {
        self.calls.push(HandlerCall::Thread(cap));
    }

    fn free_notification(&mut self, cap: NotificationCap) {
        self.calls.push(HandlerCall::Notification(cap));
    }
}

} // verus!
