//! Capability word codec.
//!
//! A capability is one 128-bit word. The low bits carry a kind tag and a
//! derived flag common to all kinds; the remaining fields depend on the kind:
//!
//! | field                        | kinds            | bits    |
//! |------------------------------|------------------|---------|
//! | kind tag                     | all              | 0-6     |
//! | derived flag                 | all              | 7       |
//! | base pointer (address >> 12) | all              | 13-64   |
//! | mapped address               | PageTable, Frame | 65-116  |
//! | badge                        | Notification     | 65-70   |
//! | mapping level                | PageTable, Frame | 119-126 |
//! | is-mapped flag               | PageTable, Frame | 127     |
//!
//! Kind-specific views (`CNodeCap`, `ThreadCap`, `PageTableCap`, `FrameCap`,
//! `NotificationCap`) wrap the same word and expose only the accessors that
//! are meaningful for their kind. Capabilities are built through the views'
//! factories, never from raw bits, so every word this codec produces carries
//! a valid kind tag.

use vstd::prelude::*;

use crate::free_callback::{CallbackHandler, FreeCallbackManager, HandlerCall};

verus! {

/// Kind tag field, bits 0-6.
pub const TAG_MASK: u128 = 0x7f;

/// Derived flag, bit 7.
pub const DERIVED_MASK: u128 = 0x80;

/// Low bit of the base-pointer field, which spans bits 13-64.
pub const BASE_PTR_SHIFT: u128 = 13;

/// Width mask of the 52-bit fields (base pointer and mapped address).
pub const FIELD52_MASK: u128 = 0xf_ffff_ffff_ffff;

/// Low bit of the mapped-address field (bits 65-116) and of the badge
/// field (bits 65-70).
pub const MAPPED_ADDR_SHIFT: u128 = 65;

/// Width mask of the 6-bit badge field.
pub const BADGE_MASK: u128 = 0x3f;

/// Low bit of the mapping-level field, bits 119-126.
pub const LEVEL_SHIFT: u128 = 119;

/// Width mask of the 8-bit mapping-level field.
pub const LEVEL_MASK: u128 = 0xff;

/// The is-mapped flag, bit 127.
pub const IS_MAPPED_SHIFT: u128 = 127;

/// Kind tag of an Uninitialized capability; the default (zero) word.
pub const TAG_UNINIT: u128 = 0;

/// Kind tag of a CNode (capability table) capability.
pub const TAG_CNODE: u128 = 1;

/// Kind tag of a Thread capability.
pub const TAG_THREAD: u128 = 2;

/// Kind tag of a PageTable capability.
pub const TAG_PAGE_TABLE: u128 = 3;

/// Kind tag of a Frame capability.
pub const TAG_FRAME: u128 = 4;

/// Kind tag of a Notification capability; the largest valid tag.
pub const TAG_NOTIFICATION: u128 = 5;

/// The kind tag stored in a capability word: bits 0-6.
pub open spec fn cap_tag(w: u128) -> u128 {
    w & TAG_MASK
}

/// The derived flag of a capability word: bit 7.
pub open spec fn cap_derived(w: u128) -> bool {
    w & DERIVED_MASK != 0
}

/// The base-pointer field of a capability word: bits 13-64, holding the
/// referenced object's 4096-byte-aligned address shifted right by 12.
pub open spec fn cap_base_ptr(w: u128) -> u128 {
    (w >> BASE_PTR_SHIFT) & FIELD52_MASK
}

/// The mapped-address field of a PageTable or Frame word: bits 65-116.
pub open spec fn cap_mapped_addr(w: u128) -> u128 {
    (w >> MAPPED_ADDR_SHIFT) & FIELD52_MASK
}

/// The badge field of a Notification word: bits 65-70.
pub open spec fn cap_badge(w: u128) -> u128 {
    (w >> MAPPED_ADDR_SHIFT) & BADGE_MASK
}

/// The mapping-level field of a PageTable or Frame word: bits 119-126.
pub open spec fn cap_level(w: u128) -> u128 {
    (w >> LEVEL_SHIFT) & LEVEL_MASK
}

/// The is-mapped flag of a PageTable or Frame word: bit 127, as 0 or 1.
pub open spec fn cap_is_mapped(w: u128) -> u128 {
    (w >> IS_MAPPED_SHIFT) & 1
}

/// Every field of the all-zero word is zero: a default word is an
/// Uninitialized, non-derived capability with every field clear.
pub proof fn lemma_zero_word()
    ensures
        cap_tag(0) == 0,
        !cap_derived(0),
        cap_base_ptr(0) == 0,
        cap_mapped_addr(0) == 0,
        cap_badge(0) == 0,
        cap_level(0) == 0,
        cap_is_mapped(0) == 0,
{
    assert(cap_tag(0) == 0 && !cap_derived(0) && cap_base_ptr(0) == 0 && cap_mapped_addr(0) == 0
        && cap_badge(0) == 0 && cap_level(0) == 0 && cap_is_mapped(0) == 0) by (bit_vector);
}

/// An address shifted right by 12 always fits the 52-bit base-pointer field.
pub proof fn lemma_base_field_fits(base_ptr: usize)
    ensures
        ((base_ptr as u128) >> 12) & FIELD52_MASK == (base_ptr as u128) >> 12,
{
    assert(((base_ptr as u128) >> 12) & FIELD52_MASK == (base_ptr as u128) >> 12) by (bit_vector);
}

/// The closed set of capability kinds. The tag values are given by
/// `kind_tag`: Uninitialized is 0, the zero word's kind.
#[derive(Copy, Clone, Debug, PartialEq, Eq, PartialOrd, Structural)]
pub enum CapType {
    UnInit,
    CNode,
    Thread,
    PageTable,
    Frame,
    Notification,
}

/// The kind encoded by a tag value. Meaningful for tags up to
/// `TAG_NOTIFICATION`; this codec never produces a larger tag.
pub open spec fn kind_from_tag(tag: u128) -> CapType {
    if tag == TAG_UNINIT {
        CapType::UnInit
    } else if tag == TAG_CNODE {
        CapType::CNode
    } else if tag == TAG_THREAD {
        CapType::Thread
    } else if tag == TAG_PAGE_TABLE {
        CapType::PageTable
    } else if tag == TAG_FRAME {
        CapType::Frame
    } else {
        CapType::Notification
    }
}

/// The tag value that encodes a kind.
pub open spec fn kind_tag(k: CapType) -> u128 {
    match k {
        CapType::UnInit => TAG_UNINIT,
        CapType::CNode => TAG_CNODE,
        CapType::Thread => TAG_THREAD,
        CapType::PageTable => TAG_PAGE_TABLE,
        CapType::Frame => TAG_FRAME,
        CapType::Notification => TAG_NOTIFICATION,
    }
}

impl CapType {
    /// The kind a tag value names. Tags are an invariant upheld by trusted
    /// producers: every word this codec produces carries a tag of at most
    /// `TAG_NOTIFICATION`, and no other bits ever reach this conversion, so
    /// larger labels are excluded by precondition.
    pub fn from_word(label: u128) -> (k: CapType)
        requires
            label <= TAG_NOTIFICATION,
        ensures
            k == kind_from_tag(label),
            kind_tag(k) == label,
    {
        if label == 0 {
            CapType::UnInit
        } else if label == 1 {
            CapType::CNode
        } else if label == 2 {
            CapType::Thread
        } else if label == 3 {
            CapType::PageTable
        } else if label == 4 {
            CapType::Frame
        } else {
            CapType::Notification
        }
    }
}

/// What freeing a capability does to the teardown handler's call log. A
/// derived capability carries no destruction authority and an
/// Uninitialized capability names no object: for both, the log is
/// unchanged — zero teardown calls. For any other capability exactly one
/// call is appended, to the handler method matching the capability's kind,
/// carrying the kind-specific view of the word (so with fields equal to
/// those stored in the capability).
pub open spec fn free_log_effect(c: Cap, before: Seq<HandlerCall>, after: Seq<HandlerCall>) -> bool {
    if c.spec_is_derived() {
        after == before
    } else {
        match c.spec_kind() {
            CapType::UnInit => after == before,
            CapType::CNode => after == before.push(HandlerCall::CNode(c.spec_cnode_cap())),
            CapType::Thread => after == before.push(HandlerCall::Thread(c.spec_thread_cap())),
            CapType::PageTable => after == before.push(
                HandlerCall::PageTable(c.spec_page_table_cap()),
            ),
            CapType::Frame => after == before.push(HandlerCall::Frame(c.spec_frame_cap())),
            CapType::Notification => after == before.push(
                HandlerCall::Notification(c.spec_notification_cap()),
            ),
        }
    }
}

/// One capability: a 128-bit word interpreted according to its kind tag.
#[derive(Copy, Clone, Debug, PartialEq, Eq, Structural)]
pub struct Cap {
    raw: u128,
}

impl Cap {
    /// The underlying 128-bit word.
    pub closed spec fn word(self) -> u128 {
        self.raw
    }

    /// The kind this word encodes.
    pub open spec fn spec_kind(self) -> CapType {
        kind_from_tag(cap_tag(self.word()))
    }

    /// Whether the derived flag is set.
    pub open spec fn spec_is_derived(self) -> bool {
        cap_derived(self.word())
    }

    /// A well-formed capability carries a valid kind tag. Factories and
    /// derivation only produce well-formed words.
    pub open spec fn wf(self) -> bool {
        cap_tag(self.word()) <= TAG_NOTIFICATION
    }

    /// This word with the derived flag set and everything else unchanged.
    pub closed spec fn spec_derive(self) -> Cap {
        Cap { raw: self.raw | DERIVED_MASK }
    }

    /// Extracts the kind tag.
    pub fn get_type(&self) -> (k: CapType)
        requires
            self.wf(),
        ensures
            k == self.spec_kind(),
    {
        CapType::from_word(self.raw & TAG_MASK)
    }

    /// A copy of this capability with the derived flag set: a reference to
    /// the same object that carries no destruction authority. Pure; the
    /// source word is unchanged. Every field other than the derived flag is
    /// kept, so deriving twice returns the same word again.
    pub fn derive(&self) -> (c: Cap)
        ensures
            c == self.spec_derive(),
            c.word() == self.word() | DERIVED_MASK,
            c.spec_is_derived(),
            cap_tag(c.word()) == cap_tag(self.word()),
            c.spec_kind() == self.spec_kind(),
            cap_base_ptr(c.word()) == cap_base_ptr(self.word()),
            cap_mapped_addr(c.word()) == cap_mapped_addr(self.word()),
            cap_badge(c.word()) == cap_badge(self.word()),
            cap_level(c.word()) == cap_level(self.word()),
            cap_is_mapped(c.word()) == cap_is_mapped(self.word()),
            self.wf() ==> c.wf(),
    {
        proof {
            lemma_derive_fields(*self);
        }
        Cap { raw: self.raw | DERIVED_MASK }
    }

    /// Whether this capability is a derived copy.
    pub fn is_derived(&self) -> (d: bool)
        ensures
            d == self.spec_is_derived(),
    {
        (self.raw & DERIVED_MASK) != 0
    }

    /// The CNode view of this word.
    pub closed spec fn spec_cnode_cap(self) -> CNodeCap {
        CNodeCap(self.raw)
    }

    /// The Thread view of this word.
    pub closed spec fn spec_thread_cap(self) -> ThreadCap {
        ThreadCap(self.raw)
    }

    /// The PageTable view of this word.
    pub closed spec fn spec_page_table_cap(self) -> PageTableCap {
        PageTableCap(self.raw)
    }

    /// The Frame view of this word.
    pub closed spec fn spec_frame_cap(self) -> FrameCap {
        FrameCap(self.raw)
    }

    /// The Notification view of this word.
    pub closed spec fn spec_notification_cap(self) -> NotificationCap {
        NotificationCap(self.raw)
    }

    /// The CNode view of this word: the same bits, exposing the fields of a
    /// CNode capability. Callers branch on the kind first; the view is only
    /// asked for when the kind matches.
    pub fn cnode_cap(&self) -> (c: CNodeCap)
        requires
            self.spec_kind() == CapType::CNode,
        ensures
            c == self.spec_cnode_cap(),
            c.word() == self.word(),
    {
        CNodeCap(self.raw)
    }

    /// The Thread view of this word; asked for only when the kind matches.
    pub fn thread_cap(&self) -> (c: ThreadCap)
        requires
            self.spec_kind() == CapType::Thread,
        ensures
            c == self.spec_thread_cap(),
            c.word() == self.word(),
    {
        ThreadCap(self.raw)
    }

    /// The PageTable view of this word; asked for only when the kind
    /// matches.
    pub fn page_table_cap(&self) -> (c: PageTableCap)
        requires
            self.spec_kind() == CapType::PageTable,
        ensures
            c == self.spec_page_table_cap(),
            c.word() == self.word(),
    {
        PageTableCap(self.raw)
    }

    /// The Frame view of this word; asked for only when the kind matches.
    pub fn frame_cap(&self) -> (c: FrameCap)
        requires
            self.spec_kind() == CapType::Frame,
        ensures
            c == self.spec_frame_cap(),
            c.word() == self.word(),
    {
        FrameCap(self.raw)
    }

    /// The Notification view of this word; asked for only when the kind
    /// matches.
    pub fn notification_cap(&self) -> (c: NotificationCap)
        requires
            self.spec_kind() == CapType::Notification,
        ensures
            c == self.spec_notification_cap(),
            c.word() == self.word(),
    {
        NotificationCap(self.raw)
    }

    /// Releases the object behind this capability. A derived capability
    /// carries no destruction authority, and an Uninitialized capability
    /// names no object: both free with no teardown call. Otherwise exactly
    /// one teardown call is dispatched, to the handler method matching this
    /// capability's kind, carrying the kind-specific view of this word.
    pub fn free<H: CallbackHandler>(&self, manager: &mut FreeCallbackManager<H>)
        requires
            self.wf(),
        ensures
            free_log_effect(*self, old(manager).log(), final(manager).log()),
    {
        if self.is_derived() {
            return ;
        }
        match self.get_type() {
            CapType::UnInit => {},
            CapType::CNode => manager.handler.free_cnode(self.cnode_cap()),
            CapType::Thread => manager.handler.free_task(self.thread_cap()),
            CapType::PageTable => manager.handler.free_page_table(self.page_table_cap()),
            CapType::Frame => manager.handler.free_frame(self.frame_cap()),
            CapType::Notification => manager.handler.free_notification(self.notification_cap()),
        }
    }
}

impl Default for Cap {
    /// The zero word: an Uninitialized, non-derived capability.
    fn default() -> (c: Self)
        ensures
            c.word() == 0,
            c.wf(),
            c.spec_kind() == CapType::UnInit,
            !c.spec_is_derived(),
    {
        proof {
            lemma_zero_word();
        }
        Cap { raw: 0 }
    }
}

/// Setting the derived flag changes no other field: kind, base pointer and
/// all kind-specific fields of a derived capability equal the source's.
pub proof fn lemma_derive_fields(c: Cap)
    ensures
        c.spec_derive().spec_is_derived(),
        cap_tag(c.spec_derive().word()) == cap_tag(c.word()),
        c.spec_derive().spec_kind() == c.spec_kind(),
        cap_base_ptr(c.spec_derive().word()) == cap_base_ptr(c.word()),
        cap_mapped_addr(c.spec_derive().word()) == cap_mapped_addr(c.word()),
        cap_badge(c.spec_derive().word()) == cap_badge(c.word()),
        cap_level(c.spec_derive().word()) == cap_level(c.word()),
        cap_is_mapped(c.spec_derive().word()) == cap_is_mapped(c.word()),
        c.wf() ==> c.spec_derive().wf(),
{
    let w = c.word();
    let dw = c.spec_derive().word();
    assert(cap_derived(dw) && cap_tag(dw) == cap_tag(w) && cap_base_ptr(dw) == cap_base_ptr(w)
        && cap_mapped_addr(dw) == cap_mapped_addr(w) && cap_badge(dw) == cap_badge(w)
        && cap_level(dw) == cap_level(w) && cap_is_mapped(dw) == cap_is_mapped(w)) by (bit_vector)
        requires
            dw == w | DERIVED_MASK,
    ;
}

/// Deriving is idempotent: deriving an already-derived capability returns
/// the same word again.
pub proof fn lemma_derive_idempotent(c: Cap)
    ensures
        c.spec_derive().spec_derive() == c.spec_derive(),
{
    let w = c.word();
    assert((w | DERIVED_MASK) | DERIVED_MASK == w | DERIVED_MASK) by (bit_vector);
}

/// The derived flag, once set, is never cleared by derivation: on any
/// capability whose derived flag is already set, deriving returns the
/// very same word.
pub proof fn lemma_derive_already_derived(c: Cap)
    requires
        c.spec_is_derived(),
    ensures
        c.spec_derive() == c,
{
    let w = c.word();
    assert(w & DERIVED_MASK != 0 ==> (w | DERIVED_MASK) == w) by (bit_vector);
}

/// Capability to a capability table (CNode). Fields: kind tag, derived
/// flag, base pointer.
#[derive(Copy, Clone, Debug, PartialEq, Eq, Structural)]
pub struct CNodeCap(u128);

impl CNodeCap {
    /// The underlying 128-bit word.
    pub closed spec fn word(self) -> u128 {
        self.0
    }

    fn set_type(&mut self, tag: u128)
        ensures
            cap_tag(final(self).word()) == tag & TAG_MASK,
            tag <= TAG_MASK ==> cap_tag(final(self).word()) == tag,
            cap_derived(final(self).word()) == cap_derived(old(self).word()),
            cap_base_ptr(final(self).word()) == cap_base_ptr(old(self).word()),
            final(self).word() == (old(self).word() & !TAG_MASK) | (tag & TAG_MASK),
    {
        let w = self.0;
        let nw = (w & !TAG_MASK) | (tag & TAG_MASK);
        proof {
            assert(cap_tag(nw) == tag & TAG_MASK && (tag <= TAG_MASK ==> cap_tag(nw) == tag)
                && cap_derived(nw) == cap_derived(w)
                && cap_base_ptr(nw) == cap_base_ptr(w)) by (bit_vector)
                requires
                    nw == (w & !TAG_MASK) | (tag & TAG_MASK),
            ;
        }
        self.0 = nw;
    }

    fn set_base_ptr(&mut self, base: u128)
        ensures
            cap_base_ptr(final(self).word()) == base & FIELD52_MASK,
            base <= FIELD52_MASK ==> cap_base_ptr(final(self).word()) == base,
            cap_tag(final(self).word()) == cap_tag(old(self).word()),
            cap_derived(final(self).word()) == cap_derived(old(self).word()),
            final(self).word() == (old(self).word() & !(FIELD52_MASK << BASE_PTR_SHIFT)) | ((base & FIELD52_MASK) << BASE_PTR_SHIFT),
    {
        let w = self.0;
        let nw = (w & !(FIELD52_MASK << BASE_PTR_SHIFT)) | ((base & FIELD52_MASK) << BASE_PTR_SHIFT);
        proof {
            assert(cap_base_ptr(nw) == base & FIELD52_MASK
                && (base <= FIELD52_MASK ==> cap_base_ptr(nw) == base)
                && cap_tag(nw) == cap_tag(w)
                && cap_derived(nw) == cap_derived(w)) by (bit_vector)
                requires
                    nw == (w & !(FIELD52_MASK << BASE_PTR_SHIFT)) | ((base & FIELD52_MASK)
                        << BASE_PTR_SHIFT),
            ;
        }
        self.0 = nw;
    }

    /// Builds a CNode capability for a table at `base_ptr`, a 4096-byte-
    /// aligned address. The low 12 bits are shifted away and never stored.
    pub fn new(base_ptr: usize) -> (c: Self)
        ensures
            cap_tag(c.word()) == TAG_CNODE,
            cap_base_ptr(c.word()) == (base_ptr as u128) >> 12,
            !cap_derived(c.word()),
            c.word() == TAG_CNODE | (((base_ptr as u128) >> 12) << BASE_PTR_SHIFT),
    {
        let mut cap = CNodeCap(0);
        proof {
            lemma_zero_word();
            lemma_base_field_fits(base_ptr);
        }
        cap.set_type(TAG_CNODE);
        cap.set_base_ptr((base_ptr as u128) >> 12);
        proof {
            let b: u128 = (base_ptr as u128) >> 12;
            let w1: u128 = (0u128 & !TAG_MASK) | (TAG_CNODE & TAG_MASK);
            let w2: u128 = (w1 & !(FIELD52_MASK << BASE_PTR_SHIFT)) | ((b & FIELD52_MASK)
                << BASE_PTR_SHIFT);
            assert(w2 == TAG_CNODE | (b << BASE_PTR_SHIFT)) by (bit_vector)
                requires
                    b == (base_ptr as u128) >> 12,
                    w1 == (0u128 & !TAG_MASK) | (TAG_CNODE & TAG_MASK),
                    w2 == (w1 & !(FIELD52_MASK << BASE_PTR_SHIFT)) | ((b & FIELD52_MASK)
                        << BASE_PTR_SHIFT),
            ;
        }
        cap
    }

    /// Wraps this view back into a plain capability word.
    pub fn into_cap(self) -> (c: Cap)
        ensures
            c.word() == self.word(),
    {
        Cap { raw: self.0 }
    }

    /// Reads the kind tag field.
    pub fn type_tag(&self) -> (t: u128)
        ensures
            t == cap_tag(self.word()),
    {
        self.0 & TAG_MASK
    }

    /// Reads the base-pointer field: the table's address shifted right by 12.
    pub fn base_ptr(&self) -> (b: u128)
        ensures
            b == cap_base_ptr(self.word()),
    {
        (self.0 >> BASE_PTR_SHIFT) & FIELD52_MASK
    }
}

/// Capability to a thread control block. Fields: kind tag, derived flag,
/// base pointer.
#[derive(Copy, Clone, Debug, PartialEq, Eq, Structural)]
pub struct ThreadCap(u128);

impl ThreadCap {
    /// The underlying 128-bit word.
    pub closed spec fn word(self) -> u128 {
        self.0
    }

    fn set_type(&mut self, tag: u128)
        ensures
            cap_tag(final(self).word()) == tag & TAG_MASK,
            tag <= TAG_MASK ==> cap_tag(final(self).word()) == tag,
            cap_derived(final(self).word()) == cap_derived(old(self).word()),
            cap_base_ptr(final(self).word()) == cap_base_ptr(old(self).word()),
            final(self).word() == (old(self).word() & !TAG_MASK) | (tag & TAG_MASK),
    {
        let w = self.0;
        let nw = (w & !TAG_MASK) | (tag & TAG_MASK);
        proof {
            assert(cap_tag(nw) == tag & TAG_MASK && (tag <= TAG_MASK ==> cap_tag(nw) == tag)
                && cap_derived(nw) == cap_derived(w)
                && cap_base_ptr(nw) == cap_base_ptr(w)) by (bit_vector)
                requires
                    nw == (w & !TAG_MASK) | (tag & TAG_MASK),
            ;
        }
        self.0 = nw;
    }

    fn set_base_ptr(&mut self, base: u128)
        ensures
            cap_base_ptr(final(self).word()) == base & FIELD52_MASK,
            base <= FIELD52_MASK ==> cap_base_ptr(final(self).word()) == base,
            cap_tag(final(self).word()) == cap_tag(old(self).word()),
            cap_derived(final(self).word()) == cap_derived(old(self).word()),
            final(self).word() == (old(self).word() & !(FIELD52_MASK << BASE_PTR_SHIFT)) | ((base & FIELD52_MASK) << BASE_PTR_SHIFT),
    {
        let w = self.0;
        let nw = (w & !(FIELD52_MASK << BASE_PTR_SHIFT)) | ((base & FIELD52_MASK) << BASE_PTR_SHIFT);
        proof {
            assert(cap_base_ptr(nw) == base & FIELD52_MASK
                && (base <= FIELD52_MASK ==> cap_base_ptr(nw) == base)
                && cap_tag(nw) == cap_tag(w)
                && cap_derived(nw) == cap_derived(w)) by (bit_vector)
                requires
                    nw == (w & !(FIELD52_MASK << BASE_PTR_SHIFT)) | ((base & FIELD52_MASK)
                        << BASE_PTR_SHIFT),
            ;
        }
        self.0 = nw;
    }

    /// Builds a Thread capability for a thread object at `base_ptr`, a
    /// 4096-byte-aligned address.
    pub fn new(base_ptr: usize) -> (c: Self)
        ensures
            cap_tag(c.word()) == TAG_THREAD,
            cap_base_ptr(c.word()) == (base_ptr as u128) >> 12,
            !cap_derived(c.word()),
            c.word() == TAG_THREAD | (((base_ptr as u128) >> 12) << BASE_PTR_SHIFT),
    {
        let mut cap = ThreadCap(0);
        proof {
            lemma_zero_word();
            lemma_base_field_fits(base_ptr);
        }
        cap.set_type(TAG_THREAD);
        cap.set_base_ptr((base_ptr as u128) >> 12);
        proof {
            let b: u128 = (base_ptr as u128) >> 12;
            let w1: u128 = (0u128 & !TAG_MASK) | (TAG_THREAD & TAG_MASK);
            let w2: u128 = (w1 & !(FIELD52_MASK << BASE_PTR_SHIFT)) | ((b & FIELD52_MASK)
                << BASE_PTR_SHIFT);
            assert(w2 == TAG_THREAD | (b << BASE_PTR_SHIFT)) by (bit_vector)
                requires
                    b == (base_ptr as u128) >> 12,
                    w1 == (0u128 & !TAG_MASK) | (TAG_THREAD & TAG_MASK),
                    w2 == (w1 & !(FIELD52_MASK << BASE_PTR_SHIFT)) | ((b & FIELD52_MASK)
                        << BASE_PTR_SHIFT),
            ;
        }
        cap
    }

    /// Wraps this view back into a plain capability word.
    pub fn into_cap(self) -> (c: Cap)
        ensures
            c.word() == self.word(),
    {
        Cap { raw: self.0 }
    }

    /// Reads the kind tag field.
    pub fn type_tag(&self) -> (t: u128)
        ensures
            t == cap_tag(self.word()),
    {
        self.0 & TAG_MASK
    }

    /// Reads the base-pointer field: the object's address shifted right by 12.
    pub fn base_ptr(&self) -> (b: u128)
        ensures
            b == cap_base_ptr(self.word()),
    {
        (self.0 >> BASE_PTR_SHIFT) & FIELD52_MASK
    }
}

/// Capability to a page table. Fields: kind tag, derived flag, base pointer,
/// mapped address, mapping level, is-mapped flag. The mapping fields are
/// settable after construction: a page table may be remapped at a different
/// level over its lifetime.
#[derive(Copy, Clone, Debug, PartialEq, Eq, Structural)]
pub struct PageTableCap(u128);

impl PageTableCap {
    /// The underlying 128-bit word.
    pub closed spec fn word(self) -> u128 {
        self.0
    }

    fn set_type(&mut self, tag: u128)
        ensures
            cap_tag(final(self).word()) == tag & TAG_MASK,
            tag <= TAG_MASK ==> cap_tag(final(self).word()) == tag,
            cap_derived(final(self).word()) == cap_derived(old(self).word()),
            cap_base_ptr(final(self).word()) == cap_base_ptr(old(self).word()),
            cap_mapped_addr(final(self).word()) == cap_mapped_addr(old(self).word()),
            cap_level(final(self).word()) == cap_level(old(self).word()),
            cap_is_mapped(final(self).word()) == cap_is_mapped(old(self).word()),
            final(self).word() == (old(self).word() & !TAG_MASK) | (tag & TAG_MASK),
    {
        let w = self.0;
        let nw = (w & !TAG_MASK) | (tag & TAG_MASK);
        proof {
            assert(cap_tag(nw) == tag & TAG_MASK && (tag <= TAG_MASK ==> cap_tag(nw) == tag)
                && cap_derived(nw) == cap_derived(w)
                && cap_base_ptr(nw) == cap_base_ptr(w)
                && cap_mapped_addr(nw) == cap_mapped_addr(w)
                && cap_level(nw) == cap_level(w)
                && cap_is_mapped(nw) == cap_is_mapped(w)) by (bit_vector)
                requires
                    nw == (w & !TAG_MASK) | (tag & TAG_MASK),
            ;
        }
        self.0 = nw;
    }

    fn set_base_ptr(&mut self, base: u128)
        ensures
            cap_base_ptr(final(self).word()) == base & FIELD52_MASK,
            base <= FIELD52_MASK ==> cap_base_ptr(final(self).word()) == base,
            cap_tag(final(self).word()) == cap_tag(old(self).word()),
            cap_derived(final(self).word()) == cap_derived(old(self).word()),
            cap_mapped_addr(final(self).word()) == cap_mapped_addr(old(self).word()),
            cap_level(final(self).word()) == cap_level(old(self).word()),
            cap_is_mapped(final(self).word()) == cap_is_mapped(old(self).word()),
            final(self).word() == (old(self).word() & !(FIELD52_MASK << BASE_PTR_SHIFT)) | ((base & FIELD52_MASK) << BASE_PTR_SHIFT),
    {
        let w = self.0;
        let nw = (w & !(FIELD52_MASK << BASE_PTR_SHIFT)) | ((base & FIELD52_MASK) << BASE_PTR_SHIFT);
        proof {
            assert(cap_base_ptr(nw) == base & FIELD52_MASK
                && (base <= FIELD52_MASK ==> cap_base_ptr(nw) == base)
                && cap_tag(nw) == cap_tag(w)
                && cap_derived(nw) == cap_derived(w)
                && cap_mapped_addr(nw) == cap_mapped_addr(w)
                && cap_level(nw) == cap_level(w)
                && cap_is_mapped(nw) == cap_is_mapped(w)) by (bit_vector)
                requires
                    nw == (w & !(FIELD52_MASK << BASE_PTR_SHIFT)) | ((base & FIELD52_MASK)
                        << BASE_PTR_SHIFT),
            ;
        }
        self.0 = nw;
    }

    /// Sets the mapped-address field; every other field is unchanged.
    pub fn set_mapped_addr(&mut self, addr: u128)
        ensures
            cap_mapped_addr(final(self).word()) == addr & FIELD52_MASK,
            addr <= FIELD52_MASK ==> cap_mapped_addr(final(self).word()) == addr,
            cap_tag(final(self).word()) == cap_tag(old(self).word()),
            cap_derived(final(self).word()) == cap_derived(old(self).word()),
            cap_base_ptr(final(self).word()) == cap_base_ptr(old(self).word()),
            cap_level(final(self).word()) == cap_level(old(self).word()),
            cap_is_mapped(final(self).word()) == cap_is_mapped(old(self).word()),
            final(self).word() == (old(self).word() & !(FIELD52_MASK << MAPPED_ADDR_SHIFT)) | ((addr & FIELD52_MASK) << MAPPED_ADDR_SHIFT),
    {
        let w = self.0;
        let nw = (w & !(FIELD52_MASK << MAPPED_ADDR_SHIFT)) | ((addr & FIELD52_MASK)
            << MAPPED_ADDR_SHIFT);
        proof {
            assert(cap_mapped_addr(nw) == addr & FIELD52_MASK
                && (addr <= FIELD52_MASK ==> cap_mapped_addr(nw) == addr)
                && cap_tag(nw) == cap_tag(w)
                && cap_derived(nw) == cap_derived(w)
                && cap_base_ptr(nw) == cap_base_ptr(w)
                && cap_level(nw) == cap_level(w)
                && cap_is_mapped(nw) == cap_is_mapped(w)) by (bit_vector)
                requires
                    nw == (w & !(FIELD52_MASK << MAPPED_ADDR_SHIFT)) | ((addr & FIELD52_MASK)
                        << MAPPED_ADDR_SHIFT),
            ;
        }
        self.0 = nw;
    }

    /// Sets the mapping-level field; every other field is unchanged.
    pub fn set_level(&mut self, level: u128)
        ensures
            cap_level(final(self).word()) == level & LEVEL_MASK,
            level <= LEVEL_MASK ==> cap_level(final(self).word()) == level,
            cap_tag(final(self).word()) == cap_tag(old(self).word()),
            cap_derived(final(self).word()) == cap_derived(old(self).word()),
            cap_base_ptr(final(self).word()) == cap_base_ptr(old(self).word()),
            cap_mapped_addr(final(self).word()) == cap_mapped_addr(old(self).word()),
            cap_is_mapped(final(self).word()) == cap_is_mapped(old(self).word()),
            final(self).word() == (old(self).word() & !(LEVEL_MASK << LEVEL_SHIFT)) | ((level & LEVEL_MASK) << LEVEL_SHIFT),
    {
        let w = self.0;
        let nw = (w & !(LEVEL_MASK << LEVEL_SHIFT)) | ((level & LEVEL_MASK) << LEVEL_SHIFT);
        proof {
            assert(cap_level(nw) == level & LEVEL_MASK
                && (level <= LEVEL_MASK ==> cap_level(nw) == level)
                && cap_tag(nw) == cap_tag(w)
                && cap_derived(nw) == cap_derived(w)
                && cap_base_ptr(nw) == cap_base_ptr(w)
                && cap_mapped_addr(nw) == cap_mapped_addr(w)
                && cap_is_mapped(nw) == cap_is_mapped(w)) by (bit_vector)
                requires
                    nw == (w & !(LEVEL_MASK << LEVEL_SHIFT)) | ((level & LEVEL_MASK) << LEVEL_SHIFT),
            ;
        }
        self.0 = nw;
    }

    /// Sets the is-mapped flag (0 or 1); every other field is unchanged.
    pub fn set_mapped(&mut self, mapped: u128)
        ensures
            cap_is_mapped(final(self).word()) == mapped & 1,
            mapped <= 1 ==> cap_is_mapped(final(self).word()) == mapped,
            cap_tag(final(self).word()) == cap_tag(old(self).word()),
            cap_derived(final(self).word()) == cap_derived(old(self).word()),
            cap_base_ptr(final(self).word()) == cap_base_ptr(old(self).word()),
            cap_mapped_addr(final(self).word()) == cap_mapped_addr(old(self).word()),
            cap_level(final(self).word()) == cap_level(old(self).word()),
            final(self).word() == (old(self).word() & !(1u128 << IS_MAPPED_SHIFT)) | ((mapped & 1) << IS_MAPPED_SHIFT),
    {
        let w = self.0;
        let nw = (w & !(1u128 << IS_MAPPED_SHIFT)) | ((mapped & 1) << IS_MAPPED_SHIFT);
        proof {
            assert(cap_is_mapped(nw) == mapped & 1
                && (mapped <= 1 ==> cap_is_mapped(nw) == mapped)
                && cap_tag(nw) == cap_tag(w)
                && cap_derived(nw) == cap_derived(w)
                && cap_base_ptr(nw) == cap_base_ptr(w)
                && cap_mapped_addr(nw) == cap_mapped_addr(w)
                && cap_level(nw) == cap_level(w)) by (bit_vector)
                requires
                    nw == (w & !(1u128 << IS_MAPPED_SHIFT)) | ((mapped & 1) << IS_MAPPED_SHIFT),
            ;
        }
        self.0 = nw;
    }

    /// Builds a PageTable capability for a table at `base_ptr`, a 4096-byte-
    /// aligned address, not yet mapped anywhere.
    pub fn new(base_ptr: usize) -> (c: Self)
        ensures
            cap_tag(c.word()) == TAG_PAGE_TABLE,
            cap_base_ptr(c.word()) == (base_ptr as u128) >> 12,
            !cap_derived(c.word()),
            cap_mapped_addr(c.word()) == 0,
            cap_level(c.word()) == 0,
            cap_is_mapped(c.word()) == 0,
            c.word() == TAG_PAGE_TABLE | (((base_ptr as u128) >> 12) << BASE_PTR_SHIFT),
    {
        let mut cap = PageTableCap(0);
        proof {
            lemma_zero_word();
            lemma_base_field_fits(base_ptr);
        }
        cap.set_type(TAG_PAGE_TABLE);
        cap.set_base_ptr((base_ptr as u128) >> 12);
        proof {
            let b: u128 = (base_ptr as u128) >> 12;
            let w1: u128 = (0u128 & !TAG_MASK) | (TAG_PAGE_TABLE & TAG_MASK);
            let w2: u128 = (w1 & !(FIELD52_MASK << BASE_PTR_SHIFT)) | ((b & FIELD52_MASK)
                << BASE_PTR_SHIFT);
            assert(w2 == TAG_PAGE_TABLE | (b << BASE_PTR_SHIFT)) by (bit_vector)
                requires
                    b == (base_ptr as u128) >> 12,
                    w1 == (0u128 & !TAG_MASK) | (TAG_PAGE_TABLE & TAG_MASK),
                    w2 == (w1 & !(FIELD52_MASK << BASE_PTR_SHIFT)) | ((b & FIELD52_MASK)
                        << BASE_PTR_SHIFT),
            ;
        }
        cap
    }

    /// Wraps this view back into a plain capability word.
    pub fn into_cap(self) -> (c: Cap)
        ensures
            c.word() == self.word(),
    {
        Cap { raw: self.0 }
    }

    /// Reads the kind tag field.
    pub fn type_tag(&self) -> (t: u128)
        ensures
            t == cap_tag(self.word()),
    {
        self.0 & TAG_MASK
    }

    /// Reads the base-pointer field: the table's address shifted right by 12.
    pub fn base_ptr(&self) -> (b: u128)
        ensures
            b == cap_base_ptr(self.word()),
    {
        (self.0 >> BASE_PTR_SHIFT) & FIELD52_MASK
    }

    /// Reads the mapped-address field.
    pub fn mapped_addr(&self) -> (a: u128)
        ensures
            a == cap_mapped_addr(self.word()),
    {
        (self.0 >> MAPPED_ADDR_SHIFT) & FIELD52_MASK
    }

    /// Reads the mapping-level field.
    pub fn mapped_level(&self) -> (l: u128)
        ensures
            l == cap_level(self.word()),
    {
        (self.0 >> LEVEL_SHIFT) & LEVEL_MASK
    }

    /// Reads the is-mapped flag, as 0 or 1.
    pub fn is_mapped(&self) -> (m: u128)
        ensures
            m == cap_is_mapped(self.word()),
    {
        (self.0 >> IS_MAPPED_SHIFT) & 1
    }
}

/// Capability to a memory frame. Fields: kind tag, derived flag, base
/// pointer, mapped address, mapping level, is-mapped flag. A frame is a
/// leaf mapping: its level is fixed at construction, while the mapped
/// address and is-mapped flag change as the frame is mapped and unmapped.
#[derive(Copy, Clone, Debug, PartialEq, Eq, Structural)]
pub struct FrameCap(u128);

impl FrameCap {
    /// The underlying 128-bit word.
    pub closed spec fn word(self) -> u128 {
        self.0
    }

    fn set_type(&mut self, tag: u128)
        ensures
            cap_tag(final(self).word()) == tag & TAG_MASK,
            tag <= TAG_MASK ==> cap_tag(final(self).word()) == tag,
            cap_derived(final(self).word()) == cap_derived(old(self).word()),
            cap_base_ptr(final(self).word()) == cap_base_ptr(old(self).word()),
            cap_mapped_addr(final(self).word()) == cap_mapped_addr(old(self).word()),
            cap_level(final(self).word()) == cap_level(old(self).word()),
            cap_is_mapped(final(self).word()) == cap_is_mapped(old(self).word()),
            final(self).word() == (old(self).word() & !TAG_MASK) | (tag & TAG_MASK),
    {
        let w = self.0;
        let nw = (w & !TAG_MASK) | (tag & TAG_MASK);
        proof {
            assert(cap_tag(nw) == tag & TAG_MASK && (tag <= TAG_MASK ==> cap_tag(nw) == tag)
                && cap_derived(nw) == cap_derived(w)
                && cap_base_ptr(nw) == cap_base_ptr(w)
                && cap_mapped_addr(nw) == cap_mapped_addr(w)
                && cap_level(nw) == cap_level(w)
                && cap_is_mapped(nw) == cap_is_mapped(w)) by (bit_vector)
                requires
                    nw == (w & !TAG_MASK) | (tag & TAG_MASK),
            ;
        }
        self.0 = nw;
    }

    fn set_base_ptr(&mut self, base: u128)
        ensures
            cap_base_ptr(final(self).word()) == base & FIELD52_MASK,
            base <= FIELD52_MASK ==> cap_base_ptr(final(self).word()) == base,
            cap_tag(final(self).word()) == cap_tag(old(self).word()),
            cap_derived(final(self).word()) == cap_derived(old(self).word()),
            cap_mapped_addr(final(self).word()) == cap_mapped_addr(old(self).word()),
            cap_level(final(self).word()) == cap_level(old(self).word()),
            cap_is_mapped(final(self).word()) == cap_is_mapped(old(self).word()),
            final(self).word() == (old(self).word() & !(FIELD52_MASK << BASE_PTR_SHIFT)) | ((base & FIELD52_MASK) << BASE_PTR_SHIFT),
    {
        let w = self.0;
        let nw = (w & !(FIELD52_MASK << BASE_PTR_SHIFT)) | ((base & FIELD52_MASK) << BASE_PTR_SHIFT);
        proof {
            assert(cap_base_ptr(nw) == base & FIELD52_MASK
                && (base <= FIELD52_MASK ==> cap_base_ptr(nw) == base)
                && cap_tag(nw) == cap_tag(w)
                && cap_derived(nw) == cap_derived(w)
                && cap_mapped_addr(nw) == cap_mapped_addr(w)
                && cap_level(nw) == cap_level(w)
                && cap_is_mapped(nw) == cap_is_mapped(w)) by (bit_vector)
                requires
                    nw == (w & !(FIELD52_MASK << BASE_PTR_SHIFT)) | ((base & FIELD52_MASK)
                        << BASE_PTR_SHIFT),
            ;
        }
        self.0 = nw;
    }

    fn set_level(&mut self, level: u128)
        ensures
            cap_level(final(self).word()) == level & LEVEL_MASK,
            level <= LEVEL_MASK ==> cap_level(final(self).word()) == level,
            cap_tag(final(self).word()) == cap_tag(old(self).word()),
            cap_derived(final(self).word()) == cap_derived(old(self).word()),
            cap_base_ptr(final(self).word()) == cap_base_ptr(old(self).word()),
            cap_mapped_addr(final(self).word()) == cap_mapped_addr(old(self).word()),
            cap_is_mapped(final(self).word()) == cap_is_mapped(old(self).word()),
            final(self).word() == (old(self).word() & !(LEVEL_MASK << LEVEL_SHIFT)) | ((level & LEVEL_MASK) << LEVEL_SHIFT),
    {
        let w = self.0;
        let nw = (w & !(LEVEL_MASK << LEVEL_SHIFT)) | ((level & LEVEL_MASK) << LEVEL_SHIFT);
        proof {
            assert(cap_level(nw) == level & LEVEL_MASK
                && (level <= LEVEL_MASK ==> cap_level(nw) == level)
                && cap_tag(nw) == cap_tag(w)
                && cap_derived(nw) == cap_derived(w)
                && cap_base_ptr(nw) == cap_base_ptr(w)
                && cap_mapped_addr(nw) == cap_mapped_addr(w)
                && cap_is_mapped(nw) == cap_is_mapped(w)) by (bit_vector)
                requires
                    nw == (w & !(LEVEL_MASK << LEVEL_SHIFT)) | ((level & LEVEL_MASK) << LEVEL_SHIFT),
            ;
        }
        self.0 = nw;
    }

    /// Sets the mapped-address field; every other field is unchanged.
    pub fn set_mapped_addr(&mut self, addr: u128)
        ensures
            cap_mapped_addr(final(self).word()) == addr & FIELD52_MASK,
            addr <= FIELD52_MASK ==> cap_mapped_addr(final(self).word()) == addr,
            cap_tag(final(self).word()) == cap_tag(old(self).word()),
            cap_derived(final(self).word()) == cap_derived(old(self).word()),
            cap_base_ptr(final(self).word()) == cap_base_ptr(old(self).word()),
            cap_level(final(self).word()) == cap_level(old(self).word()),
            cap_is_mapped(final(self).word()) == cap_is_mapped(old(self).word()),
            final(self).word() == (old(self).word() & !(FIELD52_MASK << MAPPED_ADDR_SHIFT)) | ((addr & FIELD52_MASK) << MAPPED_ADDR_SHIFT),
    {
        let w = self.0;
        let nw = (w & !(FIELD52_MASK << MAPPED_ADDR_SHIFT)) | ((addr & FIELD52_MASK)
            << MAPPED_ADDR_SHIFT);
        proof {
            assert(cap_mapped_addr(nw) == addr & FIELD52_MASK
                && (addr <= FIELD52_MASK ==> cap_mapped_addr(nw) == addr)
                && cap_tag(nw) == cap_tag(w)
                && cap_derived(nw) == cap_derived(w)
                && cap_base_ptr(nw) == cap_base_ptr(w)
                && cap_level(nw) == cap_level(w)
                && cap_is_mapped(nw) == cap_is_mapped(w)) by (bit_vector)
                requires
                    nw == (w & !(FIELD52_MASK << MAPPED_ADDR_SHIFT)) | ((addr & FIELD52_MASK)
                        << MAPPED_ADDR_SHIFT),
            ;
        }
        self.0 = nw;
    }

    /// Sets the is-mapped flag (0 or 1); every other field is unchanged.
    pub fn set_mapped(&mut self, mapped: u128)
        ensures
            cap_is_mapped(final(self).word()) == mapped & 1,
            mapped <= 1 ==> cap_is_mapped(final(self).word()) == mapped,
            cap_tag(final(self).word()) == cap_tag(old(self).word()),
            cap_derived(final(self).word()) == cap_derived(old(self).word()),
            cap_base_ptr(final(self).word()) == cap_base_ptr(old(self).word()),
            cap_mapped_addr(final(self).word()) == cap_mapped_addr(old(self).word()),
            cap_level(final(self).word()) == cap_level(old(self).word()),
            final(self).word() == (old(self).word() & !(1u128 << IS_MAPPED_SHIFT)) | ((mapped & 1) << IS_MAPPED_SHIFT),
    {
        let w = self.0;
        let nw = (w & !(1u128 << IS_MAPPED_SHIFT)) | ((mapped & 1) << IS_MAPPED_SHIFT);
        proof {
            assert(cap_is_mapped(nw) == mapped & 1
                && (mapped <= 1 ==> cap_is_mapped(nw) == mapped)
                && cap_tag(nw) == cap_tag(w)
                && cap_derived(nw) == cap_derived(w)
                && cap_base_ptr(nw) == cap_base_ptr(w)
                && cap_mapped_addr(nw) == cap_mapped_addr(w)
                && cap_level(nw) == cap_level(w)) by (bit_vector)
                requires
                    nw == (w & !(1u128 << IS_MAPPED_SHIFT)) | ((mapped & 1) << IS_MAPPED_SHIFT),
            ;
        }
        self.0 = nw;
    }

    /// Builds a Frame capability for a frame at `base_ptr`, a 4096-byte-
    /// aligned address, fixed at mapping level `level`, not yet mapped.
    pub fn new(base_ptr: usize, level: usize) -> (c: Self)
        ensures
            cap_tag(c.word()) == TAG_FRAME,
            cap_base_ptr(c.word()) == (base_ptr as u128) >> 12,
            !cap_derived(c.word()),
            cap_level(c.word()) == (level as u128) & LEVEL_MASK,
            level <= LEVEL_MASK ==> cap_level(c.word()) == level as u128,
            cap_mapped_addr(c.word()) == 0,
            cap_is_mapped(c.word()) == 0,
            c.word() == TAG_FRAME | (((base_ptr as u128) >> 12) << BASE_PTR_SHIFT)
                | (((level as u128) & LEVEL_MASK) << LEVEL_SHIFT),
    {
        let mut cap = FrameCap(0);
        proof {
            lemma_zero_word();
            lemma_base_field_fits(base_ptr);
        }
        cap.set_type(TAG_FRAME);
        cap.set_level(level as u128);
        cap.set_base_ptr((base_ptr as u128) >> 12);
        proof {
            let b: u128 = (base_ptr as u128) >> 12;
            let lv: u128 = level as u128;
            let w1: u128 = (0u128 & !TAG_MASK) | (TAG_FRAME & TAG_MASK);
            let w2: u128 = (w1 & !(LEVEL_MASK << LEVEL_SHIFT)) | ((lv & LEVEL_MASK) << LEVEL_SHIFT);
            let w3: u128 = (w2 & !(FIELD52_MASK << BASE_PTR_SHIFT)) | ((b & FIELD52_MASK)
                << BASE_PTR_SHIFT);
            assert(w3 == TAG_FRAME | (b << BASE_PTR_SHIFT) | ((lv & LEVEL_MASK) << LEVEL_SHIFT))
                by (bit_vector)
                requires
                    b == (base_ptr as u128) >> 12,
                    w1 == (0u128 & !TAG_MASK) | (TAG_FRAME & TAG_MASK),
                    w2 == (w1 & !(LEVEL_MASK << LEVEL_SHIFT)) | ((lv & LEVEL_MASK) << LEVEL_SHIFT),
                    w3 == (w2 & !(FIELD52_MASK << BASE_PTR_SHIFT)) | ((b & FIELD52_MASK)
                        << BASE_PTR_SHIFT),
            ;
        }
        cap
    }

    /// Wraps this view back into a plain capability word.
    pub fn into_cap(self) -> (c: Cap)
        ensures
            c.word() == self.word(),
    {
        Cap { raw: self.0 }
    }

    /// Reads the kind tag field.
    pub fn type_tag(&self) -> (t: u128)
        ensures
            t == cap_tag(self.word()),
    {
        self.0 & TAG_MASK
    }

    /// Reads the base-pointer field: the frame's address shifted right by 12.
    pub fn base_ptr(&self) -> (b: u128)
        ensures
            b == cap_base_ptr(self.word()),
    {
        (self.0 >> BASE_PTR_SHIFT) & FIELD52_MASK
    }

    /// Reads the mapped-address field.
    pub fn mapped_addr(&self) -> (a: u128)
        ensures
            a == cap_mapped_addr(self.word()),
    {
        (self.0 >> MAPPED_ADDR_SHIFT) & FIELD52_MASK
    }

    /// Reads the mapping-level field.
    pub fn level(&self) -> (l: u128)
        ensures
            l == cap_level(self.word()),
    {
        (self.0 >> LEVEL_SHIFT) & LEVEL_MASK
    }

    /// Reads the is-mapped flag, as 0 or 1.
    pub fn is_mapped(&self) -> (m: u128)
        ensures
            m == cap_is_mapped(self.word()),
    {
        (self.0 >> IS_MAPPED_SHIFT) & 1
    }
}

/// Capability to a notification (IPC signal) endpoint. Fields: kind tag,
/// derived flag, base pointer, badge. The badge is an application-chosen
/// tag distinguishing signal sources.
#[derive(Copy, Clone, Debug, PartialEq, Eq, Structural)]
pub struct NotificationCap(u128);

impl NotificationCap {
    /// The underlying 128-bit word.
    pub closed spec fn word(self) -> u128 {
        self.0
    }

    fn set_type(&mut self, tag: u128)
        ensures
            cap_tag(final(self).word()) == tag & TAG_MASK,
            tag <= TAG_MASK ==> cap_tag(final(self).word()) == tag,
            cap_derived(final(self).word()) == cap_derived(old(self).word()),
            cap_base_ptr(final(self).word()) == cap_base_ptr(old(self).word()),
            cap_badge(final(self).word()) == cap_badge(old(self).word()),
            final(self).word() == (old(self).word() & !TAG_MASK) | (tag & TAG_MASK),
    {
        let w = self.0;
        let nw = (w & !TAG_MASK) | (tag & TAG_MASK);
        proof {
            assert(cap_tag(nw) == tag & TAG_MASK && (tag <= TAG_MASK ==> cap_tag(nw) == tag)
                && cap_derived(nw) == cap_derived(w)
                && cap_base_ptr(nw) == cap_base_ptr(w)
                && cap_badge(nw) == cap_badge(w)) by (bit_vector)
                requires
                    nw == (w & !TAG_MASK) | (tag & TAG_MASK),
            ;
        }
        self.0 = nw;
    }

    fn set_base_ptr(&mut self, base: u128)
        ensures
            cap_base_ptr(final(self).word()) == base & FIELD52_MASK,
            base <= FIELD52_MASK ==> cap_base_ptr(final(self).word()) == base,
            cap_tag(final(self).word()) == cap_tag(old(self).word()),
            cap_derived(final(self).word()) == cap_derived(old(self).word()),
            cap_badge(final(self).word()) == cap_badge(old(self).word()),
            final(self).word() == (old(self).word() & !(FIELD52_MASK << BASE_PTR_SHIFT)) | ((base & FIELD52_MASK) << BASE_PTR_SHIFT),
    {
        let w = self.0;
        let nw = (w & !(FIELD52_MASK << BASE_PTR_SHIFT)) | ((base & FIELD52_MASK) << BASE_PTR_SHIFT);
        proof {
            assert(cap_base_ptr(nw) == base & FIELD52_MASK
                && (base <= FIELD52_MASK ==> cap_base_ptr(nw) == base)
                && cap_tag(nw) == cap_tag(w)
                && cap_derived(nw) == cap_derived(w)
                && cap_badge(nw) == cap_badge(w)) by (bit_vector)
                requires
                    nw == (w & !(FIELD52_MASK << BASE_PTR_SHIFT)) | ((base & FIELD52_MASK)
                        << BASE_PTR_SHIFT),
            ;
        }
        self.0 = nw;
    }

    /// Sets the badge field; every other field is unchanged.
    pub fn set_badge(&mut self, badge: u128)
        ensures
            cap_badge(final(self).word()) == badge & BADGE_MASK,
            badge <= BADGE_MASK ==> cap_badge(final(self).word()) == badge,
            cap_tag(final(self).word()) == cap_tag(old(self).word()),
            cap_derived(final(self).word()) == cap_derived(old(self).word()),
            cap_base_ptr(final(self).word()) == cap_base_ptr(old(self).word()),
            final(self).word() == (old(self).word() & !(BADGE_MASK << MAPPED_ADDR_SHIFT)) | ((badge & BADGE_MASK) << MAPPED_ADDR_SHIFT),
    {
        let w = self.0;
        let nw = (w & !(BADGE_MASK << MAPPED_ADDR_SHIFT)) | ((badge & BADGE_MASK)
            << MAPPED_ADDR_SHIFT);
        proof {
            assert(cap_badge(nw) == badge & BADGE_MASK
                && (badge <= BADGE_MASK ==> cap_badge(nw) == badge)
                && cap_tag(nw) == cap_tag(w)
                && cap_derived(nw) == cap_derived(w)
                && cap_base_ptr(nw) == cap_base_ptr(w)) by (bit_vector)
                requires
                    nw == (w & !(BADGE_MASK << MAPPED_ADDR_SHIFT)) | ((badge & BADGE_MASK)
                        << MAPPED_ADDR_SHIFT),
            ;
        }
        self.0 = nw;
    }

    /// Builds a Notification capability for an endpoint at `base_ptr`, a
    /// 4096-byte-aligned address, with badge 0.
    pub fn new(base_ptr: usize) -> (c: Self)
        ensures
            cap_tag(c.word()) == TAG_NOTIFICATION,
            cap_base_ptr(c.word()) == (base_ptr as u128) >> 12,
            !cap_derived(c.word()),
            cap_badge(c.word()) == 0,
            c.word() == TAG_NOTIFICATION | (((base_ptr as u128) >> 12) << BASE_PTR_SHIFT),
    {
        let mut cap = NotificationCap(0);
        proof {
            lemma_zero_word();
            lemma_base_field_fits(base_ptr);
        }
        cap.set_type(TAG_NOTIFICATION);
        cap.set_base_ptr((base_ptr as u128) >> 12);
        proof {
            let b: u128 = (base_ptr as u128) >> 12;
            let w1: u128 = (0u128 & !TAG_MASK) | (TAG_NOTIFICATION & TAG_MASK);
            let w2: u128 = (w1 & !(FIELD52_MASK << BASE_PTR_SHIFT)) | ((b & FIELD52_MASK)
                << BASE_PTR_SHIFT);
            assert(w2 == TAG_NOTIFICATION | (b << BASE_PTR_SHIFT)) by (bit_vector)
                requires
                    b == (base_ptr as u128) >> 12,
                    w1 == (0u128 & !TAG_MASK) | (TAG_NOTIFICATION & TAG_MASK),
                    w2 == (w1 & !(FIELD52_MASK << BASE_PTR_SHIFT)) | ((b & FIELD52_MASK)
                        << BASE_PTR_SHIFT),
            ;
        }
        cap
    }

    /// Wraps this view back into a plain capability word.
    pub fn into_cap(self) -> (c: Cap)
        ensures
            c.word() == self.word(),
    {
        Cap { raw: self.0 }
    }

    /// Reads the kind tag field.
    pub fn type_tag(&self) -> (t: u128)
        ensures
            t == cap_tag(self.word()),
    {
        self.0 & TAG_MASK
    }

    /// Reads the base-pointer field: the endpoint's address shifted right
    /// by 12.
    pub fn base_ptr(&self) -> (b: u128)
        ensures
            b == cap_base_ptr(self.word()),
    {
        (self.0 >> BASE_PTR_SHIFT) & FIELD52_MASK
    }

    /// Reads the badge field.
    pub fn badge(&self) -> (b: u128)
        ensures
            b == cap_badge(self.word()),
    {
        (self.0 >> MAPPED_ADDR_SHIFT) & BADGE_MASK
    }
}

} // verus!
