//! Capability table: a fixed-capacity array of capability slots with a
//! parallel usage bitmap.
//!
//! The capacity `N` counts the reserved slot 0, which is marked used at
//! construction, conventionally holds the null capability and is never
//! handed out by allocation. Releasing a slot frees the stored capability
//! — dispatching teardown through the free-callback registry unless the
//! capability is derived or Uninitialized — and clears the occupancy bit;
//! the stale word stays in place until overwritten, so a just-released
//! slot reads the same as any untrusted slot contents. Writing a slot by
//! index marks it used unconditionally, allocating the index implicitly.
//!
//! A table value carries no placement or alignment guarantee of its own.
//! The CNode capability that names a table stores the table's address
//! shifted right by 12, so whoever places a table and builds a capability
//! from its address must place it at a 4096-byte-aligned address — in an
//! aligned container or allocation — or resolution would silently lose
//! the address's low 12 bits.

use vstd::prelude::*;

use crate::cap::{free_log_effect, Cap};
use crate::free_callback::{CallbackHandler, FreeCallbackManager};

verus! {

/// Index of a slot within a capability table.
pub type CapIndex = usize;

/// How many slots a usage bitmap marks used.
pub open spec fn count_used(s: Seq<bool>) -> nat
    decreases s.len(),
{
    if s.len() == 0 {
        0
    } else {
        count_used(s.drop_last()) + if s.last() {
            1nat
        } else {
            0nat
        }
    }
}

/// No more slots are marked used than there are slots.
pub proof fn lemma_count_le_len(s: Seq<bool>)
    ensures
        count_used(s) <= s.len(),
    decreases s.len(),
{
    if s.len() > 0 {
        lemma_count_le_len(s.drop_last());
    }
}

/// A bitmap is exhausted exactly when its used count reaches its length:
/// every slot is used if and only if the count equals the capacity.
pub proof fn lemma_count_full(s: Seq<bool>)
    ensures
        count_used(s) == s.len() <==> (forall|i: int| 0 <= i < s.len() ==> s[i]),
    decreases s.len(),
{
    if s.len() > 0 {
        lemma_count_full(s.drop_last());
        lemma_count_le_len(s.drop_last());
        assert(forall|i: int| 0 <= i < s.len() - 1 ==> s.drop_last()[i] == s[i]);
        assert(s.last() == s[s.len() - 1]);
    }
}

/// An unused slot exists exactly while the used count is below the
/// capacity: allocation — which succeeds if and only if some slot is
/// unused — can succeed exactly `capacity - count` more times. From a
/// fresh table, whose count is one, that is capacity minus one times.
pub proof fn lemma_alloc_possible(s: Seq<bool>)
    ensures
        count_used(s) < s.len() <==> (exists|i: int| 0 <= i < s.len() && !s[i]),
{
    lemma_count_le_len(s);
    lemma_count_full(s);
}

/// Marking an unused slot used raises the used count by exactly one; such
/// a slot only exists while the count is below the capacity.
pub proof fn lemma_count_set(s: Seq<bool>, i: int)
    requires
        0 <= i < s.len(),
        !s[i],
    ensures
        count_used(s.update(i, true)) == count_used(s) + 1,
        count_used(s) < s.len(),
    decreases s.len(),
{
    let t = s.update(i, true);
    if i == s.len() - 1 {
        assert(t.drop_last() =~= s.drop_last());
        assert(t.last());
        assert(!s.last());
    } else {
        assert(t.drop_last() =~= s.drop_last().update(i, true));
        assert(t.last() == s.last());
        lemma_count_set(s.drop_last(), i);
    }
    lemma_count_le_len(t);
}

/// Clearing a used slot lowers the used count by exactly one: a released
/// slot makes room for exactly one later allocation.
pub proof fn lemma_count_clear(s: Seq<bool>, i: int)
    requires
        0 <= i < s.len(),
        s[i],
    ensures
        count_used(s.update(i, false)) + 1 == count_used(s),
    decreases s.len(),
{
    let t = s.update(i, false);
    if i == s.len() - 1 {
        assert(t.drop_last() =~= s.drop_last());
        assert(!t.last());
        assert(s.last());
    } else {
        assert(t.drop_last() =~= s.drop_last().update(i, false));
        assert(t.last() == s.last());
        lemma_count_clear(s.drop_last(), i);
    }
}

/// A fresh table's bitmap — slot 0 used, every other slot unused — has
/// used count exactly one: capacity minus one slots remain allocatable.
pub proof fn lemma_fresh_count(s: Seq<bool>)
    requires
        s.len() >= 1,
        s[0],
        forall|i: int| 1 <= i < s.len() ==> !s[i],
    ensures
        count_used(s) == 1,
    decreases s.len(),
{
    if s.len() == 1 {
        assert(s.last() == s[0]);
        assert(count_used(s.drop_last()) == 0);
    } else {
        assert(forall|i: int| 0 <= i < s.len() - 1 ==> s.drop_last()[i] == s[i]);
        lemma_fresh_count(s.drop_last());
        assert(!s.last());
    }
}

/// A capability table: `N` capability slots and a parallel usage bitmap,
/// `N` counting the reserved slot 0.
pub struct CapNode<const N: usize> {
    slots: Vec<Cap>,
    usage: Vec<bool>,
}

impl<const N: usize> CapNode<N> {
    /// The stored capabilities, slot by slot.
    pub closed spec fn spec_slots(self) -> Seq<Cap> {
        self.slots@
    }

    /// The usage bitmap: which slots are occupied.
    pub closed spec fn spec_usage(self) -> Seq<bool> {
        self.usage@
    }

    /// Well-formedness: both columns hold exactly `N` entries, the
    /// reserved slot 0 is marked used, and every stored capability carries
    /// a valid kind tag.
    pub open spec fn wf(self) -> bool {
        &&& N >= 1
        &&& self.spec_slots().len() == N
        &&& self.spec_usage().len() == N
        &&& self.spec_usage()[0]
        &&& forall|i: int| 0 <= i < N ==> (#[trigger] self.spec_slots()[i]).wf()
    }

    /// Builds a table with every slot holding the default (Uninitialized)
    /// word and only the reserved slot 0 marked used.
    pub fn new() -> (t: Self)
        requires
            N >= 1,
        ensures
            t.wf(),
            forall|i: int| 0 <= i < N ==> (#[trigger] t.spec_slots()[i]).word() == 0,
            forall|i: int| 1 <= i < N ==> !(#[trigger] t.spec_usage()[i]),
            t.spec_usage()[0],
            count_used(t.spec_usage()) == 1,
    {
        let mut slots: Vec<Cap> = Vec::new();
        let mut usage: Vec<bool> = Vec::new();
        let mut i: usize = 0;
        while i < N
            invariant
                i <= N,
                slots@.len() == i,
                usage@.len() == i,
                forall|j: int| 0 <= j < i ==> (#[trigger] slots@[j]).word() == 0,
                forall|j: int| 0 <= j < i ==> (#[trigger] slots@[j]).wf(),
                forall|j: int| 0 <= j < i ==> (#[trigger] usage@[j]) == (j == 0),
            decreases N - i,
        {
            slots.push(Cap::default());
            usage.push(i == 0);
            i += 1;
        }
        let t = CapNode { slots, usage };
        proof {
            lemma_fresh_count(t.spec_usage());
        }
        t
    }

    /// Finds the lowest-index unused slot, marks it used and returns its
    /// index; returns None when every slot is occupied — exhaustion is
    /// recoverable and left to the caller. The reserved slot 0 is marked
    /// used from construction on, so allocation never returns 0.
    pub fn alloc_free(&mut self) -> (r: Option<CapIndex>)
        requires
            old(self).wf(),
        ensures
            final(self).wf(),
            final(self).spec_slots() == old(self).spec_slots(),
            r matches Some(i) ==> 0 < i < N && !old(self).spec_usage()[i as int] && (forall|j: int|
                0 <= j < i ==> old(self).spec_usage()[j]) && final(self).spec_usage() == old(
                self,
            ).spec_usage().update(i as int, true),
            r is Some ==> count_used(final(self).spec_usage()) == count_used(
                old(self).spec_usage(),
            ) + 1,
            r is None ==> *final(self) == *old(self) && (forall|j: int|
                0 <= j < N ==> old(self).spec_usage()[j]),
            r is None ==> count_used(old(self).spec_usage()) == N,
    {
        let mut i: usize = 0;
        while i < N
            invariant
                i <= N,
                *self == *old(self),
                old(self).wf(),
                forall|j: int| 0 <= j < i ==> old(self).spec_usage()[j],
            decreases N - i,
        {
            if !self.usage[i] {
                proof {
                    lemma_count_set(self.spec_usage(), i as int);
                }
                self.usage[i] = true;
                return Some(i);
            }
            i += 1;
        }
        proof {
            lemma_count_full(self.spec_usage());
        }
        None
    }

    /// Releases slot `index`: frees the stored capability — dispatching
    /// teardown through the registry unless it is derived or Uninitialized
    /// — then clears the occupancy bit, making the index available for
    /// reuse. The stored word is left in place, stale, until overwritten.
    /// The reserved slot 0 is never released.
    pub fn free_slot<H: CallbackHandler>(
        &mut self,
        index: CapIndex,
        manager: &mut FreeCallbackManager<H>,
    )
        requires
            old(self).wf(),
            1 <= index < N,
        ensures
            final(self).wf(),
            final(self).spec_slots() == old(self).spec_slots(),
            final(self).spec_usage() == old(self).spec_usage().update(index as int, false),
            !final(self).spec_usage()[index as int],
            old(self).spec_usage()[index as int] ==> count_used(final(self).spec_usage()) + 1
                == count_used(old(self).spec_usage()),
            !old(self).spec_usage()[index as int] ==> count_used(final(self).spec_usage())
                == count_used(old(self).spec_usage()),
            free_log_effect(
                old(self).spec_slots()[index as int],
                old(manager).log(),
                final(manager).log(),
            ),
    {
        let cap = self.slots[index];
        cap.free(manager);
        proof {
            if old(self).spec_usage()[index as int] {
                lemma_count_clear(old(self).spec_usage(), index as int);
            } else {
                assert(old(self).spec_usage().update(index as int, false) =~= old(
                    self,
                ).spec_usage());
            }
        }
        self.usage[index] = false;
    }

    /// Whether slot `index` is occupied.
    pub fn is_used(&self, index: usize) -> (b: bool)
        requires
            self.wf(),
            index < N,
        ensures
            b == self.spec_usage()[index as int],
    {
        self.usage[index]
    }

    /// Reads the capability stored in slot `index`, without side effects.
    /// A released slot still reads as its stale former word, which must
    /// not be trusted until overwritten; it is not distinguishable by
    /// contents from a legitimately stored capability.
    pub fn get_slot(&self, index: usize) -> (c: Cap)
        requires
            self.wf(),
            index < N,
        ensures
            c == self.spec_slots()[index as int],
    {
        self.slots[index]
    }

    /// Stores `cap` into slot `index` and unconditionally marks the slot
    /// used, whatever its prior state: writing to a known index allocates
    /// it implicitly, without a prior `alloc_free` call.
    pub fn write_slot(&mut self, index: usize, cap: Cap)
        requires
            old(self).wf(),
            index < N,
            cap.wf(),
        ensures
            final(self).wf(),
            final(self).spec_slots() == old(self).spec_slots().update(index as int, cap),
            final(self).spec_usage() == old(self).spec_usage().update(index as int, true),
            final(self).spec_usage()[index as int],
            !old(self).spec_usage()[index as int] ==> count_used(final(self).spec_usage())
                == count_used(old(self).spec_usage()) + 1,
            old(self).spec_usage()[index as int] ==> count_used(final(self).spec_usage())
                == count_used(old(self).spec_usage()),
    {
        proof {
            if !old(self).spec_usage()[index as int] {
                lemma_count_set(old(self).spec_usage(), index as int);
            } else {
                assert(old(self).spec_usage().update(index as int, true) =~= old(
                    self,
                ).spec_usage());
            }
        }
        self.usage[index] = true;
        self.slots[index] = cap;
    }

    /// Whether no slot besides the reserved slot 0 is occupied. Slot 0's
    /// own permanent reservation is excluded from the check: a table with
    /// nothing but the reservation counts as empty.
    pub fn empty(&self) -> (b: bool)
        requires
            self.wf(),
        ensures
            b == (forall|i: int| 1 <= i < N ==> !(#[trigger] self.spec_usage()[i])),
    {
        let mut i: usize = 1;
        while i < N
            invariant
                self.wf(),
                1 <= i <= N,
                forall|j: int| 1 <= j < i ==> !(#[trigger] self.spec_usage()[j]),
            decreases N - i,
        {
            if self.usage[i] {
                return false;
            }
            i += 1;
        }
        true
    }
}

} // verus!
