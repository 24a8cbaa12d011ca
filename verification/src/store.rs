//! The shared binding store: the one point where the chat-command surface
//! and the concurrent HTTP surface touch the same mutable state.  A verified
//! reader-writer lock guards a `BindingSlot`, so arbitrarily many readers
//! proceed side by side while a writer excludes everyone for the instant of
//! the swap, and no reader ever sees a half-written handle.

use vstd::prelude::*;
use vstd::rwlock::RwLock;
use vstd::rwlock::RwLockPredicate;
use vstd::rwlock::ReadHandle;

use crate::handle::DeliveryHandle;
use crate::handle::opt_handle_wf;
use crate::slot::BindingSlot;

verus! {

/// The lock invariant: whatever slot is stored, it is well formed, so every
/// observed handle is complete.
pub struct BindingInv {}

impl RwLockPredicate<BindingSlot> for BindingInv {
    open spec fn inv(self, v: BindingSlot) -> bool {
        v.wf()
    }
}

/// A concurrency-safe single-slot container of the current delivery target.
/// Readers (one per inbound request) share the lock; the rare operator-driven
/// write takes it exclusively.
pub struct BindingStore {
    lock: RwLock<BindingSlot, BindingInv>,
}

impl BindingStore {
    #[verifier::type_invariant]
    spec fn store_wf(self) -> bool {
        self.lock.pred() == (BindingInv {  })
    }

    /// A fresh store holds no binding.
    pub fn new() -> (s: Self) {
        let slot = BindingSlot::new();
        BindingStore { lock: RwLock::new(slot, Ghost(BindingInv {  })) }
    }

    /// Takes a shared read lock and returns a copy of the current target.
    /// Whatever value a concurrent writer may have installed or be about to
    /// install, the value read is a complete, well-formed one.
    pub fn get(&self) -> (r: Option<DeliveryHandle>)
        ensures
            opt_handle_wf(r),
    {
        proof {
            use_type_invariant(self);
        }
        let read_handle = self.lock.acquire_read();
        let r = read_handle.borrow().get();
        read_handle.release_read();
        r
    }

    /// Takes the exclusive write lock and replaces the current target.
    /// Always succeeds; the previous binding, if any, is dropped whole.
    pub fn set(&self, h: DeliveryHandle)
        requires
            h.wf(),
    {
        proof {
            use_type_invariant(self);
        }
        let (mut slot, write_handle) = self.lock.acquire_write();
        slot.set(h);
        write_handle.release_write(slot);
    }

    /// Two reads whose lock tenures overlap observe one and the same value:
    /// while both read locks are held no write can interleave, so there is
    /// no state in which the two could differ, let alone see a torn handle.
    pub fn overlapping_reads_agree(&self) -> (pair: (
        Option<DeliveryHandle>,
        Option<DeliveryHandle>,
    ))
        ensures
            pair.0 == pair.1,
            opt_handle_wf(pair.0),
    {
        proof {
            use_type_invariant(self);
        }
        let first = self.lock.acquire_read();
        let second = self.lock.acquire_read();
        proof {
            ReadHandle::lemma_readers_match(&first, &second);
        }
        let a = first.borrow().get();
        let b = second.borrow().get();
        first.release_read();
        second.release_read();
        (a, b)
    }
}

} // verus!
