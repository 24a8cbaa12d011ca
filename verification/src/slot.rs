//! The logical single-slot binding: one current delivery target, or none.
//! This is the sequential heart of the binding store; the concurrency-safe
//! wrapper around it lives in `store`.

use vstd::prelude::*;

use crate::handle::DeliveryHandle;
use crate::handle::opt_handle_wf;

verus! {

/// A single-cell container for the current delivery target.  Starts empty;
/// a bind replaces the whole contents unconditionally; nothing ever clears
/// it.
pub struct BindingSlot {
    pub current: Option<DeliveryHandle>,
}

/// The slot a write leaves behind: the handle just bound, whatever was there
/// before.
pub open spec fn after_set(s: BindingSlot, h: DeliveryHandle) -> BindingSlot {
    BindingSlot { current: Some(h) }
}

impl BindingSlot {
    /// Every handle the slot holds is well formed.
    pub open spec fn wf(self) -> bool {
        opt_handle_wf(self.current)
    }

    /// The initial state: nothing bound yet.  Not a failure state; requests
    /// that find the slot empty are answered with "service unavailable".
    pub fn new() -> (s: Self)
        ensures
            s.current is None,
            s.wf(),
    {
        BindingSlot { current: None }
    }

    /// Reads the current target without changing it.
    pub fn get(&self) -> (r: Option<DeliveryHandle>)
        ensures
            r == self.current,
    {
        match &self.current {
            Some(h) => Some(h.clone()),
            None => None,
        }
    }

    /// Replaces the current target unconditionally; always succeeds.
    pub fn set(&mut self, h: DeliveryHandle)
        requires
            h.wf(),
        ensures
            *final(self) == after_set(*old(self), h),
            final(self).current == Some(h),
            final(self).wf(),
    {
        self.current = Some(h);
    }
}

/// Rebinding is last-writer-wins: two successive binds leave exactly the
/// state the second bind alone would have left, whatever was bound before
/// and whatever the first bind was.
pub proof fn lemma_rebind_last_wins(s: BindingSlot, h1: DeliveryHandle, h2: DeliveryHandle)
    ensures
        after_set(after_set(s, h1), h2) == after_set(s, h2),
        after_set(after_set(s, h1), h2).current == Some(h2),
{
}

} // verus!
