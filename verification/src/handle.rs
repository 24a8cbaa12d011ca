//! The delivery handle: an immutable credential-and-address pair that is
//! enough to push one message to one fixed destination.

use vstd::prelude::*;

verus! {

/// Where a delivery goes and what authorises it: the channel the handle was
/// created for, the platform-side identifier of the handle, and its secret
/// token.  Immutable once created; the binding store replaces whole handles,
/// never edits one.
pub struct DeliveryHandle {
    pub channel_id: u64,
    pub webhook_id: u64,
    pub token: String,
}

impl DeliveryHandle {
    /// A well-formed handle carries a non-empty token: the platform never
    /// issues an empty credential, and every handle the store accepts keeps
    /// this shape.
    pub open spec fn wf(self) -> bool {
        self.token@.len() > 0
    }

    /// Builds a handle from the plain values the chat platform returned.
    /// Succeeds exactly when the token is non-empty.
    pub fn new(channel_id: u64, webhook_id: u64, token: String) -> (r: Option<DeliveryHandle>)
        ensures
            token@.len() > 0 ==> r == Some(
                DeliveryHandle { channel_id, webhook_id, token },
            ),
            token@.len() == 0 ==> r is None,
            r is Some ==> r->0.wf(),
    {
        if token.as_str().is_empty() {
            None
        } else {
            Some(DeliveryHandle { channel_id, webhook_id, token })
        }
    }
}

impl Clone for DeliveryHandle {
    /// A clone is equal to the original, field for field.
    fn clone(&self) -> (r: Self)
        ensures
            r == *self,
    {
        DeliveryHandle {
            channel_id: self.channel_id,
            webhook_id: self.webhook_id,
            token: self.token.clone(),
        }
    }
}

/// Well-formedness lifted to the optional slot contents: an empty slot is
/// always well formed, a filled one exactly when its handle is.
pub open spec fn opt_handle_wf(v: Option<DeliveryHandle>) -> bool {
    match v {
        None => true,
        Some(h) => h.wf(),
    }
}

} // verus!
