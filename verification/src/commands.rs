//! The chat-command surface: the bind command's decision logic and the two
//! small informational replies.  The platform calls themselves (creating a
//! delivery handle, speaking in the channel) happen outside; this module
//! decides from their plain results what to store and what to say.

use vstd::prelude::*;
use vstd::string::StringExecFns;

use crate::handle::DeliveryHandle;
use crate::slot::BindingSlot;
use crate::slot::after_set;
use crate::store::BindingStore;
use crate::text::dec_rep;
use crate::text::u64_to_decimal;

verus! {

/// The platform refused to create a delivery handle - typically a missing
/// permission.  Reported to the operator only; the prior binding stays.
pub struct BindingCreationError {
    pub message: String,
}

/// What the bind command answers the operator.
pub enum BindReply {
    /// A handle was created and bound; the text names the channel.
    Bound { acknowledgement: String },
    /// No handle was created; the binding is as it was.
    Failed { message: String },
}

/// The acknowledgement text of a successful bind: the channel mention,
/// spelled with the channel's decimal id.
pub open spec fn bind_ack_spec(channel_id: nat) -> Seq<char> {
    "Channel set to <#"@ + dec_rep(channel_id) + ">"@
}

/// Renders the acknowledgement of a successful bind.
pub fn bind_ack_text(channel_id: u64) -> (s: String)
    ensures
        s@ == bind_ack_spec(channel_id as nat),
{
    String::from_str("Channel set to <#").concat(u64_to_decimal(channel_id).as_str()).concat(">")
}

/// The reply text of a failed bind: the platform's own description behind a
/// fixed prefix.
pub open spec fn bind_error_spec(message: Seq<char>) -> Seq<char> {
    "Error creating webhook: "@ + message
}

/// Renders the reply of a failed bind.
pub fn bind_error_text(err: &BindingCreationError) -> (s: String)
    ensures
        s@ == bind_error_spec(err.message@),
{
    String::from_str("Error creating webhook: ").concat(err.message.as_str())
}

/// The bind command's decision against the logical slot: a created handle
/// replaces the binding unconditionally and is acknowledged; a creation
/// failure leaves the binding exactly as it was and reports the error.
pub fn apply_bind(
    slot: &mut BindingSlot,
    outcome: Result<DeliveryHandle, BindingCreationError>,
) -> (reply: BindReply)
    requires
        outcome matches Ok(h) ==> h.wf(),
    ensures
        outcome matches Ok(h) ==> {
            &&& *final(slot) == after_set(*old(slot), h)
            &&& reply matches BindReply::Bound { acknowledgement } && acknowledgement@
                == bind_ack_spec(h.channel_id as nat)
        },
        outcome matches Err(e) ==> {
            &&& *final(slot) == *old(slot)
            &&& reply matches BindReply::Failed { message } && message@ == bind_error_spec(
                e.message@,
            )
        },
{
    match outcome {
        Ok(h) => {
            let channel_id = h.channel_id;
            slot.set(h);
            BindReply::Bound { acknowledgement: bind_ack_text(channel_id) }
        },
        Err(e) => BindReply::Failed { message: bind_error_text(&e) },
    }
}

/// The bind command's decision against the shared store: the same replies,
/// with the write going through the store's exclusive lock.  A creation
/// failure never touches the store.
pub fn apply_bind_shared(
    store: &BindingStore,
    outcome: Result<DeliveryHandle, BindingCreationError>,
) -> (reply: BindReply)
    requires
        outcome matches Ok(h) ==> h.wf(),
    ensures
        outcome matches Ok(h) ==> reply matches BindReply::Bound { acknowledgement }
            && acknowledgement@ == bind_ack_spec(h.channel_id as nat),
        outcome matches Err(e) ==> reply matches BindReply::Failed { message } && message@
            == bind_error_spec(e.message@),
{
    match outcome {
        Ok(h) => {
            let channel_id = h.channel_id;
            store.set(h);
            BindReply::Bound { acknowledgement: bind_ack_text(channel_id) }
        },
        Err(e) => BindReply::Failed { message: bind_error_text(&e) },
    }
}

/// The liveness reply of the ping command.
pub fn ping_reply() -> (s: String)
    ensures
        s@ == "Pong!"@,
{
    String::from_str("Pong!")
}

/// The age command's reply: whose account, and the platform-reported
/// creation date, joined into one sentence.
pub fn age_reply(name: &str, created_at: &str) -> (s: String)
    ensures
        s@ == name@ + "'s account was created at "@ + created_at@,
{
    name.to_owned().concat("'s account was created at ").concat(created_at)
}

} // verus!
