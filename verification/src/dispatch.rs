//! Dispatch planning: which outbound platform operation a rendered payload
//! calls for, and against which target.  The two operations - posting to a
//! channel and executing a delivery handle - are distinct platform
//! capabilities with different permission models, so the target keeps them
//! apart.  The outbound call itself is I/O and happens outside this crate;
//! here its outcome is classified.

use vstd::prelude::*;

use crate::handle::DeliveryHandle;
use crate::render::RenderedPayload;

verus! {

/// The channel the rich-embed-via-channel format posts to when it is routed
/// to the fixed broadcast channel rather than the bound handle.
pub const BROADCAST_CHANNEL_ID: u64 = 1166665522448961559;

/// Where one delivery goes: through the bound handle's execute capability,
/// or as a message to a channel by id.
pub enum DispatchTarget {
    ViaHandle(DeliveryHandle),
    ToChannel(u64),
}

/// The two resolutions of the channel-embed ambiguity: the embed-via-channel
/// format historically posts to one fixed channel, bypassing whatever is
/// bound; routing it to the bound handle's channel instead unifies the three
/// formats.  The fixed channel is the behaviour the rest of the system
/// assumes; the alternative exists behind this switch.
#[derive(Clone, Copy, PartialEq, Eq, Structural, Debug)]
pub enum EmbedRouting {
    /// Channel embeds go to `BROADCAST_CHANNEL_ID`, whatever is bound.
    FixedChannel,
    /// Channel embeds go to the channel the bound handle was created for.
    BoundHandle,
}

/// The target each payload shape is delivered to: plain messages and
/// handle embeds go through the bound handle; channel embeds go to a
/// channel chosen by the routing switch.
pub open spec fn target_spec(
    handle: DeliveryHandle,
    payload: RenderedPayload,
    routing: EmbedRouting,
) -> DispatchTarget {
    match payload {
        RenderedPayload::ChannelEmbed { .. } => match routing {
            EmbedRouting::FixedChannel => DispatchTarget::ToChannel(BROADCAST_CHANNEL_ID),
            EmbedRouting::BoundHandle => DispatchTarget::ToChannel(handle.channel_id),
        },
        _ => DispatchTarget::ViaHandle(handle),
    }
}

/// Resolves the dispatch target for a payload under the current binding.
pub fn target_for(
    handle: &DeliveryHandle,
    payload: &RenderedPayload,
    routing: EmbedRouting,
) -> (t: DispatchTarget)
    ensures
        t == target_spec(*handle, *payload, routing),
{
    match payload {
        RenderedPayload::ChannelEmbed { .. } => match routing {
            EmbedRouting::FixedChannel => DispatchTarget::ToChannel(BROADCAST_CHANNEL_ID),
            EmbedRouting::BoundHandle => DispatchTarget::ToChannel(handle.channel_id),
        },
        _ => DispatchTarget::ViaHandle(handle.clone()),
    }
}

/// A failed outbound call, classified at the platform boundary: network
/// trouble, a dead or revoked handle, or a permission refusal all land
/// here, described for the operator.
pub struct DeliveryError {
    pub message: String,
}

} // verus!
