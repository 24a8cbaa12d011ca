//! The renderer: a pure map from an inbound request to the wire payload of
//! its format, or to nothing when no recognised format was asked for.

use vstd::prelude::*;

use crate::request::InboundRequest;
use crate::request::MsgType;

verus! {

/// The three wire payload shapes.
pub enum RenderedPayload {
    /// Plain text, optionally under a per-delivery sender name.
    SimpleMessage { username: Option<String>, content: String },
    /// A structured embed for a channel post: description, optional title,
    /// optional author name.
    ChannelEmbed { description: String, title: Option<String>, author_name: Option<String> },
    /// One embed carried through the handle, optionally under a
    /// per-delivery sender name.
    HandleEmbed { username: Option<String>, description: String, title: Option<String> },
}

/// What each request renders to: the format picks the shape, and the
/// request's fields are carried over unchanged.  No format, no payload.
pub open spec fn render_spec(req: InboundRequest) -> Option<RenderedPayload> {
    match req.msg_type {
        Some(MsgType::Simple) => Some(
            RenderedPayload::SimpleMessage { username: req.username, content: req.msg },
        ),
        Some(MsgType::Embed) => Some(
            RenderedPayload::ChannelEmbed {
                description: req.msg,
                title: req.title,
                author_name: req.username,
            },
        ),
        Some(MsgType::Embed2) => Some(
            RenderedPayload::HandleEmbed {
                username: req.username,
                description: req.msg,
                title: req.title,
            },
        ),
        None => None,
    }
}

/// Clones an optional string, field for field.
fn clone_opt_string(s: &Option<String>) -> (r: Option<String>)
    ensures
        r == *s,
{
    match s {
        Some(v) => Some(v.clone()),
        None => None,
    }
}

/// Renders a request.  Pure: no side effect, no delivery; the `None` result
/// is the "deliver nothing, answer success" signal for absent or
/// unrecognised formats.
pub fn render(req: &InboundRequest) -> (r: Option<RenderedPayload>)
    ensures
        r == render_spec(*req),
{
    match req.msg_type {
        Some(MsgType::Simple) => Some(
            RenderedPayload::SimpleMessage {
                username: clone_opt_string(&req.username),
                content: req.msg.clone(),
            },
        ),
        Some(MsgType::Embed) => Some(
            RenderedPayload::ChannelEmbed {
                description: req.msg.clone(),
                title: clone_opt_string(&req.title),
                author_name: clone_opt_string(&req.username),
            },
        ),
        Some(MsgType::Embed2) => Some(
            RenderedPayload::HandleEmbed {
                username: clone_opt_string(&req.username),
                description: req.msg.clone(),
                title: clone_opt_string(&req.title),
            },
        ),
        None => None,
    }
}

} // verus!
