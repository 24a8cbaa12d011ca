//! The per-request decision logic of the HTTP-facing surface: consult the
//! binding, render, pick the dispatch target, and map every outcome to an
//! HTTP status.  Exactly one outbound call is planned per request, and only
//! when a binding exists and a recognised format was asked for; a failed
//! outbound call becomes a server-error response, never a crash.

use vstd::prelude::*;
use vstd::string::StringExecFns;

use crate::dispatch::BROADCAST_CHANNEL_ID;
use crate::dispatch::DeliveryError;
use crate::dispatch::DispatchTarget;
use crate::dispatch::EmbedRouting;
use crate::dispatch::target_for;
use crate::dispatch::target_spec;
use crate::handle::DeliveryHandle;
use crate::handle::opt_handle_wf;
use crate::render::RenderedPayload;
use crate::render::render;
use crate::render::render_spec;
use crate::request::InboundRequest;
use crate::request::MsgType;
use crate::request::parse_msg_type_spec;
use crate::slot::BindingSlot;
use crate::slot::after_set;
use crate::store::BindingStore;

verus! {

/// Success with no body: a delivery went out, or a no-op request completed.
pub const STATUS_NO_CONTENT: u16 = 204;

/// Liveness probe answer.
pub const STATUS_OK: u16 = 200;

/// No binding configured yet; the operator has to run the bind command.
pub const STATUS_SERVICE_UNAVAILABLE: u16 = 503;

/// The outbound platform call failed; the request is over, the server is
/// not.
pub const STATUS_SERVER_ERROR: u16 = 500;

/// Everything a request decides before any I/O happens: answer 503 because
/// nothing is bound, answer success without delivering, or perform exactly
/// one outbound call with this target and payload.
pub enum RequestPlan {
    /// No binding: respond service-unavailable, attempt no call.
    Unavailable,
    /// Absent or unrecognised format: respond success, attempt no call.
    NoDelivery,
    /// Perform one outbound call, then answer by its outcome.
    Deliver { target: DispatchTarget, payload: RenderedPayload },
}

/// The request state machine: an empty binding answers 503 before anything
/// is rendered; a formatless request answers success without delivering;
/// otherwise the one rendered payload goes to its target.
pub open spec fn plan_spec(
    binding: Option<DeliveryHandle>,
    req: InboundRequest,
    routing: EmbedRouting,
) -> RequestPlan {
    match binding {
        None => RequestPlan::Unavailable,
        Some(h) => match render_spec(req) {
            None => RequestPlan::NoDelivery,
            Some(p) => RequestPlan::Deliver { target: target_spec(h, p, routing), payload: p },
        },
    }
}

/// Decides a request against a known binding value.
pub fn plan_request(
    binding: &Option<DeliveryHandle>,
    req: &InboundRequest,
    routing: EmbedRouting,
) -> (r: RequestPlan)
    ensures
        r == plan_spec(*binding, *req, routing),
{
    match binding {
        None => RequestPlan::Unavailable,
        Some(h) => match render(req) {
            None => RequestPlan::NoDelivery,
            Some(p) => {
                let target = target_for(h, &p, routing);
                RequestPlan::Deliver { target, payload: p }
            },
        },
    }
}

/// Decides a request against the shared store: reads the binding once and
/// plans from exactly that observed value.  Whatever a concurrent writer
/// does, the observed binding is a complete one and the plan is its plan.
pub fn plan_against_store(
    store: &BindingStore,
    req: &InboundRequest,
    routing: EmbedRouting,
) -> (r: RequestPlan)
    ensures
        exists|b: Option<DeliveryHandle>|
            opt_handle_wf(b) && r == #[trigger] plan_spec(b, *req, routing),
{
    let binding = store.get();
    let r = plan_request(&binding, req, routing);
    proof {
        assert(opt_handle_wf(binding) && r == plan_spec(binding, *req, routing));
    }
    r
}

/// Maps the outcome of the one outbound call to the HTTP answer: success
/// becomes 204, failure becomes a 500 handed back to the caller - the
/// failure is confined to its own request.
pub fn status_after_dispatch(outcome: &Result<(), DeliveryError>) -> (status: u16)
    ensures
        outcome is Ok ==> status == STATUS_NO_CONTENT,
        outcome is Err ==> status == STATUS_SERVER_ERROR,
{
    match outcome {
        Ok(()) => STATUS_NO_CONTENT,
        Err(_) => STATUS_SERVER_ERROR,
    }
}

/// The status of a plan that needs no outbound call; a delivering plan has
/// no status until its call's outcome is in.
pub fn status_without_dispatch(plan: &RequestPlan) -> (status: Option<u16>)
    ensures
        plan is Unavailable ==> status == Some(STATUS_SERVICE_UNAVAILABLE),
        plan is NoDelivery ==> status == Some(STATUS_NO_CONTENT),
        plan is Deliver ==> status is None,
{
    match plan {
        RequestPlan::Unavailable => Some(STATUS_SERVICE_UNAVAILABLE),
        RequestPlan::NoDelivery => Some(STATUS_NO_CONTENT),
        RequestPlan::Deliver { .. } => None,
    }
}

/// The plain-text body of the 503 answer.
pub fn unavailable_body() -> (s: String)
    ensures
        s@ == "Please first setup a Webhook in the Group"@,
{
    String::from_str("Please first setup a Webhook in the Group")
}

/// The liveness probe: always plain success, touching no shared state.
pub fn health_status() -> (status: u16)
    ensures
        status == STATUS_OK,
{
    STATUS_OK
}

/// Each request is answered in exactly one of the three ways, and each way
/// exactly when its condition holds: service-unavailable exactly on an empty
/// binding, a no-op success exactly on a recognised binding with no
/// recognised format, and one - never more than one - outbound call exactly
/// when a binding and a recognised format are both present.
pub proof fn lemma_plan_cases(
    binding: Option<DeliveryHandle>,
    req: InboundRequest,
    routing: EmbedRouting,
)
    ensures
        plan_spec(binding, req, routing) is Unavailable <==> binding is None,
        plan_spec(binding, req, routing) is NoDelivery <==> (binding is Some && req.msg_type
            is None),
        plan_spec(binding, req, routing) is Deliver <==> (binding is Some && req.msg_type is Some),
{
}

/// With no binding, every request - whatever its format - is answered
/// service-unavailable and no outbound call is planned.
pub proof fn lemma_no_binding_no_dispatch(req: InboundRequest, routing: EmbedRouting)
    ensures
        plan_spec(None, req, routing) == RequestPlan::Unavailable,
        !(plan_spec(None, req, routing) is Deliver),
{
}

/// A format string other than the three recognised spellings parses to
/// nothing at all.
pub proof fn lemma_unknown_spelling_parses_to_none(s: Seq<char>)
    requires
        s != "Simple"@,
        s != "Embed"@,
        s != "Embed2"@,
    ensures
        parse_msg_type_spec(s) is None,
{
}

/// With a binding present but the format absent or unrecognised, the
/// request is answered success and no outbound call is planned.
pub proof fn lemma_unknown_format_no_dispatch(
    h: DeliveryHandle,
    req: InboundRequest,
    routing: EmbedRouting,
)
    requires
        req.msg_type is None,
    ensures
        plan_spec(Some(h), req, routing) == RequestPlan::NoDelivery,
        !(plan_spec(Some(h), req, routing) is Deliver),
{
}

/// Under fixed-channel routing, a channel-embed request is delivered to the
/// broadcast channel whatever handle is bound: two different bindings plan
/// the very same target, and that target is never the bound handle.
pub proof fn lemma_channel_embed_ignores_binding(
    h1: DeliveryHandle,
    h2: DeliveryHandle,
    req: InboundRequest,
)
    requires
        req.msg_type == Some(MsgType::Embed),
    ensures
        plan_spec(Some(h1), req, EmbedRouting::FixedChannel)->Deliver_target == DispatchTarget::ToChannel(
            BROADCAST_CHANNEL_ID,
        ),
        plan_spec(Some(h1), req, EmbedRouting::FixedChannel)->Deliver_target == plan_spec(
            Some(h2),
            req,
            EmbedRouting::FixedChannel,
        )->Deliver_target,
{
}

/// After a rebind, a request of a via-handle format is delivered through
/// the handle bound second; the first handle, once replaced, is never the
/// target again.
pub proof fn lemma_requests_after_rebind_use_second(
    s0: BindingSlot,
    h1: DeliveryHandle,
    h2: DeliveryHandle,
    req: InboundRequest,
    routing: EmbedRouting,
)
    requires
        req.msg_type == Some(MsgType::Simple) || req.msg_type == Some(MsgType::Embed2),
    ensures
        plan_spec(after_set(after_set(s0, h1), h2).current, req, routing)->Deliver_target
            == DispatchTarget::ViaHandle(h2),
        h1 != h2 ==> plan_spec(after_set(after_set(s0, h1), h2).current, req, routing)->Deliver_target
            != DispatchTarget::ViaHandle(h1),
{
}

} // verus!
