use webhook_relay::commands::{
    apply_bind, apply_bind_shared, bind_ack_text, bind_error_text, ping_reply, age_reply,
    BindReply, BindingCreationError,
};
use webhook_relay::dispatch::{DeliveryError, DispatchTarget, EmbedRouting, BROADCAST_CHANNEL_ID};
use webhook_relay::handle::DeliveryHandle;
use webhook_relay::handler::{
    health_status, plan_against_store, plan_request, status_after_dispatch,
    status_without_dispatch, unavailable_body, RequestPlan, STATUS_NO_CONTENT, STATUS_OK,
    STATUS_SERVER_ERROR, STATUS_SERVICE_UNAVAILABLE,
};
use webhook_relay::render::{render, RenderedPayload};
use webhook_relay::request::{parse_msg_type, InboundRequest, MsgType};
use webhook_relay::slot::BindingSlot;
use webhook_relay::store::BindingStore;
use webhook_relay::text::u64_to_decimal;

fn handle(channel_id: u64, webhook_id: u64, token: &str) -> DeliveryHandle {
    DeliveryHandle::new(channel_id, webhook_id, token.to_string()).unwrap()
}

fn request(
    msg: &str,
    title: Option<&str>,
    username: Option<&str>,
    msg_type_raw: Option<&str>,
) -> InboundRequest {
    InboundRequest::from_query(
        msg.to_string(),
        title.map(|s| s.to_string()),
        username.map(|s| s.to_string()),
        msg_type_raw,
    )
}

#[test]
fn parse_recognises_the_three_spellings() {
    assert_eq!(parse_msg_type("Simple"), Some(MsgType::Simple));
    assert_eq!(parse_msg_type("Embed"), Some(MsgType::Embed));
    assert_eq!(parse_msg_type("Embed2"), Some(MsgType::Embed2));
}

#[test]
fn parse_is_case_sensitive_and_rejects_everything_else() {
    assert_eq!(parse_msg_type("simple"), None);
    assert_eq!(parse_msg_type("EMBED"), None);
    assert_eq!(parse_msg_type("Embed3"), None);
    assert_eq!(parse_msg_type(""), None);
    assert_eq!(parse_msg_type("Simple "), None);
}

#[test]
fn from_query_carries_fields_and_parses_format() {
    let req = request("hi", Some("T"), Some("bob"), Some("Embed2"));
    assert_eq!(req.msg, "hi");
    assert_eq!(req.title.as_deref(), Some("T"));
    assert_eq!(req.username.as_deref(), Some("bob"));
    assert_eq!(req.msg_type, Some(MsgType::Embed2));

    let absent = request("hi", None, None, None);
    assert_eq!(absent.msg_type, None);

    let unknown = request("hi", None, None, Some("fancy"));
    assert_eq!(unknown.msg_type, None);
}

#[test]
fn handle_requires_a_non_empty_token() {
    assert!(DeliveryHandle::new(1, 2, String::new()).is_none());
    let h = handle(5, 6, "secret");
    assert_eq!(h.channel_id, 5);
    assert_eq!(h.webhook_id, 6);
    assert_eq!(h.token, "secret");
}

#[test]
fn render_simple_keeps_text_and_override_name() {
    let req = request("hi", None, Some("bob"), Some("Simple"));
    match render(&req) {
        Some(RenderedPayload::SimpleMessage { username, content }) => {
            assert_eq!(username.as_deref(), Some("bob"));
            assert_eq!(content, "hi");
        }
        other => panic!("wrong shape: {:?}", other.is_some()),
    }
}

#[test]
fn render_channel_embed_carries_description_title_author() {
    let req = request("body", Some("head"), Some("alice"), Some("Embed"));
    match render(&req) {
        Some(RenderedPayload::ChannelEmbed { description, title, author_name }) => {
            assert_eq!(description, "body");
            assert_eq!(title.as_deref(), Some("head"));
            assert_eq!(author_name.as_deref(), Some("alice"));
        }
        _ => panic!("wrong shape"),
    }
}

#[test]
fn render_handle_embed_carries_description_and_title() {
    let req = request("hi", Some("T"), None, Some("Embed2"));
    match render(&req) {
        Some(RenderedPayload::HandleEmbed { username, description, title }) => {
            assert_eq!(username, None);
            assert_eq!(description, "hi");
            assert_eq!(title.as_deref(), Some("T"));
        }
        _ => panic!("wrong shape"),
    }
}

#[test]
fn render_unknown_format_is_a_noop() {
    assert!(render(&request("hi", None, None, None)).is_none());
    assert!(render(&request("hi", None, None, Some("nope"))).is_none());
}

#[test]
fn no_binding_means_unavailable_and_no_call() {
    for raw in [None, Some("Simple"), Some("Embed"), Some("Embed2"), Some("junk")] {
        let req = request("hi", Some("T"), Some("bob"), raw);
        let plan = plan_request(&None, &req, EmbedRouting::FixedChannel);
        assert!(matches!(plan, RequestPlan::Unavailable));
        assert_eq!(status_without_dispatch(&plan), Some(STATUS_SERVICE_UNAVAILABLE));
    }
    assert_eq!(unavailable_body(), "Please first setup a Webhook in the Group");
}

#[test]
fn unknown_format_with_binding_is_success_without_call() {
    let binding = Some(handle(1, 2, "tok"));
    for raw in [None, Some("simple"), Some("Embed3"), Some("")] {
        let req = request("hi", None, None, raw);
        let plan = plan_request(&binding, &req, EmbedRouting::FixedChannel);
        assert!(matches!(plan, RequestPlan::NoDelivery));
        assert_eq!(status_without_dispatch(&plan), Some(STATUS_NO_CONTENT));
    }
}

#[test]
fn simple_delivery_goes_through_the_handle() {
    let binding = Some(handle(1, 2, "tok"));
    let req = request("hi", None, Some("bob"), Some("Simple"));
    match plan_request(&binding, &req, EmbedRouting::FixedChannel) {
        RequestPlan::Deliver { target, payload } => {
            match target {
                DispatchTarget::ViaHandle(h) => {
                    assert_eq!(h.channel_id, 1);
                    assert_eq!(h.webhook_id, 2);
                    assert_eq!(h.token, "tok");
                }
                _ => panic!("expected the bound handle"),
            }
            match payload {
                RenderedPayload::SimpleMessage { username, content } => {
                    assert_eq!(username.as_deref(), Some("bob"));
                    assert_eq!(content, "hi");
                }
                _ => panic!("expected a plain message"),
            }
        }
        _ => panic!("expected a delivery"),
    }
}

#[test]
fn embed_via_handle_carries_one_embed() {
    let binding = Some(handle(1, 2, "tok"));
    let req = request("hi", Some("T"), None, Some("Embed2"));
    match plan_request(&binding, &req, EmbedRouting::FixedChannel) {
        RequestPlan::Deliver { target, payload } => {
            assert!(matches!(target, DispatchTarget::ViaHandle(_)));
            match payload {
                RenderedPayload::HandleEmbed { description, title, .. } => {
                    assert_eq!(description, "hi");
                    assert_eq!(title.as_deref(), Some("T"));
                }
                _ => panic!("expected a handle embed"),
            }
        }
        _ => panic!("expected a delivery"),
    }
}

#[test]
fn channel_embed_targets_the_fixed_channel_whatever_is_bound() {
    let req = request("hi", Some("T"), Some("bob"), Some("Embed"));
    for binding in [Some(handle(1, 2, "a")), Some(handle(999, 7, "b"))] {
        match plan_request(&binding, &req, EmbedRouting::FixedChannel) {
            RequestPlan::Deliver { target, .. } => match target {
                DispatchTarget::ToChannel(id) => assert_eq!(id, BROADCAST_CHANNEL_ID),
                _ => panic!("expected a channel post"),
            },
            _ => panic!("expected a delivery"),
        }
    }
    // With nothing bound the handler answers 503 before rendering, so the
    // fixed-channel path is gated behind a binding even though its target
    // ignores the binding.
    let plan = plan_request(&None, &req, EmbedRouting::FixedChannel);
    assert!(matches!(plan, RequestPlan::Unavailable));
}

#[test]
fn channel_embed_can_be_routed_to_the_bound_channel_instead() {
    let binding = Some(handle(424242, 7, "tok"));
    let req = request("hi", None, None, Some("Embed"));
    match plan_request(&binding, &req, EmbedRouting::BoundHandle) {
        RequestPlan::Deliver { target, .. } => match target {
            DispatchTarget::ToChannel(id) => assert_eq!(id, 424242),
            _ => panic!("expected a channel post"),
        },
        _ => panic!("expected a delivery"),
    }
}

#[test]
fn store_starts_empty_and_reports_unavailable() {
    let store = BindingStore::new();
    assert!(store.get().is_none());
    let req = request("hi", None, None, Some("Simple"));
    let plan = plan_against_store(&store, &req, EmbedRouting::FixedChannel);
    assert!(matches!(plan, RequestPlan::Unavailable));
}

#[test]
fn store_set_then_get_returns_the_full_handle() {
    let store = BindingStore::new();
    store.set(handle(10, 20, "tok"));
    let got = store.get().expect("a binding was just set");
    assert_eq!(got.channel_id, 10);
    assert_eq!(got.webhook_id, 20);
    assert_eq!(got.token, "tok");
}

#[test]
fn overlapping_reads_see_one_consistent_value() {
    let store = BindingStore::new();
    let (a, b) = store.overlapping_reads_agree();
    assert!(a.is_none() && b.is_none());

    store.set(handle(1, 2, "tok"));
    let (a, b) = store.overlapping_reads_agree();
    let a = a.expect("bound");
    let b = b.expect("bound");
    assert_eq!(a.channel_id, b.channel_id);
    assert_eq!(a.webhook_id, b.webhook_id);
    assert_eq!(a.token, b.token);
}

#[test]
fn dispatch_failure_maps_to_server_error_and_serving_goes_on() {
    let ok: Result<(), DeliveryError> = Ok(());
    assert_eq!(status_after_dispatch(&ok), STATUS_NO_CONTENT);

    let failed: Result<(), DeliveryError> =
        Err(DeliveryError { message: "network unreachable".to_string() });
    assert_eq!(status_after_dispatch(&failed), STATUS_SERVER_ERROR);

    // The failure is confined to its request: the next one plans normally.
    let store = BindingStore::new();
    store.set(handle(1, 2, "tok"));
    let req = request("hi", None, None, Some("Simple"));
    let plan = plan_against_store(&store, &req, EmbedRouting::FixedChannel);
    assert!(matches!(plan, RequestPlan::Deliver { .. }));
}

#[test]
fn dispatch_failure_is_server_error_on_every_format_path() {
    for raw in ["Simple", "Embed", "Embed2"] {
        let binding = Some(handle(1, 2, "tok"));
        let req = request("hi", Some("T"), Some("bob"), Some(raw));
        let plan = plan_request(&binding, &req, EmbedRouting::FixedChannel);
        assert!(matches!(plan, RequestPlan::Deliver { .. }));
        let failed: Result<(), DeliveryError> =
            Err(DeliveryError { message: "boom".to_string() });
        assert_eq!(status_after_dispatch(&failed), STATUS_SERVER_ERROR);
    }
}

#[test]
fn rebind_keeps_only_the_second_handle() {
    let mut slot = BindingSlot::new();
    let first = apply_bind(&mut slot, Ok(handle(1, 11, "one")));
    assert!(matches!(first, BindReply::Bound { .. }));
    let second = apply_bind(&mut slot, Ok(handle(2, 22, "two")));
    assert!(matches!(second, BindReply::Bound { .. }));

    let current = slot.get().expect("bound twice");
    assert_eq!(current.channel_id, 2);
    assert_eq!(current.webhook_id, 22);
    assert_eq!(current.token, "two");

    let store = BindingStore::new();
    store.set(handle(1, 11, "one"));
    store.set(handle(2, 22, "two"));
    let got = store.get().expect("bound twice");
    assert_eq!(got.channel_id, 2);
    assert_eq!(got.token, "two");
}

#[test]
fn failed_bind_leaves_the_binding_untouched() {
    let mut slot = BindingSlot::new();
    apply_bind(&mut slot, Ok(handle(1, 11, "one")));
    let reply = apply_bind(
        &mut slot,
        Err(BindingCreationError { message: "Missing Access".to_string() }),
    );
    match reply {
        BindReply::Failed { message } => {
            assert_eq!(message, "Error creating webhook: Missing Access");
        }
        _ => panic!("expected a failure reply"),
    }
    let current = slot.get().expect("the earlier binding stays");
    assert_eq!(current.channel_id, 1);
    assert_eq!(current.token, "one");

    let store = BindingStore::new();
    store.set(handle(1, 11, "one"));
    let reply = apply_bind_shared(
        &store,
        Err(BindingCreationError { message: "nope".to_string() }),
    );
    assert!(matches!(reply, BindReply::Failed { .. }));
    assert_eq!(store.get().expect("still bound").channel_id, 1);
}

#[test]
fn successful_shared_bind_acknowledges_the_channel() {
    let store = BindingStore::new();
    let reply = apply_bind_shared(&store, Ok(handle(42, 7, "tok")));
    match reply {
        BindReply::Bound { acknowledgement } => {
            assert_eq!(acknowledgement, "Channel set to <#42>");
        }
        _ => panic!("expected an acknowledgement"),
    }
    assert_eq!(store.get().expect("bound").channel_id, 42);
}

#[test]
fn reply_texts_are_exact() {
    assert_eq!(bind_ack_text(42), "Channel set to <#42>");
    assert_eq!(
        bind_error_text(&BindingCreationError { message: "Missing Access".to_string() }),
        "Error creating webhook: Missing Access"
    );
    assert_eq!(ping_reply(), "Pong!");
    assert_eq!(
        age_reply("bob", "2020-01-01 00:00:00 UTC"),
        "bob's account was created at 2020-01-01 00:00:00 UTC"
    );
}

#[test]
fn decimal_rendering_is_exact() {
    assert_eq!(u64_to_decimal(0), "0");
    assert_eq!(u64_to_decimal(7), "7");
    assert_eq!(u64_to_decimal(10), "10");
    assert_eq!(u64_to_decimal(90210), "90210");
    assert_eq!(u64_to_decimal(BROADCAST_CHANNEL_ID), "1166665522448961559");
    assert_eq!(u64_to_decimal(u64::MAX), "18446744073709551615");
}

#[test]
fn health_is_plain_success() {
    assert_eq!(health_status(), STATUS_OK);
}
