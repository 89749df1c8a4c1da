use rhi::address::ListingAddress;
use rhi::dispatch::{handle_event, DvmAction};
use rhi::event::NostrEventAdapter;
use rhi::message::{
    Envelope, EnvelopeError, KindTable, MessageType, OutboundBody, Payload, TagName,
    TradeListingDvmError,
};
use rhi::state::TradeListingState;
use rhi::status::{OrderStatus, TradeListingStateError};
use rhi::validation::{finish_listing_validation, select_latest, ListingCandidate, ListingFetch, ListingLookup};

const SELLER: &str = "5e11e7000000000000000000000000000000000000000000000000000000000a";
const BUYER: &str = "b0e7000000000000000000000000000000000000000000000000000000000b0b";
const DAEMON: &str = "da3000000000000000000000000000000000000000000000000000000000000d";
const OTHER: &str = "0e0000000000000000000000000000000000000000000000000000000000000e";

fn kinds() -> KindTable {
    KindTable::new((0..16u16).map(|i| 5900 + i).collect()).unwrap()
}

fn addr() -> String {
    format!("30402:{SELLER}:listing-1")
}

fn tags(order_id: Option<&str>) -> Vec<Vec<String>> {
    let mut t = vec![
        vec!["p".to_string(), DAEMON.to_string()],
        vec!["a".to_string(), addr()],
    ];
    if let Some(id) = order_id {
        t.push(vec!["d".to_string(), id.to_string()]);
    }
    t
}

fn event(id: &str, author: &str, mt: MessageType, t: &[Vec<String>]) -> NostrEventAdapter {
    NostrEventAdapter::new(
        id.to_string(),
        author.to_string(),
        String::new(),
        kinds().kind(mt),
        1_700_000_000,
        t.to_vec(),
        String::new(),
    )
}

fn envelope(mt: MessageType, order_id: Option<&str>, payload: Payload) -> Result<Envelope, String> {
    Ok(Envelope {
        message_type: mt,
        listing_addr: addr(),
        order_id: order_id.map(|s| s.to_string()),
        payload: Ok(payload),
    })
}

fn send(
    state: &mut TradeListingState,
    id: &str,
    author: &str,
    mt: MessageType,
    payload: Payload,
) -> Result<DvmAction, TradeListingDvmError> {
    let t = tags(Some("ord-1"));
    let ev = event(id, author, mt, &t);
    handle_event(state, &ev, &t, DAEMON, envelope(mt, Some("ord-1"), payload), &kinds())
}

fn order_request() -> Payload {
    Payload::OrderRequest {
        order_id: "ord-1".to_string(),
        listing_addr: addr(),
        buyer_pubkey: BUYER.to_string(),
        seller_pubkey: SELLER.to_string(),
    }
}

fn after_s1() -> TradeListingState {
    let mut state = TradeListingState::new();
    state.mark_listing_validated(&addr());
    let r = send(&mut state, "evt-1", BUYER, MessageType::OrderRequest, order_request());
    assert!(matches!(r, Ok(DvmAction::Send(_))));
    state
}

fn status(state: &TradeListingState) -> OrderStatus {
    state.get_order("ord-1").unwrap().status
}

#[test]
fn happy_path_order_request() {
    let mut state = TradeListingState::new();
    state.mark_listing_validated(&addr());
    let r = send(&mut state, "evt-1", BUYER, MessageType::OrderRequest, order_request());
    let out = match r {
        Ok(DvmAction::Send(o)) => o,
        other => panic!("unexpected {other:?}"),
    };
    assert_eq!(out.recipient, SELLER);
    assert_eq!(out.message_type, MessageType::OrderRequest);
    assert_eq!(out.listing_addr, addr());
    assert_eq!(out.order_id.as_deref(), Some("ord-1"));
    assert_eq!(out.kind(&kinds()), kinds().kind(MessageType::OrderRequest));
    assert_eq!(
        out.tags(),
        vec![
            vec!["p".to_string(), SELLER.to_string()],
            vec!["a".to_string(), addr()],
            vec!["d".to_string(), "ord-1".to_string()],
        ]
    );
    let order = state.get_order("ord-1").unwrap();
    assert_eq!(order.status, OrderStatus::Requested);
    assert_eq!(order.buyer_pubkey, BUYER);
    assert_eq!(order.seller_pubkey, SELLER);
    assert_eq!(order.seen_event_ids, vec!["evt-1".to_string()]);
}

#[test]
fn replayed_event_changes_nothing() {
    let mut state = after_s1();
    let r = send(&mut state, "evt-1", BUYER, MessageType::OrderRequest, order_request());
    assert!(matches!(r, Ok(DvmAction::Nothing)));
    assert_eq!(status(&state), OrderStatus::Requested);
    assert_eq!(state.get_order("ord-1").unwrap().seen_event_ids.len(), 1);
}

#[test]
fn declined_order_rejects_fulfillment() {
    let mut state = after_s1();
    let r = send(&mut state, "evt-2", SELLER, MessageType::OrderResponse, Payload::OrderResponse { accepted: false });
    match r {
        Ok(DvmAction::Send(o)) => assert_eq!(o.recipient, BUYER),
        other => panic!("unexpected {other:?}"),
    }
    assert_eq!(status(&state), OrderStatus::Declined);
    let r = send(&mut state, "evt-3", SELLER, MessageType::FulfillmentUpdate, Payload::FulfillmentUpdate);
    let err = r.unwrap_err();
    assert_eq!(
        err,
        TradeListingDvmError::State(TradeListingStateError::InvalidTransition {
            from: OrderStatus::Declined,
            to: OrderStatus::Fulfilled,
        })
    );
    assert!(err.wants_feedback());
    assert_eq!(status(&state), OrderStatus::Declined);
    assert_eq!(state.get_order("ord-1").unwrap().seen_event_ids.len(), 2);
}

#[test]
fn buyer_cannot_respond_for_seller() {
    let mut state = after_s1();
    let r = send(&mut state, "evt-2", BUYER, MessageType::OrderResponse, Payload::OrderResponse { accepted: true });
    let err = r.unwrap_err();
    assert_eq!(err, TradeListingDvmError::Unauthorized);
    assert!(err.wants_feedback());
    assert_eq!(status(&state), OrderStatus::Requested);
}

#[test]
fn cancel_from_either_side() {
    let mut state = after_s1();
    let r = send(&mut state, "evt-2", BUYER, MessageType::Cancel, Payload::Cancel);
    match r {
        Ok(DvmAction::Send(o)) => assert_eq!(o.recipient, SELLER),
        other => panic!("unexpected {other:?}"),
    }
    assert_eq!(status(&state), OrderStatus::Cancelled);

    let mut fresh = after_s1();
    let r = send(&mut fresh, "evt-2", SELLER, MessageType::Cancel, Payload::Cancel);
    match r {
        Ok(DvmAction::Send(o)) => assert_eq!(o.recipient, BUYER),
        other => panic!("unexpected {other:?}"),
    }
    assert_eq!(status(&fresh), OrderStatus::Cancelled);

    let mut third = after_s1();
    let r = send(&mut third, "evt-2", OTHER, MessageType::Cancel, Payload::Cancel);
    assert_eq!(r.unwrap_err(), TradeListingDvmError::Unauthorized);
}

#[test]
fn listing_validation_by_address() {
    let mut state = TradeListingState::new();
    let t = tags(None);
    let ev = event("evt-v", BUYER, MessageType::ListingValidateRequest, &t);
    let env = envelope(
        MessageType::ListingValidateRequest,
        None,
        Payload::ListingValidateRequest { listing_event_id: None },
    );
    let request = match handle_event(&mut state, &ev, &t, DAEMON, env, &kinds()) {
        Ok(DvmAction::ValidateListing(v)) => v,
        other => panic!("unexpected {other:?}"),
    };
    assert_eq!(
        request.fetch(),
        ListingFetch::ByAddress {
            kind: 30402,
            author: SELLER.to_string(),
            identifier: "listing-1".to_string(),
        }
    );
    let found = [ListingCandidate { kind: 30402, created_at: 10 }];
    assert_eq!(select_latest(&found, 30402), Some(0));
    let out = finish_listing_validation(&mut state, &request, ListingLookup::Valid);
    assert!(state.is_listing_validated(&addr()));
    assert_eq!(out.recipient, BUYER);
    assert_eq!(out.message_type, MessageType::ListingValidateResult);
    assert_eq!(out.order_id, None);
    assert_eq!(out.tags().len(), 2);
    match out.body {
        OutboundBody::ValidateResult { valid, errors } => {
            assert!(valid);
            assert!(errors.is_empty());
        }
        OutboundBody::Forward => panic!("expected a validation result"),
    }
}

#[test]
fn duplicate_dispatch_commits_once() {
    let mut state = after_s1();
    let first = send(&mut state, "evt-2", SELLER, MessageType::OrderResponse, Payload::OrderResponse { accepted: true });
    let second = send(&mut state, "evt-2", SELLER, MessageType::OrderResponse, Payload::OrderResponse { accepted: true });
    assert!(matches!(first, Ok(DvmAction::Send(_))));
    assert!(matches!(second, Ok(DvmAction::Nothing)));
    assert_eq!(status(&state), OrderStatus::Accepted);
    assert_eq!(state.get_order("ord-1").unwrap().seen_event_ids.len(), 2);
}

#[test]
fn order_request_needs_validated_listing() {
    let mut state = TradeListingState::new();
    let r = send(&mut state, "evt-1", BUYER, MessageType::OrderRequest, order_request());
    assert_eq!(r.unwrap_err(), TradeListingDvmError::ListingNotValidated);
    assert!(!state.order_exists("ord-1"));
}

#[test]
fn order_request_from_other_buyer_is_unauthorized() {
    let mut state = TradeListingState::new();
    state.mark_listing_validated(&addr());
    let r = send(&mut state, "evt-1", OTHER, MessageType::OrderRequest, order_request());
    assert_eq!(r.unwrap_err(), TradeListingDvmError::Unauthorized);
}

#[test]
fn order_request_with_other_order_id_is_invalid() {
    let mut state = TradeListingState::new();
    state.mark_listing_validated(&addr());
    let payload = Payload::OrderRequest {
        order_id: "ord-2".to_string(),
        listing_addr: addr(),
        buyer_pubkey: BUYER.to_string(),
        seller_pubkey: SELLER.to_string(),
    };
    let r = send(&mut state, "evt-1", BUYER, MessageType::OrderRequest, payload);
    assert_eq!(r.unwrap_err(), TradeListingDvmError::InvalidOrder);
}

#[test]
fn message_for_unknown_order_is_missing_order() {
    let mut state = TradeListingState::new();
    let r = send(&mut state, "evt-2", SELLER, MessageType::OrderResponse, Payload::OrderResponse { accepted: true });
    assert_eq!(r.unwrap_err(), TradeListingDvmError::State(TradeListingStateError::MissingOrder));
}

#[test]
fn full_buyer_flow_to_completion() {
    let mut state = after_s1();
    assert!(send(&mut state, "e2", BUYER, MessageType::Question, Payload::Question { order_id: None }).is_ok());
    assert_eq!(status(&state), OrderStatus::Questioned);
    assert!(send(&mut state, "e3", SELLER, MessageType::Answer, Payload::Answer { order_id: Some("ord-1".into()) }).is_ok());
    assert_eq!(status(&state), OrderStatus::Requested);
    assert!(send(&mut state, "e4", BUYER, MessageType::DiscountRequest, Payload::DiscountRequest { order_id: "ord-1".into() }).is_ok());
    assert_eq!(status(&state), OrderStatus::Requested);
    assert!(send(&mut state, "e5", SELLER, MessageType::DiscountOffer, Payload::DiscountOffer { order_id: "ord-1".into() }).is_ok());
    assert_eq!(status(&state), OrderStatus::Revised);
    assert!(send(&mut state, "e6", BUYER, MessageType::DiscountAccept, Payload::DiscountDecision { accept: true }).is_ok());
    assert_eq!(status(&state), OrderStatus::Accepted);
    assert!(send(&mut state, "e7", SELLER, MessageType::FulfillmentUpdate, Payload::FulfillmentUpdate).is_ok());
    assert_eq!(status(&state), OrderStatus::Fulfilled);
    assert!(send(&mut state, "e8", BUYER, MessageType::Receipt, Payload::Receipt).is_ok());
    assert_eq!(status(&state), OrderStatus::Completed);
    assert_eq!(state.get_order("ord-1").unwrap().seen_event_ids.len(), 8);
}

#[test]
fn revision_responses_must_agree_with_type() {
    let mut state = after_s1();
    assert!(send(&mut state, "e2", SELLER, MessageType::OrderRevision, Payload::OrderRevision { order_id: "ord-1".into() }).is_ok());
    assert_eq!(status(&state), OrderStatus::Revised);
    let r = send(&mut state, "e3", BUYER, MessageType::OrderRevisionAccept, Payload::OrderRevisionResponse { accepted: false });
    assert_eq!(r.unwrap_err(), TradeListingDvmError::InvalidOrder);
    let r = send(&mut state, "e4", BUYER, MessageType::OrderRevisionDecline, Payload::OrderRevisionResponse { accepted: false });
    assert!(r.is_ok());
    assert_eq!(status(&state), OrderStatus::Declined);
}

#[test]
fn discount_decline_needs_decline_payload() {
    let mut state = after_s1();
    let r = send(&mut state, "e2", BUYER, MessageType::DiscountDecline, Payload::DiscountDecision { accept: true });
    assert_eq!(r.unwrap_err(), TradeListingDvmError::InvalidOrder);
    let r = send(&mut state, "e3", BUYER, MessageType::DiscountDecline, Payload::DiscountDecision { accept: false });
    assert!(r.is_ok());
    assert_eq!(status(&state), OrderStatus::Requested);
}

#[test]
fn revision_naming_other_order_is_invalid() {
    let mut state = after_s1();
    let r = send(&mut state, "e2", SELLER, MessageType::OrderRevision, Payload::OrderRevision { order_id: "ord-9".into() });
    assert_eq!(r.unwrap_err(), TradeListingDvmError::InvalidOrder);
}

#[test]
fn preamble_errors_in_order() {
    let mut state = after_s1();
    let k = kinds();
    let t = tags(Some("ord-1"));
    let resp = || envelope(MessageType::OrderResponse, Some("ord-1"), Payload::OrderResponse { accepted: true });

    let mut ev = NostrEventAdapter::new("x".into(), SELLER.into(), String::new(), 1, 0, t.clone(), String::new());
    assert_eq!(handle_event(&mut state, &ev, &t, DAEMON, resp(), &k).unwrap_err(), TradeListingDvmError::UnsupportedKind);
    assert!(!TradeListingDvmError::UnsupportedKind.wants_feedback());

    ev = event("x", DAEMON, MessageType::OrderResponse, &t);
    assert!(matches!(handle_event(&mut state, &ev, &t, DAEMON, resp(), &k), Ok(DvmAction::Nothing)));

    let no_p = vec![vec!["a".to_string(), addr()]];
    ev = event("x", SELLER, MessageType::OrderResponse, &no_p);
    let err = handle_event(&mut state, &ev, &no_p, DAEMON, resp(), &k).unwrap_err();
    assert_eq!(err, TradeListingDvmError::MissingRecipient);
    assert!(!err.wants_feedback());

    ev = event("x", SELLER, MessageType::OrderResponse, &t);
    assert_eq!(
        handle_event(&mut state, &ev, &t, DAEMON, Err("bad json".into()), &k).unwrap_err(),
        TradeListingDvmError::InvalidEnvelope(EnvelopeError::Malformed("bad json".into()))
    );
    assert_eq!(
        handle_event(&mut state, &ev, &t, DAEMON, envelope(MessageType::OrderResponse, None, Payload::OrderResponse { accepted: true }), &k).unwrap_err(),
        TradeListingDvmError::InvalidEnvelope(EnvelopeError::OrderIdMismatch)
    );
    assert_eq!(
        handle_event(&mut state, &ev, &t, DAEMON, envelope(MessageType::Receipt, Some("ord-1"), Payload::Receipt), &k).unwrap_err(),
        TradeListingDvmError::TagMismatch(TagName::Kind)
    );
    let no_a = vec![vec!["p".to_string(), DAEMON.to_string()], vec!["d".to_string(), "ord-1".to_string()]];
    assert_eq!(
        handle_event(&mut state, &ev, &no_a, DAEMON, resp(), &k).unwrap_err(),
        TradeListingDvmError::MissingTag(TagName::A)
    );
    let other_a = vec![vec!["p".to_string(), DAEMON.to_string()], vec!["a".to_string(), "30402:x:y".to_string()]];
    assert_eq!(
        handle_event(&mut state, &ev, &other_a, DAEMON, resp(), &k).unwrap_err(),
        TradeListingDvmError::TagMismatch(TagName::A)
    );
    let no_d = tags(None);
    assert_eq!(
        handle_event(&mut state, &ev, &no_d, DAEMON, resp(), &k).unwrap_err(),
        TradeListingDvmError::MissingTag(TagName::D)
    );
    let other_d = tags(Some("ord-2"));
    assert_eq!(
        handle_event(&mut state, &ev, &other_d, DAEMON, resp(), &k).unwrap_err(),
        TradeListingDvmError::TagMismatch(TagName::D)
    );
    let bad = Ok(Envelope {
        message_type: MessageType::OrderResponse,
        listing_addr: "30403:x:y".into(),
        order_id: Some("ord-1".into()),
        payload: Ok(Payload::OrderResponse { accepted: true }),
    });
    let bad_a = vec![
        vec!["p".to_string(), DAEMON.to_string()],
        vec!["a".to_string(), "30403:x:y".to_string()],
        vec!["d".to_string(), "ord-1".to_string()],
    ];
    assert_eq!(
        handle_event(&mut state, &ev, &bad_a, DAEMON, bad, &k).unwrap_err(),
        TradeListingDvmError::InvalidListingAddr
    );
    let undecodable = Ok(Envelope {
        message_type: MessageType::OrderResponse,
        listing_addr: addr(),
        order_id: Some("ord-1".into()),
        payload: Err("missing field".into()),
    });
    assert_eq!(
        handle_event(&mut state, &ev, &t, DAEMON, undecodable, &k).unwrap_err(),
        TradeListingDvmError::InvalidPayload("missing field".into())
    );
    assert!(matches!(
        handle_event(&mut state, &ev, &t, DAEMON, envelope(MessageType::OrderResponse, Some("ord-1"), Payload::Receipt), &k),
        Err(TradeListingDvmError::InvalidPayload(_))
    ));
    assert_eq!(status(&state), OrderStatus::Requested);
}

#[test]
fn validation_result_is_ignored() {
    let mut state = TradeListingState::new();
    let t = tags(None);
    let ev = event("r", SELLER, MessageType::ListingValidateResult, &t);
    let env = envelope(MessageType::ListingValidateResult, None, Payload::ListingValidateResult);
    assert!(matches!(handle_event(&mut state, &ev, &t, DAEMON, env, &kinds()), Ok(DvmAction::Nothing)));
}

#[test]
fn explicit_listing_pointer_is_fetched_by_id() {
    let mut state = TradeListingState::new();
    let t = tags(None);
    let ev = event("v", BUYER, MessageType::ListingValidateRequest, &t);
    let env = envelope(
        MessageType::ListingValidateRequest,
        None,
        Payload::ListingValidateRequest { listing_event_id: Some("abc".into()) },
    );
    let request = match handle_event(&mut state, &ev, &t, DAEMON, env, &kinds()) {
        Ok(DvmAction::ValidateListing(v)) => v,
        other => panic!("unexpected {other:?}"),
    };
    assert_eq!(request.fetch(), ListingFetch::ById("abc".into()));
    let out = finish_listing_validation(&mut state, &request, ListingLookup::NotFound);
    assert!(!state.is_listing_validated(&addr()));
    match out.body {
        OutboundBody::ValidateResult { valid, errors } => {
            assert!(!valid);
            assert_eq!(
                errors,
                vec![rhi::message::TradeListingValidationError::ListingEventNotFound { listing_addr: addr() }]
            );
        }
        OutboundBody::Forward => panic!("expected a validation result"),
    }
    let out = finish_listing_validation(&mut state, &request, ListingLookup::FetchFailed);
    match out.body {
        OutboundBody::ValidateResult { valid, errors } => {
            assert!(!valid);
            assert_eq!(
                errors,
                vec![rhi::message::TradeListingValidationError::ListingEventFetchFailed { listing_addr: addr() }]
            );
        }
        OutboundBody::Forward => panic!("expected a validation result"),
    }
}

#[test]
fn latest_candidate_wins() {
    let c = [
        ListingCandidate { kind: 30402, created_at: 5 },
        ListingCandidate { kind: 1, created_at: 50 },
        ListingCandidate { kind: 30402, created_at: 9 },
        ListingCandidate { kind: 30402, created_at: 9 },
        ListingCandidate { kind: 30402, created_at: 3 },
    ];
    assert_eq!(select_latest(&c, 30402), Some(2));
    assert_eq!(select_latest(&c, 7), None);
    assert_eq!(select_latest(&[], 30402), None);
}

#[test]
fn listing_address_from_request_is_parsed() {
    let a = ListingAddress::parse(&addr()).unwrap();
    assert_eq!(a.seller_pubkey, SELLER);
    assert_eq!(a.listing_id, "listing-1");
}
