use vstd::prelude::*;
use crate::address::{ListingAddress, parse_spec};
use crate::event::NostrEventAdapter;
use crate::message::{
    Envelope, EnvelopeError, KindTable,
    payload_fits,
    InboundMessage, MessageType, OutboundBody, OutboundEnvelope, Payload, Reply, TagName,
    TradeListingDvmError, opt_view,
};
use crate::state::{OrderModel, StoreModel, TradeListingState, TradeOrderState};
use crate::status::{OrderStatus, TradeListingStateError, ensure_transition, transition_allowed};
use crate::tags::{first_tag_value, has_tag_value, tag_has_value, tag_value};
use crate::text::{owned, same_text};

verus! {

/// An inbound message, abstractly.
pub struct MessageModel {
    pub event_id: Seq<char>,
    pub author: Seq<char>,
    pub message_type: MessageType,
    pub listing_addr: Seq<char>,
    pub listing_seller: Seq<char>,
    pub order_id: Option<Seq<char>>,
    pub payload: Payload,
}

impl View for InboundMessage {
    type V = MessageModel;

    open spec fn view(&self) -> MessageModel {
        MessageModel {
            event_id: self.event_id@,
            author: self.author@,
            message_type: self.message_type,
            listing_addr: self.listing_addr@,
            listing_seller: self.listing.seller_pubkey@,
            order_id: opt_view(self.order_id),
            payload: self.payload,
        }
    }
}

/// Who may send a message about an existing order.
pub enum Role {
    Buyer,
    Seller,
    Either,
}

pub open spec fn role_of(m: MessageType) -> Role {
    match m {
        MessageType::OrderResponse | MessageType::OrderRevision | MessageType::Answer
        | MessageType::DiscountOffer | MessageType::FulfillmentUpdate => Role::Seller,
        MessageType::Cancel => Role::Either,
        _ => Role::Buyer,
    }
}

/// Revisions and answers must also come for a listing of the order's seller.
pub open spec fn checks_listing_seller(m: MessageType) -> bool {
    m == MessageType::OrderRevision || m == MessageType::Answer
}

/// The sender rule for messages about an existing order.
pub open spec fn authorized(m: MessageModel, o: OrderModel) -> bool {
    match role_of(m.message_type) {
        Role::Buyer => o.buyer == m.author,
        Role::Seller => o.seller == m.author
            && (!checks_listing_seller(m.message_type) || m.listing_seller == o.seller),
        Role::Either => m.author == o.buyer || m.author == o.seller,
    }
}

/// The party that is told of a message about an existing order.
pub open spec fn recipient_of(m: MessageModel, o: OrderModel) -> Seq<char> {
    match role_of(m.message_type) {
        Role::Buyer => o.seller,
        Role::Seller => o.buyer,
        Role::Either => if m.author == o.buyer { o.seller } else { o.buyer },
    }
}

/// A payload that names an order other than the envelope's.
pub open spec fn payload_order_mismatch(p: Payload, order_id: Seq<char>) -> bool {
    match p {
        Payload::OrderRevision { order_id: id } => id@ != order_id,
        Payload::DiscountRequest { order_id: id } => id@ != order_id,
        Payload::DiscountOffer { order_id: id } => id@ != order_id,
        Payload::Question { order_id: id } => id is Some && id->Some_0@ != order_id,
        Payload::Answer { order_id: id } => id is Some && id->Some_0@ != order_id,
        _ => false,
    }
}

/// A decision payload that contradicts its message type.
pub open spec fn payload_conflict(m: MessageType, p: Payload) -> bool {
    match p {
        Payload::OrderRevisionResponse { accepted } => (m == MessageType::OrderRevisionAccept && !accepted)
            || (m == MessageType::OrderRevisionDecline && accepted),
        Payload::DiscountDecision { accept } => (m == MessageType::DiscountAccept && !accept)
            || (m == MessageType::DiscountDecline && accept),
        _ => false,
    }
}

/// The status a message moves its order to; `None` leaves the status as it is.
pub open spec fn target_of(m: MessageType, p: Payload) -> Option<OrderStatus> {
    match m {
        MessageType::OrderResponse => Some(
            if p matches Payload::OrderResponse { accepted: true } {
                OrderStatus::Accepted
            } else {
                OrderStatus::Declined
            },
        ),
        MessageType::OrderRevision => Some(OrderStatus::Revised),
        MessageType::OrderRevisionAccept => Some(OrderStatus::Accepted),
        MessageType::OrderRevisionDecline => Some(OrderStatus::Declined),
        MessageType::Question => Some(OrderStatus::Questioned),
        MessageType::Answer => Some(OrderStatus::Requested),
        MessageType::DiscountOffer => Some(OrderStatus::Revised),
        MessageType::DiscountAccept => Some(OrderStatus::Accepted),
        MessageType::DiscountDecline => Some(OrderStatus::Requested),
        MessageType::Cancel => Some(OrderStatus::Cancelled),
        MessageType::FulfillmentUpdate => Some(OrderStatus::Fulfilled),
        MessageType::Receipt => Some(OrderStatus::Completed),
        _ => None,
    }
}

pub open spec fn next_status(m: MessageType, p: Payload, current: OrderStatus) -> OrderStatus {
    match target_of(m, p) {
        Some(t) => t,
        None => current,
    }
}

pub open spec fn unchanged(s: StoreModel, e: TradeListingDvmError) -> (StoreModel, Result<Option<Reply>, TradeListingDvmError>) {
    (s, Err(e))
}

/// What a message about an existing order does to the store, and what it answers.
pub open spec fn order_message_step(s: StoreModel, m: MessageModel) -> (StoreModel, Result<Option<Reply>, TradeListingDvmError>) {
    match m.order_id {
        None => unchanged(s, TradeListingDvmError::MissingTag(TagName::D)),
        Some(id) => if payload_order_mismatch(m.payload, id) {
            unchanged(s, TradeListingDvmError::InvalidOrder)
        } else if s.orders.contains_key(id) && s.orders[id].seen.contains(m.event_id) {
            (s, Ok(None))
        } else if !s.orders.contains_key(id) {
            unchanged(s, TradeListingDvmError::State(TradeListingStateError::MissingOrder))
        } else if !authorized(m, s.orders[id]) {
            unchanged(s, TradeListingDvmError::Unauthorized)
        } else if payload_conflict(m.message_type, m.payload) {
            unchanged(s, TradeListingDvmError::InvalidOrder)
        } else {
            let o = s.orders[id];
            let next = next_status(m.message_type, m.payload, o.status);
            if !transition_allowed(o.status, next) {
                unchanged(
                    s,
                    TradeListingDvmError::State(
                        TradeListingStateError::InvalidTransition { from: o.status, to: next },
                    ),
                )
            } else {
                (
                    StoreModel {
                        orders: s.orders.insert(
                            id,
                            OrderModel { status: next, seen: o.seen.insert(m.event_id), ..o },
                        ),
                        ..s
                    },
                    Ok(Some(Reply {
                        recipient: recipient_of(m, o),
                        message_type: m.message_type,
                        listing_addr: m.listing_addr,
                        order_id: Some(id),
                    })),
                )
            }
        },
    }
}

/// What an order request does to the store, and what it answers.
pub open spec fn order_request_step(s: StoreModel, m: MessageModel) -> (StoreModel, Result<Option<Reply>, TradeListingDvmError>) {
    match m.order_id {
        None => unchanged(s, TradeListingDvmError::MissingTag(TagName::D)),
        Some(id) => match m.payload {
            Payload::OrderRequest { order_id, listing_addr, buyer_pubkey, seller_pubkey } => {
                if order_id@ != id || listing_addr@ != m.listing_addr {
                    unchanged(s, TradeListingDvmError::InvalidOrder)
                } else if !s.validated.contains(listing_addr@) {
                    unchanged(s, TradeListingDvmError::ListingNotValidated)
                } else if s.orders.contains_key(id) {
                    (s, Ok(None))
                } else if buyer_pubkey@ != m.author || seller_pubkey@ != m.listing_seller {
                    unchanged(s, TradeListingDvmError::Unauthorized)
                } else {
                    (
                        StoreModel {
                            orders: s.orders.insert(
                                id,
                                OrderModel {
                                    order_id: id,
                                    listing_addr: listing_addr@,
                                    buyer: buyer_pubkey@,
                                    seller: seller_pubkey@,
                                    status: OrderStatus::Requested,
                                    seen: Set::<Seq<char>>::empty().insert(m.event_id),
                                },
                            ),
                            ..s
                        },
                        Ok(Some(Reply {
                            recipient: seller_pubkey@,
                            message_type: MessageType::OrderRequest,
                            listing_addr: m.listing_addr,
                            order_id: Some(id),
                        })),
                    )
                }
            },
            _ => unchanged(s, TradeListingDvmError::InvalidOrder),
        },
    }
}

/// What any order-scoped message does.
pub open spec fn message_step(s: StoreModel, m: MessageModel) -> (StoreModel, Result<Option<Reply>, TradeListingDvmError>) {
    if m.message_type == MessageType::OrderRequest {
        order_request_step(s, m)
    } else {
        order_message_step(s, m)
    }
}

pub open spec fn reply_view(r: Result<Option<OutboundEnvelope>, TradeListingDvmError>) -> Result<Option<Reply>, TradeListingDvmError> {
    match r {
        Ok(Some(o)) => Ok(Some(o@)),
        Ok(None) => Ok(None),
        Err(e) => Err(e),
    }
}

/// An order-scoped message type.
pub open spec fn is_order_message(m: MessageType) -> bool {
    m.requires_order_id_spec()
}

/// A copy of a string that the verifier knows to be equal.
fn copy_text(s: &String) -> (r: String)
    ensures
        r@ == s@,
{
    s.clone()
}

fn role(m: MessageType) -> (r: Role)
    ensures
        r == role_of(m),
{
    match m {
        MessageType::OrderResponse | MessageType::OrderRevision | MessageType::Answer
        | MessageType::DiscountOffer | MessageType::FulfillmentUpdate => Role::Seller,
        MessageType::Cancel => Role::Either,
        _ => Role::Buyer,
    }
}

fn is_authorized(m: &InboundMessage, o: &TradeOrderState) -> (r: bool)
    ensures
        r == authorized(m@, o@),
{
    let author = m.author.as_str();
    match role(m.message_type) {
        Role::Buyer => same_text(o.buyer_pubkey.as_str(), author),
        Role::Seller => {
            let checks = matches!(m.message_type, MessageType::OrderRevision | MessageType::Answer);
            same_text(o.seller_pubkey.as_str(), author) && (!checks || same_text(
                m.listing.seller_pubkey.as_str(),
                o.seller_pubkey.as_str(),
            ))
        },
        Role::Either => same_text(author, o.buyer_pubkey.as_str()) || same_text(
            author,
            o.seller_pubkey.as_str(),
        ),
    }
}

fn recipient(m: &InboundMessage, o: &TradeOrderState) -> (r: String)
    ensures
        r@ == recipient_of(m@, o@),
{
    match role(m.message_type) {
        Role::Buyer => copy_text(&o.seller_pubkey),
        Role::Seller => copy_text(&o.buyer_pubkey),
        Role::Either => if same_text(m.author.as_str(), o.buyer_pubkey.as_str()) {
            copy_text(&o.seller_pubkey)
        } else {
            copy_text(&o.buyer_pubkey)
        },
    }
}

fn conflicts(m: MessageType, p: &Payload) -> (r: bool)
    ensures
        r == payload_conflict(m, *p),
{
    match p {
        Payload::OrderRevisionResponse { accepted } => (matches!(m, MessageType::OrderRevisionAccept) && !*accepted)
            || (matches!(m, MessageType::OrderRevisionDecline) && *accepted),
        Payload::DiscountDecision { accept } => (matches!(m, MessageType::DiscountAccept) && !*accept)
            || (matches!(m, MessageType::DiscountDecline) && *accept),
        _ => false,
    }
}

/// The common part of every handler for an existing order: replay check,
/// lookup, sender rule, payload decision check, transition, commit, reply.
fn apply_order_step(
    state: &mut TradeListingState,
    msg: &InboundMessage,
    order_id: &String,
    target: Option<OrderStatus>,
) -> (r: Result<Option<OutboundEnvelope>, TradeListingDvmError>)
    requires
        old(state).well_formed(),
        msg.order_id == Some(*order_id),
        !payload_order_mismatch(msg.payload, order_id@),
        target == target_of(msg.message_type, msg.payload),
        msg.message_type != MessageType::OrderRequest,
    ensures
        final(state).well_formed(),
        (final(state)@, reply_view(r)) == order_message_step(old(state)@, msg@),
{
    if state.is_event_seen(order_id.as_str(), msg.event_id.as_str()) {
        return Ok(None);
    }
    let (current, to, reply_to) = match state.get_order(order_id.as_str()) {
        None => {
            return Err(TradeListingDvmError::State(TradeListingStateError::MissingOrder));
        },
        Some(o) => {
            if !is_authorized(msg, o) {
                return Err(TradeListingDvmError::Unauthorized);
            }
            if conflicts(msg.message_type, &msg.payload) {
                return Err(TradeListingDvmError::InvalidOrder);
            }
            let to = match target {
                Some(t) => t,
                None => o.status,
            };
            (o.status, to, recipient(msg, o))
        },
    };
    match ensure_transition(current, to) {
        Ok(()) => {},
        Err(e) => {
            return Err(TradeListingDvmError::State(e));
        },
    }
    state.record_step(order_id.as_str(), to, msg.event_id.as_str());
    Ok(Some(OutboundEnvelope {
        recipient: reply_to,
        message_type: msg.message_type,
        listing_addr: copy_text(&msg.listing_addr),
        order_id: Some(copy_text(order_id)),
        body: OutboundBody::Forward,
    }))
}

/// The envelope's order id, required by every order-scoped message.
fn require_order_id(msg: &InboundMessage) -> (r: Result<&String, TradeListingDvmError>)
    ensures
        match r {
            Ok(id) => msg.order_id == Some(*id),
            Err(e) => msg.order_id is None && e == TradeListingDvmError::MissingTag(TagName::D),
        },
{
    match &msg.order_id {
        Some(id) => Ok(id),
        None => Err(TradeListingDvmError::MissingTag(TagName::D)),
    }
}

/// Opens a new order for a validated listing; a repeated request is a silent success.
fn handle_order_request(state: &mut TradeListingState, msg: &InboundMessage) -> (r: Result<Option<OutboundEnvelope>, TradeListingDvmError>)
    requires
        old(state).well_formed(),
        msg.message_type == MessageType::OrderRequest,
    ensures
        final(state).well_formed(),
        (final(state)@, reply_view(r)) == order_request_step(old(state)@, msg@),
{
    let order_id = require_order_id(msg)?;
    let (p_order_id, p_listing_addr, p_buyer, p_seller) = match &msg.payload {
        Payload::OrderRequest { order_id, listing_addr, buyer_pubkey, seller_pubkey } => (
            order_id,
            listing_addr,
            buyer_pubkey,
            seller_pubkey,
        ),
        _ => {
            return Err(TradeListingDvmError::InvalidOrder);
        },
    };
    if !same_text(p_order_id.as_str(), order_id.as_str()) || !same_text(
        p_listing_addr.as_str(),
        msg.listing_addr.as_str(),
    ) {
        return Err(TradeListingDvmError::InvalidOrder);
    }
    if !state.is_listing_validated(p_listing_addr.as_str()) {
        return Err(TradeListingDvmError::ListingNotValidated);
    }
    if state.order_exists(order_id.as_str()) {
        return Ok(None);
    }
    if !same_text(p_buyer.as_str(), msg.author.as_str()) || !same_text(
        p_seller.as_str(),
        msg.listing.seller_pubkey.as_str(),
    ) {
        return Err(TradeListingDvmError::Unauthorized);
    }
    let mut seen: Vec<String> = Vec::new();
    seen.push(copy_text(&msg.event_id));
    let order = TradeOrderState {
        order_id: copy_text(order_id),
        listing_addr: copy_text(p_listing_addr),
        buyer_pubkey: copy_text(p_buyer),
        seller_pubkey: copy_text(p_seller),
        status: OrderStatus::Requested,
        seen_event_ids: seen,
    };
    proof {
        assert(order@.seen =~= Set::<Seq<char>>::empty().insert(msg.event_id@)) by {
            assert(order.seen_event_ids@[0]@ == msg.event_id@);
        }
    }
    state.insert_order(order);
    Ok(Some(OutboundEnvelope {
        recipient: copy_text(p_seller),
        message_type: MessageType::OrderRequest,
        listing_addr: copy_text(&msg.listing_addr),
        order_id: Some(copy_text(order_id)),
        body: OutboundBody::Forward,
    }))
}

/// The seller accepts or declines the order.
fn handle_order_response(state: &mut TradeListingState, msg: &InboundMessage) -> (r: Result<Option<OutboundEnvelope>, TradeListingDvmError>)
    requires
        old(state).well_formed(),
        msg.message_type == MessageType::OrderResponse,
        msg.payload is OrderResponse,
    ensures
        final(state).well_formed(),
        (final(state)@, reply_view(r)) == order_message_step(old(state)@, msg@),
{
    let order_id = require_order_id(msg)?;
    let accepted = match &msg.payload {
        Payload::OrderResponse { accepted } => *accepted,
        _ => false,
    };
    let next = if accepted {
        OrderStatus::Accepted
    } else {
        OrderStatus::Declined
    };
    apply_order_step(state, msg, order_id, Some(next))
}

/// The seller revises the order.
fn handle_order_revision(state: &mut TradeListingState, msg: &InboundMessage) -> (r: Result<Option<OutboundEnvelope>, TradeListingDvmError>)
    requires
        old(state).well_formed(),
        msg.message_type == MessageType::OrderRevision,
        msg.payload is OrderRevision,
    ensures
        final(state).well_formed(),
        (final(state)@, reply_view(r)) == order_message_step(old(state)@, msg@),
{
    let order_id = require_order_id(msg)?;
    match &msg.payload {
        Payload::OrderRevision { order_id: named } => {
            if !same_text(named.as_str(), order_id.as_str()) {
                return Err(TradeListingDvmError::InvalidOrder);
            }
        },
        _ => {},
    }
    apply_order_step(state, msg, order_id, Some(OrderStatus::Revised))
}

/// The buyer accepts or declines a revision; the payload must agree with the type.
fn handle_order_revision_response(state: &mut TradeListingState, msg: &InboundMessage) -> (r: Result<Option<OutboundEnvelope>, TradeListingDvmError>)
    requires
        old(state).well_formed(),
        msg.message_type == MessageType::OrderRevisionAccept || msg.message_type == MessageType::OrderRevisionDecline,
        msg.payload is OrderRevisionResponse,
    ensures
        final(state).well_formed(),
        (final(state)@, reply_view(r)) == order_message_step(old(state)@, msg@),
{
    let order_id = require_order_id(msg)?;
    let next = if matches!(msg.message_type, MessageType::OrderRevisionAccept) {
        OrderStatus::Accepted
    } else {
        OrderStatus::Declined
    };
    apply_order_step(state, msg, order_id, Some(next))
}

/// The buyer asks the seller a question.
fn handle_question(state: &mut TradeListingState, msg: &InboundMessage) -> (r: Result<Option<OutboundEnvelope>, TradeListingDvmError>)
    requires
        old(state).well_formed(),
        msg.message_type == MessageType::Question,
        msg.payload is Question,
    ensures
        final(state).well_formed(),
        (final(state)@, reply_view(r)) == order_message_step(old(state)@, msg@),
{
    let order_id = require_order_id(msg)?;
    match &msg.payload {
        Payload::Question { order_id: Some(named) } => {
            if !same_text(named.as_str(), order_id.as_str()) {
                return Err(TradeListingDvmError::InvalidOrder);
            }
        },
        _ => {},
    }
    apply_order_step(state, msg, order_id, Some(OrderStatus::Questioned))
}

/// The seller answers; the order goes back to requested. The prior status is
/// not required to be questioned: any status from which the table allows a
/// move to requested (requested itself, questioned, revised) accepts an answer.
fn handle_answer(state: &mut TradeListingState, msg: &InboundMessage) -> (r: Result<Option<OutboundEnvelope>, TradeListingDvmError>)
    requires
        old(state).well_formed(),
        msg.message_type == MessageType::Answer,
        msg.payload is Answer,
    ensures
        final(state).well_formed(),
        (final(state)@, reply_view(r)) == order_message_step(old(state)@, msg@),
{
    let order_id = require_order_id(msg)?;
    match &msg.payload {
        Payload::Answer { order_id: Some(named) } => {
            if !same_text(named.as_str(), order_id.as_str()) {
                return Err(TradeListingDvmError::InvalidOrder);
            }
        },
        _ => {},
    }
    apply_order_step(state, msg, order_id, Some(OrderStatus::Requested))
}

/// The buyer asks for a discount; the status stays, the event is noted. With
/// no status change there is no transition to check, so repeated requests
/// (as distinct events) are all accepted.
fn handle_discount_request(state: &mut TradeListingState, msg: &InboundMessage) -> (r: Result<Option<OutboundEnvelope>, TradeListingDvmError>)
    requires
        old(state).well_formed(),
        msg.message_type == MessageType::DiscountRequest,
        msg.payload is DiscountRequest,
    ensures
        final(state).well_formed(),
        (final(state)@, reply_view(r)) == order_message_step(old(state)@, msg@),
{
    let order_id = require_order_id(msg)?;
    match &msg.payload {
        Payload::DiscountRequest { order_id: named } => {
            if !same_text(named.as_str(), order_id.as_str()) {
                return Err(TradeListingDvmError::InvalidOrder);
            }
        },
        _ => {},
    }
    apply_order_step(state, msg, order_id, None)
}

/// The seller offers a discount, which revises the order.
fn handle_discount_offer(state: &mut TradeListingState, msg: &InboundMessage) -> (r: Result<Option<OutboundEnvelope>, TradeListingDvmError>)
    requires
        old(state).well_formed(),
        msg.message_type == MessageType::DiscountOffer,
        msg.payload is DiscountOffer,
    ensures
        final(state).well_formed(),
        (final(state)@, reply_view(r)) == order_message_step(old(state)@, msg@),
{
    let order_id = require_order_id(msg)?;
    match &msg.payload {
        Payload::DiscountOffer { order_id: named } => {
            if !same_text(named.as_str(), order_id.as_str()) {
                return Err(TradeListingDvmError::InvalidOrder);
            }
        },
        _ => {},
    }
    apply_order_step(state, msg, order_id, Some(OrderStatus::Revised))
}

/// The buyer accepts or declines a discount; the payload variant must agree with the type.
fn handle_discount_decision(state: &mut TradeListingState, msg: &InboundMessage) -> (r: Result<Option<OutboundEnvelope>, TradeListingDvmError>)
    requires
        old(state).well_formed(),
        msg.message_type == MessageType::DiscountAccept || msg.message_type == MessageType::DiscountDecline,
        msg.payload is DiscountDecision,
    ensures
        final(state).well_formed(),
        (final(state)@, reply_view(r)) == order_message_step(old(state)@, msg@),
{
    let order_id = require_order_id(msg)?;
    let next = if matches!(msg.message_type, MessageType::DiscountAccept) {
        OrderStatus::Accepted
    } else {
        OrderStatus::Requested
    };
    apply_order_step(state, msg, order_id, Some(next))
}

/// Either party cancels; the other one is told.
fn handle_cancel(state: &mut TradeListingState, msg: &InboundMessage) -> (r: Result<Option<OutboundEnvelope>, TradeListingDvmError>)
    requires
        old(state).well_formed(),
        msg.message_type == MessageType::Cancel,
        msg.payload is Cancel,
    ensures
        final(state).well_formed(),
        (final(state)@, reply_view(r)) == order_message_step(old(state)@, msg@),
{
    let order_id = require_order_id(msg)?;
    apply_order_step(state, msg, order_id, Some(OrderStatus::Cancelled))
}

/// The seller reports fulfillment.
fn handle_fulfillment_update(state: &mut TradeListingState, msg: &InboundMessage) -> (r: Result<Option<OutboundEnvelope>, TradeListingDvmError>)
    requires
        old(state).well_formed(),
        msg.message_type == MessageType::FulfillmentUpdate,
        msg.payload is FulfillmentUpdate,
    ensures
        final(state).well_formed(),
        (final(state)@, reply_view(r)) == order_message_step(old(state)@, msg@),
{
    let order_id = require_order_id(msg)?;
    apply_order_step(state, msg, order_id, Some(OrderStatus::Fulfilled))
}

/// The buyer confirms receipt, which completes the order.
fn handle_receipt(state: &mut TradeListingState, msg: &InboundMessage) -> (r: Result<Option<OutboundEnvelope>, TradeListingDvmError>)
    requires
        old(state).well_formed(),
        msg.message_type == MessageType::Receipt,
        msg.payload is Receipt,
    ensures
        final(state).well_formed(),
        (final(state)@, reply_view(r)) == order_message_step(old(state)@, msg@),
{
    let order_id = require_order_id(msg)?;
    apply_order_step(state, msg, order_id, Some(OrderStatus::Completed))
}

/// Runs the handler of an order-scoped message whose payload fits its type.
pub fn dispatch_message(state: &mut TradeListingState, msg: &InboundMessage) -> (r: Result<Option<OutboundEnvelope>, TradeListingDvmError>)
    requires
        old(state).well_formed(),
        is_order_message(msg.message_type),
        payload_fits(msg.message_type, msg.payload),
    ensures
        final(state).well_formed(),
        (final(state)@, reply_view(r)) == message_step(old(state)@, msg@),
{
    match msg.message_type {
        MessageType::OrderRequest => handle_order_request(state, msg),
        MessageType::OrderResponse => handle_order_response(state, msg),
        MessageType::OrderRevision => handle_order_revision(state, msg),
        MessageType::OrderRevisionAccept | MessageType::OrderRevisionDecline => handle_order_revision_response(state, msg),
        MessageType::Question => handle_question(state, msg),
        MessageType::Answer => handle_answer(state, msg),
        MessageType::DiscountRequest => handle_discount_request(state, msg),
        MessageType::DiscountOffer => handle_discount_offer(state, msg),
        MessageType::DiscountAccept | MessageType::DiscountDecline => handle_discount_decision(state, msg),
        MessageType::Cancel => handle_cancel(state, msg),
        MessageType::FulfillmentUpdate => handle_fulfillment_update(state, msg),
        MessageType::Receipt => handle_receipt(state, msg),
        MessageType::ListingValidateRequest | MessageType::ListingValidateResult => Ok(None),
    }
}

/// A listing the daemon was asked to validate: the requester, the address as
/// the envelope gives it, its parts, and the listing event named by id, if any.
#[derive(Clone, Debug)]
pub struct ValidationRequest {
    pub requester: String,
    pub listing_addr: String,
    pub listing: ListingAddress,
    pub listing_event_id: Option<String>,
}

/// What the daemon is to do after an inbound event.
#[derive(Clone, Debug)]
pub enum DvmAction {
    /// Nothing to publish.
    Nothing,
    /// Publish this envelope.
    Send(OutboundEnvelope),
    /// Fetch and validate a listing, then answer the requester.
    ValidateListing(ValidationRequest),
}

/// What the daemon is to do, abstractly.
pub enum ActionModel {
    Nothing,
    Send(Reply),
    Validate { requester: Seq<char>, listing_addr: Seq<char>, listing_event_id: Option<Seq<char>> },
}

pub open spec fn action_view(r: Result<DvmAction, TradeListingDvmError>) -> Result<ActionModel, TradeListingDvmError> {
    match r {
        Ok(DvmAction::Nothing) => Ok(ActionModel::Nothing),
        Ok(DvmAction::Send(o)) => Ok(ActionModel::Send(o@)),
        Ok(DvmAction::ValidateListing(v)) => Ok(ActionModel::Validate {
            requester: v.requester@,
            listing_addr: v.listing_addr@,
            listing_event_id: opt_view(v.listing_event_id),
        }),
        Err(e) => Err(e),
    }
}

pub open spec fn to_action(r: Result<Option<Reply>, TradeListingDvmError>) -> Result<ActionModel, TradeListingDvmError> {
    match r {
        Ok(Some(o)) => Ok(ActionModel::Send(o)),
        Ok(None) => Ok(ActionModel::Nothing),
        Err(e) => Err(e),
    }
}

pub open spec fn fail(s: StoreModel, e: TradeListingDvmError) -> Option<(StoreModel, Result<ActionModel, TradeListingDvmError>)> {
    Some((s, Err(e)))
}

/// What an inbound event does to the store and what the daemon is to do.
/// `None` stands for a payload whose shape is not the one its type carries,
/// which is refused as an invalid payload with the store unchanged.
pub open spec fn event_step(
    s: StoreModel,
    event: NostrEventAdapter,
    tags: Seq<Vec<String>>,
    daemon: Seq<char>,
    envelope: Result<Envelope, String>,
    kinds: KindTable,
) -> Option<(StoreModel, Result<ActionModel, TradeListingDvmError>)> {
    let kind = event.kind_spec();
    if !(exists|m: MessageType| kinds.kind_spec(m) == kind) {
        fail(s, TradeListingDvmError::UnsupportedKind)
    } else if event.author() == daemon {
        Some((s, Ok(ActionModel::Nothing)))
    } else if !has_tag_value(tags, "p"@, daemon) {
        fail(s, TradeListingDvmError::MissingRecipient)
    } else {
        match envelope {
            Err(text) => fail(s, TradeListingDvmError::InvalidEnvelope(EnvelopeError::Malformed(text))),
            Ok(env) => {
                let mt = env.message_type;
                let needs_id = mt.requires_order_id_spec();
                if needs_id != env.order_id is Some {
                    fail(s, TradeListingDvmError::InvalidEnvelope(EnvelopeError::OrderIdMismatch))
                } else if kinds.kind_spec(mt) != kind {
                    fail(s, TradeListingDvmError::TagMismatch(TagName::Kind))
                } else if first_tag_value(tags, "a"@) is None {
                    fail(s, TradeListingDvmError::MissingTag(TagName::A))
                } else if first_tag_value(tags, "a"@) != Some(env.listing_addr@) {
                    fail(s, TradeListingDvmError::TagMismatch(TagName::A))
                } else if needs_id && first_tag_value(tags, "d"@) is None {
                    fail(s, TradeListingDvmError::MissingTag(TagName::D))
                } else if needs_id && first_tag_value(tags, "d"@) != opt_view(env.order_id) {
                    fail(s, TradeListingDvmError::TagMismatch(TagName::D))
                } else {
                    match parse_spec(env.listing_addr@) {
                        Err(_) => fail(s, TradeListingDvmError::InvalidListingAddr),
                        Ok((_, seller, _)) => match env.payload {
                            Err(text) => fail(s, TradeListingDvmError::InvalidPayload(text)),
                            Ok(p) => if !payload_fits(mt, p) {
                                None
                            } else if mt == MessageType::ListingValidateRequest {
                                Some((
                                    s,
                                    Ok(ActionModel::Validate {
                                        requester: event.author(),
                                        listing_addr: env.listing_addr@,
                                        listing_event_id: match p {
                                            Payload::ListingValidateRequest { listing_event_id } => opt_view(listing_event_id),
                                            _ => None,
                                        },
                                    }),
                                ))
                            } else if mt == MessageType::ListingValidateResult {
                                Some((s, Ok(ActionModel::Nothing)))
                            } else {
                                let m = MessageModel {
                                    event_id: event.id(),
                                    author: event.author(),
                                    message_type: mt,
                                    listing_addr: env.listing_addr@,
                                    listing_seller: seller,
                                    order_id: opt_view(env.order_id),
                                    payload: p,
                                };
                                let step = message_step(s, m);
                                Some((step.0, to_action(step.1)))
                            },
                        },
                    }
                }
            },
        }
    }
}

fn fits(m: MessageType, p: &Payload) -> (r: bool)
    ensures
        r == payload_fits(m, *p),
{
    match m {
        MessageType::ListingValidateRequest => matches!(p, Payload::ListingValidateRequest { .. }),
        MessageType::ListingValidateResult => matches!(p, Payload::ListingValidateResult),
        MessageType::OrderRequest => matches!(p, Payload::OrderRequest { .. }),
        MessageType::OrderResponse => matches!(p, Payload::OrderResponse { .. }),
        MessageType::OrderRevision => matches!(p, Payload::OrderRevision { .. }),
        MessageType::OrderRevisionAccept | MessageType::OrderRevisionDecline => matches!(p, Payload::OrderRevisionResponse { .. }),
        MessageType::Question => matches!(p, Payload::Question { .. }),
        MessageType::Answer => matches!(p, Payload::Answer { .. }),
        MessageType::DiscountRequest => matches!(p, Payload::DiscountRequest { .. }),
        MessageType::DiscountOffer => matches!(p, Payload::DiscountOffer { .. }),
        MessageType::DiscountAccept | MessageType::DiscountDecline => matches!(p, Payload::DiscountDecision { .. }),
        MessageType::Cancel => matches!(p, Payload::Cancel),
        MessageType::FulfillmentUpdate => matches!(p, Payload::FulfillmentUpdate),
        MessageType::Receipt => matches!(p, Payload::Receipt),
    }
}

/// Handles one inbound event: checks its kind, sender, recipient tag and
/// envelope against its tags, then runs the handler of its message type on
/// the store. Events by the daemon itself are ignored.
pub fn handle_event(
    state: &mut TradeListingState,
    event: &NostrEventAdapter,
    tags: &Vec<Vec<String>>,
    daemon_pubkey: &str,
    envelope: Result<Envelope, String>,
    kinds: &KindTable,
) -> (r: Result<DvmAction, TradeListingDvmError>)
    requires
        old(state).well_formed(),
        kinds.well_formed(),
    ensures
        final(state).well_formed(),
        match event_step(old(state)@, *event, tags@, daemon_pubkey@, envelope, *kinds) {
            Some((s, res)) => final(state)@ == s && action_view(r) == res,
            None => final(state)@ == old(state)@ && r matches Err(TradeListingDvmError::InvalidPayload(_)),
        },
{
    let kind = event.kind();
    if !kinds.is_trade_listing_kind(kind) {
        return Err(TradeListingDvmError::UnsupportedKind);
    }
    if same_text(event.raw_author(), daemon_pubkey) {
        return Ok(DvmAction::Nothing);
    }
    if !tag_has_value(tags.as_slice(), "p", daemon_pubkey) {
        return Err(TradeListingDvmError::MissingRecipient);
    }
    let env = match envelope {
        Ok(e) => e,
        Err(text) => {
            return Err(TradeListingDvmError::InvalidEnvelope(EnvelopeError::Malformed(text)));
        },
    };
    match env.validate() {
        Ok(()) => {},
        Err(e) => {
            return Err(TradeListingDvmError::InvalidEnvelope(e));
        },
    }
    if kinds.kind(env.message_type) != kind {
        return Err(TradeListingDvmError::TagMismatch(TagName::Kind));
    }
    let tag_a = match tag_value(tags.as_slice(), "a") {
        Some(a) => a,
        None => {
            return Err(TradeListingDvmError::MissingTag(TagName::A));
        },
    };
    if !same_text(tag_a.as_str(), env.listing_addr.as_str()) {
        return Err(TradeListingDvmError::TagMismatch(TagName::A));
    }
    if env.message_type.requires_order_id() {
        let tag_d = match tag_value(tags.as_slice(), "d") {
            Some(d) => d,
            None => {
                return Err(TradeListingDvmError::MissingTag(TagName::D));
            },
        };
        let same = match &env.order_id {
            Some(id) => same_text(tag_d.as_str(), id.as_str()),
            None => false,
        };
        if !same {
            return Err(TradeListingDvmError::TagMismatch(TagName::D));
        }
    }
    let listing = match ListingAddress::parse(env.listing_addr.as_str()) {
        Ok(a) => a,
        Err(_) => {
            return Err(TradeListingDvmError::InvalidListingAddr);
        },
    };
    let Envelope { message_type, listing_addr, order_id, payload } = env;
    let payload = match payload {
        Ok(p) => p,
        Err(text) => {
            return Err(TradeListingDvmError::InvalidPayload(text));
        },
    };
    if !fits(message_type, &payload) {
        return Err(TradeListingDvmError::InvalidPayload(owned("payload does not fit the message type")));
    }
    match message_type {
        MessageType::ListingValidateRequest => {
            let listing_event_id = match payload {
                Payload::ListingValidateRequest { listing_event_id } => listing_event_id,
                _ => None,
            };
            Ok(DvmAction::ValidateListing(ValidationRequest {
                requester: owned(event.raw_author()),
                listing_addr,
                listing,
                listing_event_id,
            }))
        },
        MessageType::ListingValidateResult => Ok(DvmAction::Nothing),
        _ => {
            let msg = InboundMessage {
                event_id: owned(event.raw_id()),
                author: owned(event.raw_author()),
                message_type,
                listing_addr,
                listing,
                order_id,
                payload,
            };
            match dispatch_message(state, &msg) {
                Ok(Some(o)) => Ok(DvmAction::Send(o)),
                Ok(None) => Ok(DvmAction::Nothing),
                Err(e) => Err(e),
            }
        },
    }
}

} // verus!
