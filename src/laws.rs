use vstd::prelude::*;
use crate::address::parse_spec;
use crate::dispatch::{MessageModel, authorized, event_step, message_step};
use crate::event::NostrEventAdapter;
use crate::message::{Envelope, KindTable, MessageType, Payload, Reply, TradeListingDvmError};
use crate::state::StoreModel;
use crate::status::{OrderStatus, is_terminal, is_valid_path, lemma_terminal_absorbs, transition_allowed};

verus! {

/// The store after the first `k` messages of `ms`, starting from `s0`.
pub open spec fn store_after(s0: StoreModel, ms: Seq<MessageModel>, k: int) -> StoreModel
    decreases k,
{
    if k <= 0 || k > ms.len() {
        s0
    } else {
        message_step(store_after(s0, ms, k - 1), ms[k - 1]).0
    }
}

/// The statuses of order `id` after each message from the `i`-th on.
pub open spec fn status_path(s0: StoreModel, ms: Seq<MessageModel>, id: Seq<char>, i: int) -> Seq<OrderStatus> {
    Seq::new((ms.len() - i + 1) as nat, |k: int| store_after(s0, ms, i + k).orders[id].status)
}

/// One message keeps every order and moves its status only along the transition table.
pub proof fn lemma_step_follows_table(s: StoreModel, m: MessageModel, id: Seq<char>)
    requires
        s.orders.contains_key(id),
    ensures
        message_step(s, m).0.orders.contains_key(id),
        transition_allowed(s.orders[id].status, message_step(s, m).0.orders[id].status),
        s.orders[id].seen.subset_of(message_step(s, m).0.orders[id].seen),
        message_step(s, m).0.orders[id].buyer == s.orders[id].buyer,
        message_step(s, m).0.orders[id].seller == s.orders[id].seller,
        message_step(s, m).0.orders[id].listing_addr == s.orders[id].listing_addr,
{
}

/// An order that a message creates starts out requested, by an order request.
pub proof fn lemma_new_order_is_requested(s: StoreModel, m: MessageModel, id: Seq<char>)
    requires
        !s.orders.contains_key(id),
        message_step(s, m).0.orders.contains_key(id),
    ensures
        m.message_type == MessageType::OrderRequest,
        message_step(s, m).0.orders[id].status == OrderStatus::Requested,
{
}

proof fn lemma_order_persists(s0: StoreModel, ms: Seq<MessageModel>, id: Seq<char>, i: int, j: int)
    requires
        0 <= i <= j <= ms.len(),
        store_after(s0, ms, i).orders.contains_key(id),
    ensures
        store_after(s0, ms, j).orders.contains_key(id),
    decreases j - i,
{
    if i < j {
        lemma_order_persists(s0, ms, id, i, j - 1);
        lemma_step_follows_table(store_after(s0, ms, j - 1), ms[j - 1], id);
    }
}

/// Along any sequence of messages, the statuses an order goes through from
/// the moment it exists form a valid path of the transition table.
pub proof fn lemma_committed_statuses_follow_table(s0: StoreModel, ms: Seq<MessageModel>, id: Seq<char>, i: int)
    requires
        0 <= i <= ms.len(),
        store_after(s0, ms, i).orders.contains_key(id),
    ensures
        is_valid_path(status_path(s0, ms, id, i)),
{
    let p = status_path(s0, ms, id, i);
    assert forall|k: int| 0 <= k < p.len() - 1 implies #[trigger] transition_allowed(p[k], p[k + 1]) by {
        lemma_order_persists(s0, ms, id, i, i + k);
        lemma_step_follows_table(store_after(s0, ms, i + k), ms[i + k], id);
        assert(store_after(s0, ms, i + k + 1) == message_step(store_after(s0, ms, i + k), ms[i + k]).0);
    }
}

/// Once an order reaches a terminal status, no later message changes its status.
pub proof fn lemma_terminal_status_is_kept(s0: StoreModel, ms: Seq<MessageModel>, id: Seq<char>, i: int, j: int)
    requires
        0 <= i <= j <= ms.len(),
        store_after(s0, ms, i).orders.contains_key(id),
        is_terminal(store_after(s0, ms, i).orders[id].status),
    ensures
        store_after(s0, ms, j).orders.contains_key(id),
        store_after(s0, ms, j).orders[id].status == store_after(s0, ms, i).orders[id].status,
{
    lemma_order_persists(s0, ms, id, i, j);
    lemma_committed_statuses_follow_table(s0, ms, id, i);
    let p = status_path(s0, ms, id, i);
    lemma_terminal_absorbs(p, 0, j - i);
}

/// Handling the same message a second time changes nothing and publishes nothing
/// more: a message commits at most one change to its order.
pub proof fn lemma_message_applies_once(s: StoreModel, m: MessageModel)
    ensures
        message_step(message_step(s, m).0, m).0 == message_step(s, m).0,
        message_step(s, m).0 != s ==> message_step(message_step(s, m).0, m).1
            == Ok::<Option<Reply>, TradeListingDvmError>(None),
{
    let s1 = message_step(s, m).0;
    match m.order_id {
        Some(id) => {
            if s1 != s {
                assert(s1.orders.contains_key(id));
                if m.message_type != MessageType::OrderRequest {
                    assert(s1.orders[id].seen.contains(m.event_id));
                }
            }
        },
        None => {},
    }
}

/// Every message that changes the store comes from a sender the rules allow:
/// an order request from the buyer it names, for a listing of the seller it
/// names; any other message from the party its type requires.
pub proof fn lemma_changes_are_authorized(s: StoreModel, m: MessageModel)
    requires
        message_step(s, m).0 != s,
    ensures
        m.order_id is Some,
        m.message_type == MessageType::OrderRequest ==> (m.payload matches Payload::OrderRequest {
            buyer_pubkey,
            seller_pubkey,
            ..
        } && buyer_pubkey@ == m.author && seller_pubkey@ == m.listing_seller),
        m.message_type != MessageType::OrderRequest ==> s.orders.contains_key(m.order_id->Some_0)
            && authorized(m, s.orders[m.order_id->Some_0]),
{
}

/// A reply carries the inbound message's type, listing address and order id.
pub proof fn lemma_reply_echoes_message(s: StoreModel, m: MessageModel)
    requires
        message_step(s, m).1 is Ok,
        message_step(s, m).1->Ok_0 is Some,
    ensures
        message_step(s, m).1->Ok_0->Some_0.listing_addr == m.listing_addr,
        message_step(s, m).1->Ok_0->Some_0.order_id == m.order_id,
        message_step(s, m).1->Ok_0->Some_0.message_type == m.message_type,
{
}

/// Every stored order names a well-formed listing address whose seller is the order's seller.
pub open spec fn orders_name_their_listing(s: StoreModel) -> bool {
    forall|id: Seq<char>| #[trigger] s.orders.contains_key(id) ==> {
        let o = s.orders[id];
        parse_spec(o.listing_addr) is Ok && parse_spec(o.listing_addr)->Ok_0.1 == o.seller
    }
}

/// Handling an event keeps every order tied to a listing of its seller.
pub proof fn lemma_event_keeps_listing_invariant(
    s: StoreModel,
    event: NostrEventAdapter,
    tags: Seq<Vec<String>>,
    daemon: Seq<char>,
    envelope: Result<Envelope, String>,
    kinds: KindTable,
)
    requires
        orders_name_their_listing(s),
        event_step(s, event, tags, daemon, envelope, kinds) is Some,
    ensures
        orders_name_their_listing(event_step(s, event, tags, daemon, envelope, kinds)->Some_0.0),
{
    let s2 = event_step(s, event, tags, daemon, envelope, kinds)->Some_0.0;
    assert forall|id: Seq<char>| #[trigger] s2.orders.contains_key(id) implies {
        let o = s2.orders[id];
        parse_spec(o.listing_addr) is Ok && parse_spec(o.listing_addr)->Ok_0.1 == o.seller
    } by {
        if s.orders.contains_key(id) {
            assert(s.orders.contains_key(id));
        }
    }
}

} // verus!
