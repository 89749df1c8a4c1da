use vstd::prelude::*;
use crate::address::ListingAddress;
use crate::status::TradeListingStateError;
use crate::tags::{is_pair, pair_tag};

verus! {

/// The trade-listing message vocabulary.
#[derive(Clone, Copy, Debug, PartialEq, Eq, Structural)]
pub enum MessageType {
    ListingValidateRequest,
    ListingValidateResult,
    OrderRequest,
    OrderResponse,
    OrderRevision,
    OrderRevisionAccept,
    OrderRevisionDecline,
    Question,
    Answer,
    DiscountRequest,
    DiscountOffer,
    DiscountAccept,
    DiscountDecline,
    Cancel,
    FulfillmentUpdate,
    Receipt,
}

/// How many message types there are.
pub const MESSAGE_TYPE_COUNT: usize = 16;

impl MessageType {
    pub open spec fn index_spec(self) -> nat {
        match self {
            MessageType::ListingValidateRequest => 0,
            MessageType::ListingValidateResult => 1,
            MessageType::OrderRequest => 2,
            MessageType::OrderResponse => 3,
            MessageType::OrderRevision => 4,
            MessageType::OrderRevisionAccept => 5,
            MessageType::OrderRevisionDecline => 6,
            MessageType::Question => 7,
            MessageType::Answer => 8,
            MessageType::DiscountRequest => 9,
            MessageType::DiscountOffer => 10,
            MessageType::DiscountAccept => 11,
            MessageType::DiscountDecline => 12,
            MessageType::Cancel => 13,
            MessageType::FulfillmentUpdate => 14,
            MessageType::Receipt => 15,
        }
    }

    /// Position of this type in the fixed order of the vocabulary.
    pub fn index(self) -> (r: usize)
        ensures
            r == self.index_spec(),
            r < MESSAGE_TYPE_COUNT,
    {
        match self {
            MessageType::ListingValidateRequest => 0,
            MessageType::ListingValidateResult => 1,
            MessageType::OrderRequest => 2,
            MessageType::OrderResponse => 3,
            MessageType::OrderRevision => 4,
            MessageType::OrderRevisionAccept => 5,
            MessageType::OrderRevisionDecline => 6,
            MessageType::Question => 7,
            MessageType::Answer => 8,
            MessageType::DiscountRequest => 9,
            MessageType::DiscountOffer => 10,
            MessageType::DiscountAccept => 11,
            MessageType::DiscountDecline => 12,
            MessageType::Cancel => 13,
            MessageType::FulfillmentUpdate => 14,
            MessageType::Receipt => 15,
        }
    }

    /// The type at a position of the vocabulary.
    pub fn from_index(i: usize) -> (r: MessageType)
        requires
            i < MESSAGE_TYPE_COUNT,
        ensures
            r.index_spec() == i,
    {
        if i == 0 { MessageType::ListingValidateRequest }
        else if i == 1 { MessageType::ListingValidateResult }
        else if i == 2 { MessageType::OrderRequest }
        else if i == 3 { MessageType::OrderResponse }
        else if i == 4 { MessageType::OrderRevision }
        else if i == 5 { MessageType::OrderRevisionAccept }
        else if i == 6 { MessageType::OrderRevisionDecline }
        else if i == 7 { MessageType::Question }
        else if i == 8 { MessageType::Answer }
        else if i == 9 { MessageType::DiscountRequest }
        else if i == 10 { MessageType::DiscountOffer }
        else if i == 11 { MessageType::DiscountAccept }
        else if i == 12 { MessageType::DiscountDecline }
        else if i == 13 { MessageType::Cancel }
        else if i == 14 { MessageType::FulfillmentUpdate }
        else { MessageType::Receipt }
    }

    pub open spec fn requires_order_id_spec(self) -> bool {
        !(self == MessageType::ListingValidateRequest || self == MessageType::ListingValidateResult)
    }

    /// Every message but the two listing-validation ones belongs to an order.
    pub fn requires_order_id(self) -> (r: bool)
        ensures
            r == self.requires_order_id_spec(),
    {
        !matches!(self, MessageType::ListingValidateRequest | MessageType::ListingValidateResult)
    }
}

/// The event kind of each message type, as the protocol's constants give them.
/// The kinds are pairwise distinct, so a kind names at most one message type.
#[derive(Clone, Debug)]
pub struct KindTable {
    kinds: Vec<u16>,
}

pub open spec fn all_distinct(kinds: Seq<u16>) -> bool {
    forall|i: int, j: int| 0 <= i < kinds.len() && 0 <= j < kinds.len() && i != j
        ==> kinds[i] != kinds[j]
}

impl KindTable {
    pub closed spec fn well_formed(&self) -> bool {
        self.kinds@.len() == MESSAGE_TYPE_COUNT && all_distinct(self.kinds@)
    }

    /// The kinds, in the order of the vocabulary.
    pub closed spec fn kinds_spec(&self) -> Seq<u16> {
        self.kinds@
    }

    /// The event kind of a message type.
    pub open spec fn kind_spec(&self, m: MessageType) -> u16 {
        self.kinds_spec()[m.index_spec() as int]
    }

    /// A table from the kinds in the order of the vocabulary; refused unless there
    /// is one kind per type and no kind repeats.
    pub fn new(kinds: Vec<u16>) -> (r: Option<KindTable>)
        ensures
            match r {
                Some(t) => t.well_formed() && t.kinds_spec() == kinds@,
                None => !(kinds@.len() == MESSAGE_TYPE_COUNT && all_distinct(kinds@)),
            },
    {
        if kinds.len() != MESSAGE_TYPE_COUNT {
            return None;
        }
        let n = kinds.len();
        let mut i: usize = 0;
        while i < n
            invariant
                n == kinds@.len(),
                i <= n,
                forall|a: int, b: int| 0 <= a < i && 0 <= b < n && a != b ==> kinds@[a] != kinds@[b],
            decreases n - i,
        {
            let mut j: usize = 0;
            while j < n
                invariant
                    n == kinds@.len(),
                    i < n,
                    j <= n,
                    forall|a: int, b: int| 0 <= a < i && 0 <= b < n && a != b ==> kinds@[a] != kinds@[b],
                    forall|b: int| 0 <= b < j && b != i ==> kinds@[i as int] != kinds@[b],
                decreases n - j,
            {
                if j != i && kinds[i] == kinds[j] {
                    return None;
                }
                j = j + 1;
            }
            i = i + 1;
        }
        Some(KindTable { kinds })
    }

    /// The event kind of a message type.
    pub fn kind(&self, m: MessageType) -> (r: u16)
        requires
            self.well_formed(),
        ensures
            r == self.kind_spec(m),
    {
        self.kinds[m.index()]
    }

    /// The message type that an event kind stands for, if any.
    pub fn message_type(&self, kind: u16) -> (r: Option<MessageType>)
        requires
            self.well_formed(),
        ensures
            match r {
                Some(m) => self.kind_spec(m) == kind,
                None => forall|m: MessageType| self.kind_spec(m) != kind,
            },
    {
        let mut i: usize = 0;
        while i < MESSAGE_TYPE_COUNT
            invariant
                self.well_formed(),
                i <= MESSAGE_TYPE_COUNT,
                forall|j: int| 0 <= j < i ==> self.kinds@[j] != kind,
            decreases MESSAGE_TYPE_COUNT - i,
        {
            if self.kinds[i] == kind {
                let m = MessageType::from_index(i);
                return Some(m);
            }
            i = i + 1;
        }
        proof {
            assert forall|m: MessageType| self.kind_spec(m) != kind by {
                assert(m.index_spec() < MESSAGE_TYPE_COUNT);
            }
        }
        None
    }

    /// Whether an event kind belongs to the vocabulary.
    pub fn is_trade_listing_kind(&self, kind: u16) -> (r: bool)
        requires
            self.well_formed(),
        ensures
            r == exists|m: MessageType| self.kind_spec(m) == kind,
    {
        self.message_type(kind).is_some()
    }

    /// All kinds of the vocabulary, for a subscription filter.
    pub fn all_kinds(&self) -> (r: Vec<u16>)
        ensures
            r@ == self.kinds_spec(),
    {
        let mut out: Vec<u16> = Vec::new();
        let mut i: usize = 0;
        while i < self.kinds.len()
            invariant
                i <= self.kinds@.len(),
                out@ == self.kinds@.subrange(0, i as int),
            decreases self.kinds@.len() - i,
        {
            out.push(self.kinds[i]);
            i = i + 1;
            assert(out@ =~= self.kinds@.subrange(0, i as int));
        }
        assert(out@ =~= self.kinds@);
        out
    }
}

/// Distinct message types have distinct kinds.
pub proof fn lemma_kind_injective(t: KindTable, a: MessageType, b: MessageType)
    requires
        t.well_formed(),
        t.kind_spec(a) == t.kind_spec(b),
    ensures
        a == b,
{
    assert(a.index_spec() < MESSAGE_TYPE_COUNT && b.index_spec() < MESSAGE_TYPE_COUNT);
}

/// The parts of each message's payload that the handler reads.
#[derive(Clone, Debug, PartialEq, Eq)]
pub enum Payload {
    ListingValidateRequest { listing_event_id: Option<String> },
    ListingValidateResult,
    OrderRequest { order_id: String, listing_addr: String, buyer_pubkey: String, seller_pubkey: String },
    OrderResponse { accepted: bool },
    OrderRevision { order_id: String },
    OrderRevisionResponse { accepted: bool },
    Question { order_id: Option<String> },
    Answer { order_id: Option<String> },
    DiscountRequest { order_id: String },
    DiscountOffer { order_id: String },
    /// `accept` tells the accept variant of a discount decision from the decline one.
    DiscountDecision { accept: bool },
    Cancel,
    FulfillmentUpdate,
    Receipt,
}

/// Whether a payload has the shape that a message type carries.
pub open spec fn payload_fits(m: MessageType, p: Payload) -> bool {
    match m {
        MessageType::ListingValidateRequest => p is ListingValidateRequest,
        MessageType::ListingValidateResult => p is ListingValidateResult,
        MessageType::OrderRequest => p is OrderRequest,
        MessageType::OrderResponse => p is OrderResponse,
        MessageType::OrderRevision => p is OrderRevision,
        MessageType::OrderRevisionAccept => p is OrderRevisionResponse,
        MessageType::OrderRevisionDecline => p is OrderRevisionResponse,
        MessageType::Question => p is Question,
        MessageType::Answer => p is Answer,
        MessageType::DiscountRequest => p is DiscountRequest,
        MessageType::DiscountOffer => p is DiscountOffer,
        MessageType::DiscountAccept => p is DiscountDecision,
        MessageType::DiscountDecline => p is DiscountDecision,
        MessageType::Cancel => p is Cancel,
        MessageType::FulfillmentUpdate => p is FulfillmentUpdate,
        MessageType::Receipt => p is Receipt,
    }
}

impl Envelope {
    /// An order id is present exactly when the message type needs one.
    pub fn validate(&self) -> (r: Result<(), EnvelopeError>)
        ensures
            r is Ok <==> (self.message_type.requires_order_id_spec() == self.order_id is Some),
            r is Err ==> r == Err::<(), EnvelopeError>(EnvelopeError::OrderIdMismatch),
    {
        if self.message_type.requires_order_id() != self.order_id.is_some() {
            Err(EnvelopeError::OrderIdMismatch)
        } else {
            Ok(())
        }
    }
}

/// An envelope as read from an event's content. The payload is `Err` with the
/// decoder's message when it does not decode as the type's payload.
#[derive(Debug)]
pub struct Envelope {
    pub message_type: MessageType,
    pub listing_addr: String,
    pub order_id: Option<String>,
    pub payload: Result<Payload, String>,
}

/// Which tag a tag error is about.
#[derive(Clone, Copy, Debug, PartialEq, Eq, Structural)]
pub enum TagName {
    Kind,
    A,
    D,
}

/// Why an envelope was refused before its payload was looked at.
#[derive(Clone, Debug, PartialEq, Eq)]
pub enum EnvelopeError {
    /// The content is not an envelope; the decoder's message.
    Malformed(String),
    /// An order id is present where the type takes none, or missing where it needs one.
    OrderIdMismatch,
}

/// Why an inbound event was refused.
#[derive(Clone, Debug, PartialEq, Eq)]
pub enum TradeListingDvmError {
    UnsupportedKind,
    MissingRecipient,
    MissingTag(TagName),
    TagMismatch(TagName),
    InvalidEnvelope(EnvelopeError),
    InvalidPayload(String),
    InvalidListingAddr,
    InvalidOrder,
    State(TradeListingStateError),
    Unauthorized,
    ListingNotValidated,
}

impl TradeListingDvmError {
    pub open spec fn is_silent(&self) -> bool {
        self is UnsupportedKind || self is MissingRecipient
    }

    /// Whether the sender is told of this error by a feedback event; the two
    /// errors that say the event was not meant for this daemon are dropped silently.
    pub fn wants_feedback(&self) -> (r: bool)
        ensures
            r == !self.is_silent(),
    {
        !matches!(self, TradeListingDvmError::UnsupportedKind | TradeListingDvmError::MissingRecipient)
    }
}

/// A message whose envelope and tags have been checked against each other.
#[derive(Clone, Debug)]
pub struct InboundMessage {
    pub event_id: String,
    pub author: String,
    pub message_type: MessageType,
    pub listing_addr: String,
    pub listing: ListingAddress,
    pub order_id: Option<String>,
    pub payload: Payload,
}

/// Why a listing did not validate.
#[derive(Clone, Debug, PartialEq, Eq)]
pub enum TradeListingValidationError {
    ListingEventNotFound { listing_addr: String },
    ListingEventFetchFailed { listing_addr: String },
    /// A structural finding of the listing validator, in its words.
    Invalid(String),
}

/// What an outbound envelope carries.
#[derive(Clone, Debug)]
pub enum OutboundBody {
    /// The inbound payload, passed on unchanged.
    Forward,
    /// The answer to a listing-validation request.
    ValidateResult { valid: bool, errors: Vec<TradeListingValidationError> },
}

/// A message for the daemon to publish.
#[derive(Clone, Debug)]
pub struct OutboundEnvelope {
    pub recipient: String,
    pub message_type: MessageType,
    pub listing_addr: String,
    pub order_id: Option<String>,
    pub body: OutboundBody,
}

/// An outbound message, abstractly.
pub struct Reply {
    pub recipient: Seq<char>,
    pub message_type: MessageType,
    pub listing_addr: Seq<char>,
    pub order_id: Option<Seq<char>>,
}

pub open spec fn opt_view(o: Option<String>) -> Option<Seq<char>> {
    match o {
        Some(s) => Some(s@),
        None => None,
    }
}

impl View for OutboundEnvelope {
    type V = Reply;

    open spec fn view(&self) -> Reply {
        Reply {
            recipient: self.recipient@,
            message_type: self.message_type,
            listing_addr: self.listing_addr@,
            order_id: opt_view(self.order_id),
        }
    }
}

impl OutboundEnvelope {
    /// The tags of the published event: `p` for the recipient, `a` for the
    /// listing, and `d` for the order when there is one, in that order.
    pub fn tags(&self) -> (r: Vec<Vec<String>>)
        ensures
            r@.len() == if self.order_id is Some { 3int } else { 2int },
            is_pair(r@[0], "p"@, self.recipient@),
            is_pair(r@[1], "a"@, self.listing_addr@),
            self.order_id is Some ==> is_pair(r@[2], "d"@, self.order_id->Some_0@),
    {
        let mut out: Vec<Vec<String>> = Vec::new();
        out.push(pair_tag("p", self.recipient.as_str()));
        out.push(pair_tag("a", self.listing_addr.as_str()));
        match &self.order_id {
            Some(id) => {
                out.push(pair_tag("d", id.as_str()));
            },
            None => {},
        }
        out
    }

    /// The event kind to publish under: the kind of the message type.
    pub fn kind(&self, kinds: &KindTable) -> (r: u16)
        requires
            kinds.well_formed(),
        ensures
            r == kinds.kind_spec(self.message_type),
    {
        kinds.kind(self.message_type)
    }
}

} // verus!
