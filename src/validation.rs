use vstd::prelude::*;
use crate::dispatch::ValidationRequest;
use crate::message::{MessageType, OutboundBody, OutboundEnvelope, TradeListingValidationError};
use crate::state::{StoreModel, TradeListingState};
use crate::text::owned;

verus! {

/// Where the listing to validate comes from.
#[derive(Clone, Debug, PartialEq, Eq)]
pub enum ListingFetch {
    /// The event the request names by id.
    ById(String),
    /// The newest event of this kind, author and identifier.
    ByAddress { kind: u16, author: String, identifier: String },
}

/// How looking up and validating the listing ended.
#[derive(Clone, Debug, PartialEq, Eq)]
pub enum ListingLookup {
    /// The validator accepted the listing event.
    Valid,
    /// The validator refused the listing event.
    Invalid(TradeListingValidationError),
    /// No listing event was found.
    NotFound,
    /// The relays could not be asked.
    FetchFailed,
}

/// What a fetched candidate event shows of itself.
#[derive(Clone, Copy, Debug, PartialEq, Eq, Structural)]
pub struct ListingCandidate {
    pub kind: u16,
    pub created_at: u64,
}

impl ValidationRequest {
    /// An explicit pointer wins and is taken as authoritative for the address;
    /// otherwise the listing is looked up by its address.
    pub fn fetch(&self) -> (r: ListingFetch)
        ensures
            match (r, self.listing_event_id) {
                (ListingFetch::ById(id), Some(want)) => id@ == want@,
                (ListingFetch::ByAddress { kind, author, identifier }, None) => kind == self.listing.kind
                    && author@ == self.listing.seller_pubkey@ && identifier@ == self.listing.listing_id@,
                _ => false,
            },
    {
        match &self.listing_event_id {
            Some(id) => ListingFetch::ById(owned(id.as_str())),
            None => ListingFetch::ByAddress {
                kind: self.listing.kind,
                author: owned(self.listing.seller_pubkey.as_str()),
                identifier: owned(self.listing.listing_id.as_str()),
            },
        }
    }
}

/// Whether candidate `i` is the replaceable event that counts: of the wanted
/// kind, not older than any other of that kind, and strictly newer than every
/// earlier one of that kind.
pub open spec fn is_latest(c: Seq<ListingCandidate>, kind: u16, i: int) -> bool {
    &&& 0 <= i < c.len()
    &&& c[i].kind == kind
    &&& forall|j: int| 0 <= j < c.len() && c[j].kind == kind ==> c[j].created_at <= c[i].created_at
    &&& forall|j: int| 0 <= j < i && c[j].kind == kind ==> c[j].created_at < c[i].created_at
}

/// Picks the newest candidate of the wanted kind; of equally new ones, the first.
pub fn select_latest(candidates: &[ListingCandidate], kind: u16) -> (r: Option<usize>)
    ensures
        match r {
            Some(i) => is_latest(candidates@, kind, i as int),
            None => forall|j: int| 0 <= j < candidates@.len() ==> candidates@[j].kind != kind,
        },
{
    let n = candidates.len();
    let mut best: Option<usize> = None;
    let mut i: usize = 0;
    while i < n
        invariant
            n == candidates@.len(),
            i <= n,
            match best {
                Some(b) => b < i && is_latest(candidates@.subrange(0, i as int), kind, b as int),
                None => forall|j: int| 0 <= j < i ==> candidates@[j].kind != kind,
            },
        decreases n - i,
    {
        let c = candidates[i];
        let ghost before = candidates@.subrange(0, i as int);
        let ghost after = candidates@.subrange(0, i as int + 1);
        if c.kind == kind {
            match best {
                Some(b) => {
                    if c.created_at > candidates[b].created_at {
                        best = Some(i);
                        assert(is_latest(after, kind, i as int)) by {
                            assert forall|j: int| 0 <= j < after.len() && after[j].kind == kind
                                implies after[j].created_at <= after[i as int].created_at by {
                                if j < i {
                                    assert(after[j] == before[j]);
                                }
                            }
                            assert forall|j: int| 0 <= j < i && after[j].kind == kind
                                implies after[j].created_at < after[i as int].created_at by {
                                assert(after[j] == before[j]);
                            }
                        }
                    } else {
                        assert(is_latest(after, kind, b as int)) by {
                            assert forall|j: int| 0 <= j < after.len() && after[j].kind == kind
                                implies after[j].created_at <= after[b as int].created_at by {
                                if j < i {
                                    assert(after[j] == before[j]);
                                }
                            }
                            assert forall|j: int| 0 <= j < b && after[j].kind == kind
                                implies after[j].created_at < after[b as int].created_at by {
                                assert(after[j] == before[j]);
                            }
                        }
                    }
                },
                None => {
                    best = Some(i);
                    assert(is_latest(after, kind, i as int));
                },
            }
        } else {
            match best {
                Some(b) => {
                    assert(is_latest(after, kind, b as int)) by {
                        assert forall|j: int| 0 <= j < after.len() && after[j].kind == kind
                            implies after[j].created_at <= after[b as int].created_at by {
                            assert(after[j] == before[j] || j == i);
                        }
                        assert forall|j: int| 0 <= j < b && after[j].kind == kind
                            implies after[j].created_at < after[b as int].created_at by {
                            assert(after[j] == before[j]);
                        }
                    }
                },
                None => {},
            }
        }
        i = i + 1;
    }
    assert(candidates@.subrange(0, n as int) =~= candidates@);
    best
}

/// The validation errors that a lookup outcome reports.
pub open spec fn lookup_errors(addr: Seq<char>, l: ListingLookup) -> Seq<TradeListingValidationError> {
    match l {
        ListingLookup::Valid => Seq::empty(),
        ListingLookup::Invalid(e) => seq![e],
        ListingLookup::NotFound => Seq::empty(),
        ListingLookup::FetchFailed => Seq::empty(),
    }
}

/// The error of a lookup that found nothing to validate.
pub open spec fn lookup_missing_error(addr: Seq<char>, l: ListingLookup, e: TradeListingValidationError) -> bool {
    match l {
        ListingLookup::NotFound => e matches TradeListingValidationError::ListingEventNotFound { listing_addr }
            && listing_addr@ == addr,
        ListingLookup::FetchFailed => e matches TradeListingValidationError::ListingEventFetchFailed { listing_addr }
            && listing_addr@ == addr,
        _ => false,
    }
}

/// Ends a listing-validation request: a valid listing is recorded as
/// validated, and the requester always gets a result, valid exactly when
/// there is no error.
pub fn finish_listing_validation(
    state: &mut TradeListingState,
    request: &ValidationRequest,
    lookup: ListingLookup,
) -> (r: OutboundEnvelope)
    requires
        old(state).well_formed(),
    ensures
        final(state).well_formed(),
        final(state)@ == (if lookup is Valid {
            StoreModel { validated: old(state)@.validated.insert(request.listing_addr@), ..old(state)@ }
        } else {
            old(state)@
        }),
        r.recipient@ == request.requester@,
        r.message_type == MessageType::ListingValidateResult,
        r.listing_addr@ == request.listing_addr@,
        r.order_id is None,
        match r.body {
            OutboundBody::ValidateResult { valid, errors } => {
                &&& valid == (errors@.len() == 0)
                &&& valid == lookup is Valid
                &&& (lookup is Invalid ==> errors@ == lookup_errors(request.listing_addr@, lookup))
                &&& ((lookup is NotFound || lookup is FetchFailed) ==> errors@.len() == 1
                    && lookup_missing_error(request.listing_addr@, lookup, errors@[0]))
            },
            OutboundBody::Forward => false,
        },
{
    let mut errors: Vec<TradeListingValidationError> = Vec::new();
    match lookup {
        ListingLookup::Valid => {
            state.mark_listing_validated(request.listing_addr.as_str());
            proof {
                assert(final(state)@ == StoreModel { validated: old(state)@.validated.insert(request.listing_addr@), ..old(state)@ });
            }
        },
        ListingLookup::Invalid(e) => {
            errors.push(e);
            assert(errors@ =~= lookup_errors(request.listing_addr@, lookup));
        },
        ListingLookup::NotFound => {
            errors.push(TradeListingValidationError::ListingEventNotFound {
                listing_addr: owned(request.listing_addr.as_str()),
            });
        },
        ListingLookup::FetchFailed => {
            errors.push(TradeListingValidationError::ListingEventFetchFailed {
                listing_addr: owned(request.listing_addr.as_str()),
            });
        },
    }
    let valid = errors.len() == 0;
    OutboundEnvelope {
        recipient: owned(request.requester.as_str()),
        message_type: MessageType::ListingValidateResult,
        listing_addr: owned(request.listing_addr.as_str()),
        order_id: None,
        body: OutboundBody::ValidateResult { valid, errors },
    }
}

} // verus!
