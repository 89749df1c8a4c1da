use vstd::prelude::*;
use crate::status::OrderStatus;
use crate::text::{owned, same_text};

verus! {

/// One order as the store keeps it.
#[derive(Clone, Debug)]
pub struct TradeOrderState {
    pub order_id: String,
    pub listing_addr: String,
    pub buyer_pubkey: String,
    pub seller_pubkey: String,
    pub status: OrderStatus,
    pub seen_event_ids: Vec<String>,
}

/// What an order is, abstractly.
pub struct OrderModel {
    pub order_id: Seq<char>,
    pub listing_addr: Seq<char>,
    pub buyer: Seq<char>,
    pub seller: Seq<char>,
    pub status: OrderStatus,
    pub seen: Set<Seq<char>>,
}

/// What the store is, abstractly: validated listings and orders by id.
pub struct StoreModel {
    pub validated: Set<Seq<char>>,
    pub orders: Map<Seq<char>, OrderModel>,
}

pub open spec fn seq_has(v: Seq<String>, s: Seq<char>) -> bool {
    exists|i: int| 0 <= i < v.len() && (#[trigger] v[i])@ == s
}

pub open spec fn text_set(v: Seq<String>) -> Set<Seq<char>> {
    Set::new(|s: Seq<char>| seq_has(v, s))
}

impl View for TradeOrderState {
    type V = OrderModel;

    open spec fn view(&self) -> OrderModel {
        OrderModel {
            order_id: self.order_id@,
            listing_addr: self.listing_addr@,
            buyer: self.buyer_pubkey@,
            seller: self.seller_pubkey@,
            status: self.status,
            seen: text_set(self.seen_event_ids@),
        }
    }
}

/// Whether `s` is one of the strings in `v`.
fn contains_text(v: &Vec<String>, s: &str) -> (r: bool)
    ensures
        r == seq_has(v@, s@),
{
    let n = v.len();
    let mut i: usize = 0;
    while i < n
        invariant
            n == v@.len(),
            i <= n,
            forall|j: int| 0 <= j < i ==> (#[trigger] v@[j])@ != s@,
        decreases n - i,
    {
        if same_text(v[i].as_str(), s) {
            return true;
        }
        i = i + 1;
    }
    false
}

/// Adds `s` to `v` unless it is there already; says whether it was added.
fn insert_text(v: &mut Vec<String>, s: &str) -> (r: bool)
    ensures
        r == !seq_has(old(v)@, s@),
        text_set(final(v)@) == text_set(old(v)@).insert(s@),
{
    if contains_text(v, s) {
        assert(text_set(v@) =~= text_set(v@).insert(s@));
        return false;
    }
    v.push(owned(s));
    assert(text_set(final(v)@) =~= text_set(old(v)@).insert(s@)) by {
        assert(final(v)@[old(v)@.len() as int]@ == s@);
        assert forall|t: Seq<char>| seq_has(old(v)@, t) implies seq_has(final(v)@, t) by {
            {
                let j = choose|j: int| 0 <= j < old(v)@.len() && (#[trigger] old(v)@[j])@ == t;
                assert(final(v)@[j] == old(v)@[j]);
            }
        }
        assert forall|t: Seq<char>| seq_has(final(v)@, t) implies seq_has(old(v)@, t) || t == s@ by {
            {
                let j = choose|j: int| 0 <= j < final(v)@.len() && (#[trigger] final(v)@[j])@ == t;
                if j < old(v)@.len() {
                    assert(old(v)@[j] == final(v)@[j]);
                }
            }
        }
    }
    true
}

/// The per-process store: validated listing addresses and orders by id.
#[derive(Debug)]
pub struct TradeListingState {
    validated_listings: Vec<String>,
    orders: Vec<TradeOrderState>,
}

impl TradeListingState {
    /// No two stored orders share an id.
    pub closed spec fn well_formed(&self) -> bool {
        forall|i: int, j: int|
            0 <= i < self.orders@.len() && 0 <= j < self.orders@.len() && i != j
                ==> (#[trigger] self.orders@[i]).order_id@ != (#[trigger] self.orders@[j]).order_id@
    }

    pub closed spec fn has_order(&self, id: Seq<char>) -> bool {
        exists|i: int| 0 <= i < self.orders@.len() && (#[trigger] self.orders@[i]).order_id@ == id
    }

    pub closed spec fn index_of(&self, id: Seq<char>) -> int {
        choose|i: int| 0 <= i < self.orders@.len() && (#[trigger] self.orders@[i]).order_id@ == id
    }

    pub closed spec fn view(&self) -> StoreModel {
        StoreModel {
            validated: text_set(self.validated_listings@),
            orders: Map::new(
                |id: Seq<char>| self.has_order(id),
                |id: Seq<char>| self.orders@[self.index_of(id)]@,
            ),
        }
    }

    proof fn lemma_index_of(&self, i: int)
        requires
            self.well_formed(),
            0 <= i < self.orders@.len(),
        ensures
            self.has_order(self.orders@[i].order_id@),
            self.index_of(self.orders@[i].order_id@) == i,
    {
        let id = self.orders@[i].order_id@;
        assert(self.has_order(id));
        let k = self.index_of(id);
        assert(self.orders@[k].order_id@ == id);
    }

    /// An empty store.
    pub fn new() -> (r: Self)
        ensures
            r.well_formed(),
            r@.validated == Set::<Seq<char>>::empty(),
            r@.orders == Map::<Seq<char>, OrderModel>::empty(),
    {
        let r = TradeListingState { validated_listings: Vec::new(), orders: Vec::new() };
        assert(r@.validated =~= Set::<Seq<char>>::empty());
        assert(r@.orders =~= Map::<Seq<char>, OrderModel>::empty());
        r
    }

    /// Records a listing address as validated; doing it again changes nothing.
    pub fn mark_listing_validated(&mut self, listing_addr: &str)
        ensures
            final(self).well_formed() == old(self).well_formed(),
            final(self)@.validated == old(self)@.validated.insert(listing_addr@),
            final(self)@.orders == old(self)@.orders,
    {
        insert_text(&mut self.validated_listings, listing_addr);
        assert(final(self)@.orders =~= old(self)@.orders);
    }

    pub fn is_listing_validated(&self, listing_addr: &str) -> (r: bool)
        ensures
            r == self@.validated.contains(listing_addr@),
    {
        contains_text(&self.validated_listings, listing_addr)
    }

    /// Position of the order with this id.
    fn find(&self, order_id: &str) -> (r: Option<usize>)
        requires
            self.well_formed(),
        ensures
            match r {
                Some(i) => i < self.orders@.len() && self.orders@[i as int].order_id@ == order_id@
                    && self.index_of(order_id@) == i,
                None => !self.has_order(order_id@),
            },
    {
        let n = self.orders.len();
        let mut i: usize = 0;
        while i < n
            invariant
                n == self.orders@.len(),
                i <= n,
                self.well_formed(),
                forall|j: int| 0 <= j < i ==> (#[trigger] self.orders@[j]).order_id@ != order_id@,
            decreases n - i,
        {
            if same_text(self.orders[i].order_id.as_str(), order_id) {
                proof {
                    self.lemma_index_of(i as int);
                }
                return Some(i);
            }
            i = i + 1;
        }
        None
    }

    pub fn order_exists(&self, order_id: &str) -> (r: bool)
        requires
            self.well_formed(),
        ensures
            r == self@.orders.contains_key(order_id@),
    {
        self.find(order_id).is_some()
    }

    /// The order with this id, if any.
    pub fn get_order(&self, order_id: &str) -> (r: Option<&TradeOrderState>)
        requires
            self.well_formed(),
        ensures
            match r {
                Some(o) => self@.orders.contains_key(order_id@) && self@.orders[order_id@] == o@,
                None => !self@.orders.contains_key(order_id@),
            },
    {
        match self.find(order_id) {
            Some(i) => Some(&self.orders[i]),
            None => None,
        }
    }

    /// The order with this id, for changing in place. The store keeps it
    /// under the same id as long as its `order_id` is left as it is.
    pub fn get_order_mut(&mut self, order_id: &str) -> (r: Option<&mut TradeOrderState>)
        requires
            old(self).well_formed(),
        ensures
            match r {
                Some(o) => {
                    &&& old(self)@.orders.contains_key(order_id@)
                    &&& (*o)@ == old(self)@.orders[order_id@]
                    &&& final(o).order_id@ == order_id@ ==> {
                        &&& final(self).well_formed()
                        &&& final(self)@.validated == old(self)@.validated
                        &&& final(self)@.orders == old(self)@.orders.insert(order_id@, final(o)@)
                    }
                },
                None => !old(self)@.orders.contains_key(order_id@) && *final(self) == *old(self),
            },
    {
        match self.find(order_id) {
            Some(i) => {
                proof {
                    Self::lemma_update_any(self, i as int);
                }
                let o = &mut self.orders[i];
                Some(o)
            },
            None => None,
        }
    }

    /// Stores an order under its id, replacing one stored under the same id.
    pub fn insert_order(&mut self, order: TradeOrderState)
        requires
            old(self).well_formed(),
        ensures
            final(self).well_formed(),
            final(self)@.validated == old(self)@.validated,
            final(self)@.orders == old(self)@.orders.insert(order.order_id@, order@),
    {
        let ghost o = order@;
        let ghost id = order.order_id@;
        match self.find(order.order_id.as_str()) {
            Some(i) => {
                let ghost before = *self;
                self.orders.set(i, order);
                proof {
                    Self::lemma_update_at(&before, self, i as int, self.orders@[i as int]);
                }
            },
            None => {
                self.orders.push(order);
                proof {
                    let n = old(self).orders@.len() as int;
                    assert forall|a: int, b: int|
                        0 <= a < self.orders@.len() && 0 <= b < self.orders@.len() && a != b
                            implies (#[trigger] self.orders@[a]).order_id@ != (#[trigger] self.orders@[b]).order_id@ by {
                        if a < n && b < n {
                            assert(old(self).orders@[a] == self.orders@[a]);
                            assert(old(self).orders@[b] == self.orders@[b]);
                        } else if a < n {
                            assert(old(self).orders@[a] == self.orders@[a]);
                        } else if b < n {
                            assert(old(self).orders@[b] == self.orders@[b]);
                        }
                    }
                    assert forall|k: Seq<char>| #[trigger] self.has_order(k) == (old(self).has_order(k) || k == id) by {
                        if old(self).has_order(k) {
                            let j = old(self).index_of(k);
                            assert(self.orders@[j] == old(self).orders@[j]);
                        }
                        if k == id {
                            assert(self.orders@[n].order_id@ == id);
                        }
                        if self.has_order(k) {
                            let j = self.index_of(k);
                            if j < n {
                                assert(old(self).orders@[j] == self.orders@[j]);
                            }
                        }
                    }
                    assert forall|k: Seq<char>| self.has_order(k) implies
                        #[trigger] self.orders@[self.index_of(k)]@ == (if k == id { o } else { old(self).orders@[old(self).index_of(k)]@ }) by {
                        let j = self.index_of(k);
                        self.lemma_index_of(j);
                        if k != id {
                            assert(j < n);
                            assert(old(self).orders@[j] == self.orders@[j]);
                            old(self).lemma_index_of(j);
                        }
                    }
                    assert(self@.orders =~= old(self)@.orders.insert(id, o));
                }
            },
        }
    }

    /// Replacing the order at `i` by one with the same id updates that one entry.
    proof fn lemma_update_at(old_s: &Self, new_s: &Self, i: int, x: TradeOrderState)
        requires
            old_s.well_formed(),
            0 <= i < old_s.orders@.len(),
            x.order_id@ == old_s.orders@[i].order_id@,
            new_s.orders@ == old_s.orders@.update(i, x),
            new_s.validated_listings@ == old_s.validated_listings@,
        ensures
            new_s.well_formed(),
            new_s@.validated == old_s@.validated,
            new_s@.orders == old_s@.orders.insert(x.order_id@, x@),
    {
        let id = x.order_id@;
        assert forall|a: int, b: int|
            0 <= a < new_s.orders@.len() && 0 <= b < new_s.orders@.len() && a != b
                implies (#[trigger] new_s.orders@[a]).order_id@ != (#[trigger] new_s.orders@[b]).order_id@ by {
            assert(old_s.orders@[i].order_id@ == id);
        }
        assert forall|k: Seq<char>| #[trigger] new_s.has_order(k) == old_s.has_order(k) by {
            if old_s.has_order(k) {
                let j = old_s.index_of(k);
                assert(new_s.orders@[j].order_id@ == k);
            }
            if new_s.has_order(k) {
                let j = new_s.index_of(k);
                assert(old_s.orders@[j].order_id@ == k);
            }
        }
        assert forall|k: Seq<char>| new_s.has_order(k) implies
            #[trigger] new_s.orders@[new_s.index_of(k)]@ == (if k == id { x@ } else { old_s.orders@[old_s.index_of(k)]@ }) by {
            let j = new_s.index_of(k);
            new_s.lemma_index_of(j);
            if k != id {
                old_s.lemma_index_of(j);
            }
        }
        old_s.lemma_index_of(i);
        assert(new_s@.validated =~= old_s@.validated);
        assert(new_s@.orders =~= old_s@.orders.insert(id, x@));
    }

    /// `lemma_update_at` for whatever value later takes the place at `i`.
    proof fn lemma_update_any(old_s: &Self, i: int)
        requires
            old_s.well_formed(),
            0 <= i < old_s.orders@.len(),
        ensures
            forall|new_s: Self, x: TradeOrderState|
                #![trigger new_s.orders@, old_s.orders@.update(i, x)]
                x.order_id@ == old_s.orders@[i].order_id@
                    && new_s.orders@ == old_s.orders@.update(i, x)
                    && new_s.validated_listings@ == old_s.validated_listings@
                    ==> new_s.well_formed() && new_s@.validated == old_s@.validated
                        && new_s@.orders == old_s@.orders.insert(x.order_id@, x@),
    {
        assert forall|new_s: Self, x: TradeOrderState|
            x.order_id@ == old_s.orders@[i].order_id@
                && new_s.orders@ == old_s.orders@.update(i, x)
                && new_s.validated_listings@ == old_s.validated_listings@
            implies new_s.well_formed() && new_s@.validated == old_s@.validated
                && new_s@.orders == old_s@.orders.insert(x.order_id@, x@) by {
            Self::lemma_update_at(old_s, &new_s, i, x);
        }
    }

    /// Notes that an order has seen an event; says whether the event was new to it.
    /// Without such an order nothing changes and the answer is `false`.
    pub fn mark_event_seen(&mut self, order_id: &str, event_id: &str) -> (r: bool)
        requires
            old(self).well_formed(),
        ensures
            final(self).well_formed(),
            final(self)@.validated == old(self)@.validated,
            old(self)@.orders.contains_key(order_id@) ==> {
                let o = old(self)@.orders[order_id@];
                &&& r == !o.seen.contains(event_id@)
                &&& final(self)@.orders == old(self)@.orders.insert(
                    order_id@,
                    OrderModel { seen: o.seen.insert(event_id@), ..o },
                )
            },
            !old(self)@.orders.contains_key(order_id@) ==> !r && final(self)@ == old(self)@,
    {
        match self.find(order_id) {
            Some(i) => {
                let ghost before = *self;
                let o = &mut self.orders[i];
                let fresh = insert_text(&mut o.seen_event_ids, event_id);
                proof {
                    let x = self.orders@[i as int];
                    Self::lemma_update_at(&before, self, i as int, x);
                    assert(x@ == OrderModel { seen: before@.orders[order_id@].seen.insert(event_id@), ..before@.orders[order_id@] });
                }
                fresh
            },
            None => false,
        }
    }

    /// Whether the order has seen the event; `false` when there is no such order.
    pub fn is_event_seen(&self, order_id: &str, event_id: &str) -> (r: bool)
        requires
            self.well_formed(),
        ensures
            r == (self@.orders.contains_key(order_id@) && self@.orders[order_id@].seen.contains(event_id@)),
    {
        match self.find(order_id) {
            Some(i) => contains_text(&self.orders[i].seen_event_ids, event_id),
            None => false,
        }
    }

    /// Moves an order to `status` and notes the event that moved it.
    pub fn record_step(&mut self, order_id: &str, status: OrderStatus, event_id: &str)
        requires
            old(self).well_formed(),
            old(self)@.orders.contains_key(order_id@),
        ensures
            final(self).well_formed(),
            final(self)@.validated == old(self)@.validated,
            final(self)@.orders == old(self)@.orders.insert(
                order_id@,
                OrderModel {
                    status,
                    seen: old(self)@.orders[order_id@].seen.insert(event_id@),
                    ..old(self)@.orders[order_id@]
                },
            ),
    {
        match self.find(order_id) {
            Some(i) => {
                let ghost before = *self;
                let o = &mut self.orders[i];
                o.status = status;
                insert_text(&mut o.seen_event_ids, event_id);
                proof {
                    let x = self.orders@[i as int];
                    Self::lemma_update_at(&before, self, i as int, x);
                    assert(x@ == OrderModel {
                        status,
                        seen: before@.orders[order_id@].seen.insert(event_id@),
                        ..before@.orders[order_id@]
                    });
                }
            },
            None => {},
        }
    }
}

impl Default for TradeListingState {
    fn default() -> (r: Self)
        ensures
            r.well_formed(),
            r@.validated == Set::<Seq<char>>::empty(),
            r@.orders == Map::<Seq<char>, OrderModel>::empty(),
    {
        TradeListingState::new()
    }
}

} // verus!
