use vstd::prelude::*;

verus! {

/// Lifecycle state of an order.
#[derive(Clone, Copy, Debug, PartialEq, Eq, Structural)]
pub enum OrderStatus {
    Draft,
    Validated,
    Requested,
    Questioned,
    Revised,
    Accepted,
    Declined,
    Cancelled,
    Fulfilled,
    Completed,
}

/// Errors raised by the order store and the transition table.
#[derive(Clone, Copy, Debug, PartialEq, Eq, Structural)]
pub enum TradeListingStateError {
    MissingOrder,
    InvalidTransition { from: OrderStatus, to: OrderStatus },
}

/// A terminal status admits no move to another status.
pub open spec fn is_terminal(s: OrderStatus) -> bool {
    s == OrderStatus::Declined || s == OrderStatus::Cancelled || s == OrderStatus::Completed
}

/// The transition table: may an order move from `from` to `to`?
pub open spec fn transition_allowed(from: OrderStatus, to: OrderStatus) -> bool {
    from == to || match from {
        OrderStatus::Draft => to == OrderStatus::Requested,
        OrderStatus::Validated => to == OrderStatus::Requested,
        OrderStatus::Requested => to == OrderStatus::Accepted || to == OrderStatus::Declined
            || to == OrderStatus::Questioned || to == OrderStatus::Revised
            || to == OrderStatus::Cancelled,
        OrderStatus::Questioned => to == OrderStatus::Requested || to == OrderStatus::Revised
            || to == OrderStatus::Cancelled,
        OrderStatus::Revised => to == OrderStatus::Accepted || to == OrderStatus::Declined
            || to == OrderStatus::Cancelled || to == OrderStatus::Requested,
        OrderStatus::Accepted => to == OrderStatus::Fulfilled || to == OrderStatus::Cancelled,
        OrderStatus::Declined => false,
        OrderStatus::Cancelled => false,
        OrderStatus::Fulfilled => to == OrderStatus::Completed || to == OrderStatus::Cancelled,
        OrderStatus::Completed => false,
    }
}

/// A sequence of statuses in which each step is allowed by the table.
pub open spec fn is_valid_path(path: Seq<OrderStatus>) -> bool {
    forall|i: int| 0 <= i < path.len() - 1 ==> #[trigger] transition_allowed(path[i], path[i + 1])
}

impl OrderStatus {
    /// Whether this status ends the order's lifecycle.
    pub fn is_terminal(&self) -> (r: bool)
        ensures
            r == is_terminal(*self),
    {
        match self {
            OrderStatus::Declined | OrderStatus::Cancelled | OrderStatus::Completed => true,
            _ => false,
        }
    }
}

/// Checks one move against the transition table.
pub fn ensure_transition(from: OrderStatus, to: OrderStatus) -> (r: Result<(), TradeListingStateError>)
    ensures
        r is Ok <==> transition_allowed(from, to),
        r is Err ==> r == Err::<(), TradeListingStateError>(
            TradeListingStateError::InvalidTransition { from, to },
        ),
{
    if from == to {
        return Ok(());
    }
    let allowed = match from {
        OrderStatus::Draft => matches!(to, OrderStatus::Requested),
        OrderStatus::Validated => matches!(to, OrderStatus::Requested),
        OrderStatus::Requested => matches!(
            to,
            OrderStatus::Accepted | OrderStatus::Declined | OrderStatus::Questioned
                | OrderStatus::Revised | OrderStatus::Cancelled | OrderStatus::Requested
        ),
        OrderStatus::Questioned => matches!(
            to,
            OrderStatus::Requested | OrderStatus::Revised | OrderStatus::Cancelled
        ),
        OrderStatus::Revised => matches!(
            to,
            OrderStatus::Accepted | OrderStatus::Declined | OrderStatus::Cancelled
                | OrderStatus::Requested
        ),
        OrderStatus::Accepted => matches!(to, OrderStatus::Fulfilled | OrderStatus::Cancelled),
        OrderStatus::Declined => false,
        OrderStatus::Cancelled => false,
        OrderStatus::Fulfilled => matches!(
            to,
            OrderStatus::Completed | OrderStatus::Fulfilled | OrderStatus::Cancelled
        ),
        OrderStatus::Completed => false,
    };
    if allowed {
        Ok(())
    } else {
        Err(TradeListingStateError::InvalidTransition { from, to })
    }
}

/// A terminal status is never followed by a different status.
pub proof fn lemma_terminal_is_final(from: OrderStatus, to: OrderStatus)
    requires
        is_terminal(from),
        transition_allowed(from, to),
    ensures
        to == from,
{
}

/// In a valid path, every status after a terminal one equals it.
pub proof fn lemma_terminal_absorbs(path: Seq<OrderStatus>, i: int, j: int)
    requires
        is_valid_path(path),
        0 <= i <= j < path.len(),
        is_terminal(path[i]),
    ensures
        path[j] == path[i],
    decreases j - i,
{
    if i < j {
        lemma_terminal_absorbs(path, i, j - 1);
        let k = j - 1;
        assert(transition_allowed(path[k], path[k + 1]));
    }
}

} // verus!
