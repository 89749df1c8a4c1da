use vstd::prelude::*;
use crate::text::{owned, same_text};

verus! {

/// The job-request input markers of the trade flow.
#[derive(Clone, Copy, Debug, PartialEq, Eq, Structural)]
pub enum JobRequestInputMarker {
    TradeOrder,
    TradeAccept,
    TradeConveyance,
    TradeInvoice,
    TradePayment,
    TradeFulfillment,
    TradeReceipt,
}

/// A text that names no marker.
#[derive(Clone, Debug, PartialEq, Eq)]
pub struct InvalidInputMarker(pub String);

impl JobRequestInputMarker {
    pub open spec fn name_spec(self) -> Seq<char> {
        match self {
            JobRequestInputMarker::TradeOrder => "order"@,
            JobRequestInputMarker::TradeAccept => "accept"@,
            JobRequestInputMarker::TradeConveyance => "conveyance"@,
            JobRequestInputMarker::TradeInvoice => "invoice"@,
            JobRequestInputMarker::TradePayment => "payment"@,
            JobRequestInputMarker::TradeFulfillment => "fulfillment"@,
            JobRequestInputMarker::TradeReceipt => "receipt"@,
        }
    }

    /// The marker's wire name.
    pub fn as_str(&self) -> (r: &'static str)
        ensures
            r@ == self.name_spec(),
    {
        match self {
            JobRequestInputMarker::TradeOrder => "order",
            JobRequestInputMarker::TradeAccept => "accept",
            JobRequestInputMarker::TradeConveyance => "conveyance",
            JobRequestInputMarker::TradeInvoice => "invoice",
            JobRequestInputMarker::TradePayment => "payment",
            JobRequestInputMarker::TradeFulfillment => "fulfillment",
            JobRequestInputMarker::TradeReceipt => "receipt",
        }
    }

    /// The marker's wire name, owned.
    pub fn to_string(&self) -> (r: String)
        ensures
            r@ == self.name_spec(),
    {
        owned(self.as_str())
    }

    /// The marker a wire name stands for.
    pub fn try_from(s: &str) -> (r: Result<JobRequestInputMarker, InvalidInputMarker>)
        ensures
            match r {
                Ok(m) => m.name_spec() == s@,
                Err(InvalidInputMarker(t)) => t@ == s@ && forall|m: JobRequestInputMarker| m.name_spec() != s@,
            },
    {
        let all = [
            JobRequestInputMarker::TradeOrder,
            JobRequestInputMarker::TradeAccept,
            JobRequestInputMarker::TradeConveyance,
            JobRequestInputMarker::TradeInvoice,
            JobRequestInputMarker::TradePayment,
            JobRequestInputMarker::TradeFulfillment,
            JobRequestInputMarker::TradeReceipt,
        ];
        let mut i: usize = 0;
        while i < 7
            invariant
                i <= 7,
                all@ == seq![
                    JobRequestInputMarker::TradeOrder,
                    JobRequestInputMarker::TradeAccept,
                    JobRequestInputMarker::TradeConveyance,
                    JobRequestInputMarker::TradeInvoice,
                    JobRequestInputMarker::TradePayment,
                    JobRequestInputMarker::TradeFulfillment,
                    JobRequestInputMarker::TradeReceipt,
                ],
                forall|j: int| 0 <= j < i ==> (#[trigger] all@[j]).name_spec() != s@,
            decreases 7 - i,
        {
            let m = all[i];
            if same_text(m.as_str(), s) {
                return Ok(m);
            }
            i = i + 1;
        }
        proof {
            assert forall|m: JobRequestInputMarker| m.name_spec() != s@ by {
                match m {
                    JobRequestInputMarker::TradeOrder => assert(all@[0] == m),
                    JobRequestInputMarker::TradeAccept => assert(all@[1] == m),
                    JobRequestInputMarker::TradeConveyance => assert(all@[2] == m),
                    JobRequestInputMarker::TradeInvoice => assert(all@[3] == m),
                    JobRequestInputMarker::TradePayment => assert(all@[4] == m),
                    JobRequestInputMarker::TradeFulfillment => assert(all@[5] == m),
                    JobRequestInputMarker::TradeReceipt => assert(all@[6] == m),
                }
            }
        }
        Err(InvalidInputMarker(owned(s)))
    }

    /// Same as `try_from`.
    pub fn from_str(s: &str) -> (r: Result<JobRequestInputMarker, InvalidInputMarker>)
        ensures
            match r {
                Ok(m) => m.name_spec() == s@,
                Err(InvalidInputMarker(t)) => t@ == s@ && forall|m: JobRequestInputMarker| m.name_spec() != s@,
            },
    {
        Self::try_from(s)
    }
}

} // verus!
