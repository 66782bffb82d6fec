//! Line-level pieces of the stock-in workflows: which document kinds take
//! stock in, and the errors line insertion and reason updates can raise.

use vstd::prelude::*;

use crate::lattice::InvoiceType;
use crate::model::RepositoryError;
use crate::model::ReturnReasonRow;

verus! {

/// The document kinds that bring stock into a store.
#[derive(Clone, Copy, Debug, Default, PartialEq, Eq, Structural)]
pub enum StockInType {
    #[default]
    CustomerReturn,
    InventoryAddition,
    InboundShipment,
}

/// The document kind a stock-in kind stands for.
pub open spec fn stock_in_domain(s: StockInType) -> InvoiceType {
    match s {
        StockInType::CustomerReturn => InvoiceType::CustomerReturn,
        StockInType::InventoryAddition => InvoiceType::InventoryAddition,
        StockInType::InboundShipment => InvoiceType::InboundShipment,
    }
}

impl StockInType {
    /// The document kind this stock-in kind stands for.
    pub fn to_domain(&self) -> (r: InvoiceType)
        ensures
            r == stock_in_domain(*self),
    {
        match self {
            StockInType::CustomerReturn => InvoiceType::CustomerReturn,
            StockInType::InventoryAddition => InvoiceType::InventoryAddition,
            StockInType::InboundShipment => InvoiceType::InboundShipment,
        }
    }
}

/// Why inserting a stock-in line was refused.
#[derive(Clone, Copy, Debug, PartialEq, Eq, Structural)]
pub enum InsertStockInLineError {
    LineAlreadyExists,
    DatabaseError(RepositoryError),
}

/// Why updating a line's return reason was refused.
#[derive(Clone, Copy, Debug, PartialEq, Eq, Structural)]
pub enum UpdateLineReturnReasonError {
    LineDoesNotExist,
    ReasonDoesNotExist,
    DatabaseError(RepositoryError),
}

/// An active return reason with this id exists.
pub open spec fn reason_active(s: Seq<ReturnReasonRow>, id: Seq<char>) -> bool {
    exists|i: int| 0 <= i < s.len() && s[i].id@ == id && s[i].is_active
}

/// Whether an active return reason with this id exists.
pub fn check_reason_active(reasons: &Vec<ReturnReasonRow>, id: &String) -> (r: bool)
    ensures
        r == reason_active(reasons@, id@),
{
    let n: usize = reasons.len();
    let mut k: usize = 0;
    while k < n
        invariant
            n == reasons@.len(),
            k <= n,
            forall|j: int|
                0 <= j < k ==> !(reasons@[j].id@ == id@ && reasons@[j].is_active),
        decreases n - k,
    {
        if reasons[k].id == *id && reasons[k].is_active {
            return true;
        }
        k = k + 1;
    }
    false
}

} // verus!
