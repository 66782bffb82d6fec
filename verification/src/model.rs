//! The rows the workflow engine reads and writes: documents (invoices), their
//! lines, the stock lines those reference, counterparties and the append-only
//! activity log, together with the well-formedness conditions the engine
//! preserves.
//!
//! Timestamps are instants in milliseconds; quantities are whole pack counts.

use vstd::prelude::*;

use crate::lattice::InvoiceStatus;
use crate::lattice::InvoiceType;
use crate::lattice::kind_uses;
use crate::lattice::status_index;

verus! {

/// An error coming out of the storage layer. The in-memory store never
/// produces one; the variants exist so error taxonomies keep their shape.
#[derive(Clone, Copy, Debug, PartialEq, Eq, Structural)]
pub enum RepositoryError {
    NotFound,
    TransactionError,
}

/// Error for list queries.
#[derive(Clone, Copy, Debug, PartialEq, Eq, Structural)]
pub enum ListError {
    DatabaseError(RepositoryError),
}

/// A page of query results with its total count.
#[derive(Clone, Debug, PartialEq)]
pub struct ListResult<T> {
    pub count: u32,
    pub rows: Vec<T>,
}

/// What an activity-log entry records about a document.
#[derive(Clone, Copy, Debug, PartialEq, Eq, Structural)]
pub enum ActivityLogType {
    InvoiceCreated,
    InvoiceStatusChanged(InvoiceStatus),
    RnrFormCreated,
}

/// One append-only audit record: which document, what happened, when, and by whom.
#[derive(Clone, Debug, PartialEq)]
pub struct ActivityLogRow {
    pub document_id: String,
    pub event_type: ActivityLogType,
    pub datetime: i64,
    pub user_id: String,
}

/// A counterparty (customer or supplier) known to the system.
#[derive(Clone, Debug, PartialEq)]
pub struct NameRow {
    pub id: String,
}

/// Visibility and role of a counterparty within one store's scope.
#[derive(Clone, Debug, PartialEq)]
pub struct NameStoreJoinRow {
    pub id: String,
    pub name_id: String,
    pub store_id: String,
    pub name_is_customer: bool,
    pub name_is_supplier: bool,
}

/// A reason that can be attached to a return line.
#[derive(Clone, Debug, PartialEq)]
pub struct ReturnReasonRow {
    pub id: String,
    pub is_active: bool,
}

/// A stock line: a quantity of one item held by one store.
#[derive(Clone, Debug, PartialEq)]
pub struct StockLineRow {
    pub id: String,
    pub item_id: String,
    pub store_id: String,
    /// Packs physically present.
    pub total_number_of_packs: u64,
    /// Packs not reserved by any document.
    pub available_number_of_packs: u64,
}

/// A transactional document: a shipment, return or adjustment moving through
/// its kind's status sequence.
#[derive(Clone, Debug, PartialEq)]
pub struct InvoiceRow {
    pub id: String,
    pub store_id: String,
    /// The counterparty the document is addressed to.
    pub name_id: String,
    pub user_id: Option<String>,
    pub kind: InvoiceType,
    pub status: InvoiceStatus,
    pub on_hold: bool,
    pub comment: Option<String>,
    pub their_reference: Option<String>,
    pub transport_reference: Option<String>,
    pub colour: Option<String>,
    /// For a return: the shipment it returns goods from.
    pub original_shipment_id: Option<String>,
    pub created_datetime: i64,
    pub allocated_datetime: Option<i64>,
    pub picked_datetime: Option<i64>,
    pub shipped_datetime: Option<i64>,
    pub delivered_datetime: Option<i64>,
    pub verified_datetime: Option<i64>,
}

/// What role a line plays on its document.
#[derive(Clone, Copy, Debug, PartialEq, Eq, Structural)]
pub enum InvoiceLineType {
    StockIn,
    StockOut,
    UnallocatedStock,
    Service,
}

/// A line belonging to exactly one document.
#[derive(Clone, Debug, PartialEq)]
pub struct InvoiceLineRow {
    pub id: String,
    pub invoice_id: String,
    pub item_id: String,
    pub line_type: InvoiceLineType,
    /// The stock line the goods come from or go to, if resolved.
    pub stock_line_id: Option<String>,
    pub number_of_packs: u64,
    pub pack_size: u64,
    /// Derived: the persisted quantity of the referenced stock line, filled
    /// in by side-effect recomputation when a transition requires it.
    pub total_packs: u64,
    pub reason_id: Option<String>,
}

/// The timestamp field of an invoice that belongs to status `s`.
pub open spec fn status_time(inv: InvoiceRow, s: InvoiceStatus) -> Option<i64> {
    match s {
        InvoiceStatus::New => Some(inv.created_datetime),
        InvoiceStatus::Allocated => inv.allocated_datetime,
        InvoiceStatus::Picked => inv.picked_datetime,
        InvoiceStatus::Shipped => inv.shipped_datetime,
        InvoiceStatus::Delivered => inv.delivered_datetime,
        InvoiceStatus::Verified => inv.verified_datetime,
    }
}

/// No timestamp field of a status beyond `s` is set.
pub open spec fn timestamps_clear_beyond(inv: InvoiceRow, s: InvoiceStatus) -> bool {
    &&& status_index(s) < 1 ==> inv.allocated_datetime is None
    &&& status_index(s) < 2 ==> inv.picked_datetime is None
    &&& status_index(s) < 3 ==> inv.shipped_datetime is None
    &&& status_index(s) < 4 ==> inv.delivered_datetime is None
    &&& status_index(s) < 5 ==> inv.verified_datetime is None
}

/// A well-formed document: its status belongs to its kind's sequence and a
/// status it has not reached yet has no timestamp.
pub open spec fn invoice_wf(inv: InvoiceRow) -> bool {
    &&& kind_uses(inv.kind, inv.status)
    &&& timestamps_clear_beyond(inv, inv.status)
}

/// Copy an optional text field.
pub fn clone_opt_string(o: &Option<String>) -> (r: Option<String>)
    ensures
        r == *o,
{
    match o {
        Some(s) => Some(s.clone()),
        None => None,
    }
}

/// Copy an optional instant.
pub fn clone_opt_i64(o: &Option<i64>) -> (r: Option<i64>)
    ensures
        r == *o,
{
    match o {
        Some(t) => Some(*t),
        None => None,
    }
}

impl InvoiceRow {
    /// An exact copy of the row.
    pub fn clone_row(&self) -> (r: InvoiceRow)
        ensures
            r == *self,
    {
        InvoiceRow {
            id: self.id.clone(),
            store_id: self.store_id.clone(),
            name_id: self.name_id.clone(),
            user_id: clone_opt_string(&self.user_id),
            kind: self.kind,
            status: self.status,
            on_hold: self.on_hold,
            comment: clone_opt_string(&self.comment),
            their_reference: clone_opt_string(&self.their_reference),
            transport_reference: clone_opt_string(&self.transport_reference),
            colour: clone_opt_string(&self.colour),
            original_shipment_id: clone_opt_string(&self.original_shipment_id),
            created_datetime: self.created_datetime,
            allocated_datetime: clone_opt_i64(&self.allocated_datetime),
            picked_datetime: clone_opt_i64(&self.picked_datetime),
            shipped_datetime: clone_opt_i64(&self.shipped_datetime),
            delivered_datetime: clone_opt_i64(&self.delivered_datetime),
            verified_datetime: clone_opt_i64(&self.verified_datetime),
        }
    }
}

impl InvoiceLineRow {
    /// An exact copy of the row.
    pub fn clone_row(&self) -> (r: InvoiceLineRow)
        ensures
            r == *self,
    {
        InvoiceLineRow {
            id: self.id.clone(),
            invoice_id: self.invoice_id.clone(),
            item_id: self.item_id.clone(),
            line_type: self.line_type,
            stock_line_id: clone_opt_string(&self.stock_line_id),
            number_of_packs: self.number_of_packs,
            pack_size: self.pack_size,
            total_packs: self.total_packs,
            reason_id: clone_opt_string(&self.reason_id),
        }
    }
}

impl StockLineRow {
    /// An exact copy of the row.
    pub fn clone_row(&self) -> (r: StockLineRow)
        ensures
            r == *self,
    {
        StockLineRow {
            id: self.id.clone(),
            item_id: self.item_id.clone(),
            store_id: self.store_id.clone(),
            total_number_of_packs: self.total_number_of_packs,
            available_number_of_packs: self.available_number_of_packs,
        }
    }
}

} // verus!
