//! Validating an update to an outbound shipment, including the rule that a
//! shipment may only advance out of `New` once no unallocated lines with a
//! nonzero quantity remain.

use vstd::prelude::*;

use crate::lattice::InvoiceStatus;
use crate::lattice::InvoiceType;
use crate::lattice::is_editable;
use crate::model::InvoiceLineRow;
use crate::model::InvoiceLineType;
use crate::model::InvoiceRow;
use crate::store::Store;
use crate::store::find_invoice;
use crate::store::invoice_index;
use crate::validate::InvoiceRowStatusError;
use crate::validate::check_invoice_is_editable;
use crate::validate::check_invoice_status;
use crate::validate::check_invoice_type;
use crate::validate::check_status_change;
use crate::validate::check_store;
use crate::validate::invoice_status_error;
use crate::validate::status_changed;

verus! {

/// The statuses a caller may move an outbound shipment to.
#[derive(Clone, Copy, Debug, PartialEq, Eq, Structural)]
pub enum UpdateOutboundShipmentStatus {
    Allocated,
    Picked,
    Shipped,
}

/// What a caller supplies to update an outbound shipment.
#[derive(Clone, Debug, Default, PartialEq)]
pub struct UpdateOutboundShipment {
    pub id: String,
    pub status: Option<UpdateOutboundShipmentStatus>,
    pub on_hold: Option<bool>,
    pub comment: Option<String>,
    pub their_reference: Option<String>,
    pub colour: Option<String>,
    pub transport_reference: Option<String>,
}

/// Why updating an outbound shipment was refused.
#[derive(Clone, Debug, PartialEq)]
pub enum UpdateOutboundShipmentError {
    InvoiceDoesNotExist,
    NotThisStoreInvoice,
    NotAnOutboundShipment,
    InvoiceIsNotEditable,
    CannotReverseInvoiceStatus,
    CannotChangeStatusOfInvoiceOnHold,
    /// Carries the unallocated lines that still hold a nonzero quantity.
    CanOnlyChangeToAllocatedWhenNoUnallocatedLines(Vec<InvoiceLineRow>),
}

/// The document status a requested shipment status stands for.
pub open spec fn shipment_status(s: UpdateOutboundShipmentStatus) -> InvoiceStatus {
    match s {
        UpdateOutboundShipmentStatus::Allocated => InvoiceStatus::Allocated,
        UpdateOutboundShipmentStatus::Picked => InvoiceStatus::Picked,
        UpdateOutboundShipmentStatus::Shipped => InvoiceStatus::Shipped,
    }
}

/// The requested target status, if any.
pub open spec fn shipment_full_status(s: Option<UpdateOutboundShipmentStatus>) -> Option<
    InvoiceStatus,
> {
    match s {
        None => None,
        Some(x) => Some(shipment_status(x)),
    }
}

/// The document's unallocated lines that still hold a nonzero quantity, in
/// table order: these block the move out of `New`. Zero-quantity unallocated
/// lines do not count.
pub open spec fn unallocated_lines(lines: Seq<InvoiceLineRow>, invoice_id: Seq<char>) -> Seq<
    InvoiceLineRow,
>
    decreases lines.len(),
{
    if lines.len() == 0 {
        Seq::empty()
    } else {
        let pre = unallocated_lines(lines.drop_last(), invoice_id);
        let l = lines.last();
        if l.invoice_id@ == invoice_id && l.line_type is UnallocatedStock && l.number_of_packs
            != 0 {
            pre.push(l)
        } else {
            pre
        }
    }
}

/// Whether the request moves the document out of `New` and must therefore
/// pass the unallocated-lines check.
pub open spec fn allocated_check_applies(
    inv: InvoiceRow,
    requested: Option<InvoiceStatus>,
) -> bool {
    inv.status is New && (requested matches Some(s) && !(s is New))
}

/// The first precondition the update request violates among the payload-free
/// checks, in the validator's fixed order: existence, store scope, kind,
/// editability, then - only when a real status change is requested - the
/// hold flag and the transition direction.
pub open spec fn shipment_precheck_error(
    store: Store,
    store_id: Seq<char>,
    patch: UpdateOutboundShipment,
) -> Option<UpdateOutboundShipmentError> {
    match find_invoice(store.invoices@, patch.id@) {
        None => Some(UpdateOutboundShipmentError::InvoiceDoesNotExist),
        Some(inv) => {
            if inv.store_id@ != store_id {
                Some(UpdateOutboundShipmentError::NotThisStoreInvoice)
            } else if !(inv.kind is OutboundShipment) {
                Some(UpdateOutboundShipmentError::NotAnOutboundShipment)
            } else if !is_editable(inv.kind, inv.status) {
                Some(UpdateOutboundShipmentError::InvoiceIsNotEditable)
            } else if status_changed(inv.status, shipment_full_status(patch.status)) {
                match invoice_status_error(inv, shipment_full_status(patch.status), patch.on_hold) {
                    Some(InvoiceRowStatusError::CannotChangeStatusOfInvoiceOnHold) => Some(
                        UpdateOutboundShipmentError::CannotChangeStatusOfInvoiceOnHold,
                    ),
                    Some(InvoiceRowStatusError::CannotReverseInvoiceStatus) => Some(
                        UpdateOutboundShipmentError::CannotReverseInvoiceStatus,
                    ),
                    None => None,
                }
            } else {
                None
            }
        },
    }
}

impl UpdateOutboundShipmentStatus {
    /// The document status this request stands for.
    pub fn full_status(&self) -> (r: InvoiceStatus)
        ensures
            r == shipment_status(*self),
    {
        match self {
            UpdateOutboundShipmentStatus::Allocated => InvoiceStatus::Allocated,
            UpdateOutboundShipmentStatus::Picked => InvoiceStatus::Picked,
            UpdateOutboundShipmentStatus::Shipped => InvoiceStatus::Shipped,
        }
    }
}

impl UpdateOutboundShipment {
    /// The document status the patch asks for, if any.
    pub fn full_status(&self) -> (r: Option<InvoiceStatus>)
        ensures
            r == shipment_full_status(self.status),
    {
        match &self.status {
            Some(s) => Some(s.full_status()),
            None => None,
        }
    }
}

/// Refuses to move a shipment out of `New` while unallocated lines with a
/// nonzero quantity remain, handing those lines back. Zero-quantity
/// unallocated lines never block the move.
pub fn check_can_change_status_to_allocated(
    store: &Store,
    invoice_row: &InvoiceRow,
    status_option: Option<InvoiceStatus>,
) -> (r: Result<(), UpdateOutboundShipmentError>)
    ensures
        if allocated_check_applies(*invoice_row, status_option) && unallocated_lines(
            store.invoice_lines@,
            invoice_row.id@,
        ).len() > 0 {
            r matches Err(
                UpdateOutboundShipmentError::CanOnlyChangeToAllocatedWhenNoUnallocatedLines(v),
            ) && v@ == unallocated_lines(store.invoice_lines@, invoice_row.id@)
        } else {
            r == Ok::<(), UpdateOutboundShipmentError>(())
        },
{
    if !(invoice_row.status == InvoiceStatus::New) {
        return Ok(());
    }
    let new_status = match status_option {
        Some(s) => s,
        None => {
            return Ok(());
        },
    };
    if new_status == InvoiceStatus::New {
        return Ok(());
    }

    let mut found: Vec<InvoiceLineRow> = Vec::new();
    let n: usize = store.invoice_lines.len();
    let mut k: usize = 0;
    while k < n
        invariant
            n == store.invoice_lines@.len(),
            k <= n,
            found@ == unallocated_lines(
                store.invoice_lines@.subrange(0, k as int),
                invoice_row.id@,
            ),
        decreases n - k,
    {
        let line = &store.invoice_lines[k];
        proof {
            assert(store.invoice_lines@.subrange(0, k as int + 1).drop_last()
                =~= store.invoice_lines@.subrange(0, k as int));
            assert(store.invoice_lines@.subrange(0, k as int + 1).last()
                == store.invoice_lines@[k as int]);
        }
        if line.invoice_id == invoice_row.id && line.line_type == InvoiceLineType::UnallocatedStock
            && line.number_of_packs != 0 {
            found.push(line.clone_row());
        }
        k = k + 1;
    }
    proof {
        assert(store.invoice_lines@.subrange(0, store.invoice_lines@.len() as int)
            =~= store.invoice_lines@);
    }

    if found.len() > 0 {
        return Err(
            UpdateOutboundShipmentError::CanOnlyChangeToAllocatedWhenNoUnallocatedLines(found),
        );
    }
    Ok(())
}

/// Checks an outbound-shipment update in the validator's fixed order and
/// hands back the current document and whether the status actually changes.
pub fn validate(store: &Store, store_id: &String, patch: &UpdateOutboundShipment) -> (r: Result<
    (InvoiceRow, bool),
    UpdateOutboundShipmentError,
>)
    requires
        store.wf(),
    ensures
        match shipment_precheck_error(*store, store_id@, *patch) {
            Some(e) => r == Err::<(InvoiceRow, bool), UpdateOutboundShipmentError>(e),
            None => match find_invoice(store.invoices@, patch.id@) {
                None => false,
                Some(inv) => {
                    if status_changed(inv.status, shipment_full_status(patch.status))
                        && allocated_check_applies(inv, shipment_full_status(patch.status))
                        && unallocated_lines(store.invoice_lines@, inv.id@).len() > 0 {
                        r matches Err(
                            UpdateOutboundShipmentError::CanOnlyChangeToAllocatedWhenNoUnallocatedLines(
                                v,
                            ),
                        ) && v@ == unallocated_lines(store.invoice_lines@, inv.id@)
                    } else {
                        r == Ok::<(InvoiceRow, bool), UpdateOutboundShipmentError>(
                            (inv, status_changed(inv.status, shipment_full_status(patch.status))),
                        )
                    }
                },
            },
        },
{
    let idx: usize = match invoice_index(&store.invoices, &patch.id) {
        Some(i) => i,
        None => {
            return Err(UpdateOutboundShipmentError::InvoiceDoesNotExist);
        },
    };
    let invoice = store.invoices[idx].clone_row();
    if !check_store(&invoice, store_id) {
        return Err(UpdateOutboundShipmentError::NotThisStoreInvoice);
    }
    if !check_invoice_type(&invoice, InvoiceType::OutboundShipment) {
        return Err(UpdateOutboundShipmentError::NotAnOutboundShipment);
    }
    if !check_invoice_is_editable(&invoice) {
        return Err(UpdateOutboundShipmentError::InvoiceIsNotEditable);
    }

    let status_changed_flag: bool = check_status_change(&invoice, patch.full_status());
    if status_changed_flag {
        match check_invoice_status(&invoice, patch.full_status(), &patch.on_hold) {
            Err(InvoiceRowStatusError::CannotChangeStatusOfInvoiceOnHold) => {
                return Err(UpdateOutboundShipmentError::CannotChangeStatusOfInvoiceOnHold);
            },
            Err(InvoiceRowStatusError::CannotReverseInvoiceStatus) => {
                return Err(UpdateOutboundShipmentError::CannotReverseInvoiceStatus);
            },
            Ok(_) => {},
        }
        match check_can_change_status_to_allocated(store, &invoice, patch.full_status()) {
            Err(e) => {
                return Err(e);
            },
            Ok(_) => {},
        }
    }
    Ok((invoice, status_changed_flag))
}

} // verus!
