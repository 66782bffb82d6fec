//! Validating a request to delete an outbound return.

use vstd::prelude::*;

use crate::lattice::InvoiceType;
use crate::lattice::is_editable;
use crate::model::InvoiceRow;
use crate::model::RepositoryError;
use crate::store::Store;
use crate::store::find_invoice;
use crate::store::invoice_index;
use crate::validate::check_invoice_is_editable;
use crate::validate::check_invoice_type;
use crate::validate::check_store;

verus! {

/// Why deleting an outbound return was refused.
#[derive(Clone, Copy, Debug, PartialEq, Eq, Structural)]
pub enum DeleteOutboundReturnError {
    InvoiceDoesNotExist,
    NotThisStoreInvoice,
    CannotEditFinalised,
    NotAnOutboundReturn,
    DatabaseError(RepositoryError),
}

/// The first precondition the delete request violates, in order: the
/// document must exist, belong to the store, still be editable, and be an
/// outbound return.
pub open spec fn delete_return_error(store: Store, store_id: Seq<char>, id: Seq<char>) -> Option<
    DeleteOutboundReturnError,
> {
    match find_invoice(store.invoices@, id) {
        None => Some(DeleteOutboundReturnError::InvoiceDoesNotExist),
        Some(inv) => {
            if inv.store_id@ != store_id {
                Some(DeleteOutboundReturnError::NotThisStoreInvoice)
            } else if !is_editable(inv.kind, inv.status) {
                Some(DeleteOutboundReturnError::CannotEditFinalised)
            } else if !(inv.kind is OutboundReturn) {
                Some(DeleteOutboundReturnError::NotAnOutboundReturn)
            } else {
                None
            }
        },
    }
}

/// Checks the delete preconditions in order and hands back the document.
pub fn validate(id: &String, store_id: &String, store: &Store) -> (r: Result<
    InvoiceRow,
    DeleteOutboundReturnError,
>)
    requires
        store.wf(),
    ensures
        match delete_return_error(*store, store_id@, id@) {
            Some(e) => r == Err::<InvoiceRow, DeleteOutboundReturnError>(e),
            None => match find_invoice(store.invoices@, id@) {
                Some(inv) => r == Ok::<InvoiceRow, DeleteOutboundReturnError>(inv),
                None => false,
            },
        },
{
    let idx: usize = match invoice_index(&store.invoices, id) {
        Some(i) => i,
        None => {
            return Err(DeleteOutboundReturnError::InvoiceDoesNotExist);
        },
    };
    let invoice = store.invoices[idx].clone_row();
    if !check_store(&invoice, store_id) {
        return Err(DeleteOutboundReturnError::NotThisStoreInvoice);
    }
    if !check_invoice_is_editable(&invoice) {
        return Err(DeleteOutboundReturnError::CannotEditFinalised);
    }
    if !check_invoice_type(&invoice, InvoiceType::OutboundReturn) {
        return Err(DeleteOutboundReturnError::NotAnOutboundReturn);
    }
    Ok(invoice)
}

} // verus!
