//! Validating a request to replace the lines of an outbound return.

use vstd::prelude::*;

use crate::lattice::InvoiceType;
use crate::lattice::is_editable;
use crate::model::RepositoryError;
use crate::store::Store;
use crate::store::find_invoice;
use crate::store::invoice_index;
use crate::validate::check_invoice_is_editable;
use crate::validate::check_invoice_type;
use crate::validate::check_store;

verus! {

/// Why replacing the lines of an outbound return was refused.
#[derive(Clone, Copy, Debug, PartialEq, Eq, Structural)]
pub enum UpdateOutboundReturnLinesError {
    ReturnDoesNotExist,
    ReturnDoesNotBelongToCurrentStore,
    ReturnIsNotEditable,
    NotAnOutboundReturn,
    DatabaseError(RepositoryError),
}

/// The first precondition the request violates, in order: the document must
/// exist, belong to the store, still be editable, and be an outbound return.
pub open spec fn update_lines_error(store: Store, store_id: Seq<char>, id: Seq<char>) -> Option<
    UpdateOutboundReturnLinesError,
> {
    match find_invoice(store.invoices@, id) {
        None => Some(UpdateOutboundReturnLinesError::ReturnDoesNotExist),
        Some(inv) => {
            if inv.store_id@ != store_id {
                Some(UpdateOutboundReturnLinesError::ReturnDoesNotBelongToCurrentStore)
            } else if !is_editable(inv.kind, inv.status) {
                Some(UpdateOutboundReturnLinesError::ReturnIsNotEditable)
            } else if !(inv.kind is OutboundReturn) {
                Some(UpdateOutboundReturnLinesError::NotAnOutboundReturn)
            } else {
                None
            }
        },
    }
}

/// Checks the preconditions for replacing a return's lines, in order.
pub fn validate(store: &Store, store_id: &String, id: &String) -> (r: Result<
    (),
    UpdateOutboundReturnLinesError,
>)
    requires
        store.wf(),
    ensures
        r == match update_lines_error(*store, store_id@, id@) {
            Some(e) => Err::<(), UpdateOutboundReturnLinesError>(e),
            None => Ok::<(), UpdateOutboundReturnLinesError>(()),
        },
{
    let idx: usize = match invoice_index(&store.invoices, id) {
        Some(i) => i,
        None => {
            return Err(UpdateOutboundReturnLinesError::ReturnDoesNotExist);
        },
    };
    let return_row = store.invoices[idx].clone_row();
    if !check_store(&return_row, store_id) {
        return Err(UpdateOutboundReturnLinesError::ReturnDoesNotBelongToCurrentStore);
    }
    if !check_invoice_is_editable(&return_row) {
        return Err(UpdateOutboundReturnLinesError::ReturnIsNotEditable);
    }
    if !check_invoice_type(&return_row, InvoiceType::OutboundReturn) {
        return Err(UpdateOutboundReturnLinesError::NotAnOutboundReturn);
    }
    Ok(())
}

} // verus!
