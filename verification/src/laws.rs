//! The engine's cross-cutting guarantees, each proved once and for all
//! inputs: backward transitions are always rejected, a forward transition
//! stamps exactly the passed-through timestamps, a no-op status request
//! changes nothing, and recomputed totals always equal the persisted stock
//! quantities. Atomicity itself is part of each applier's own contract: on
//! every error the store comes back equal to what it was.

use vstd::prelude::*;

use crate::common::applied_lines;
use crate::common::lemma_recomputed_ok_all;
use crate::common::line_total;
use crate::common::recomputed_lines;
use crate::common::with_total;
use crate::lattice::InvoiceStatus;
use crate::lattice::InvoiceType;
use crate::lattice::is_editable;
use crate::lattice::stamps;
use crate::lattice::status_index;
use crate::model::InvoiceLineRow;
use crate::model::InvoiceRow;
use crate::model::StockLineRow;
use crate::model::invoice_wf;
use crate::model::status_time;
use crate::model::timestamps_clear_beyond;
use crate::outbound_return::UpdateOutboundReturn;
use crate::outbound_return::as_status;
use crate::outbound_return::generated_return;
use crate::outbound_return::requested_status;
use crate::outbound_return::should_update_spec;
use crate::outbound_shipment::UpdateOutboundShipment;
use crate::outbound_shipment::UpdateOutboundShipmentError;
use crate::outbound_shipment::shipment_full_status;
use crate::outbound_shipment::shipment_precheck_error;
use crate::store::Store;
use crate::store::find_invoice;
use crate::validate::invoice_status_error;
use crate::validate::status_changed;

verus! {

/// A requested status that lies strictly behind the document's current
/// status is always answered with the transition-direction error - for any
/// document that passes the earlier checks (it exists, belongs to the store,
/// has the right kind, is editable, and is not blocked by a hold). The
/// validator reads the store and never writes it, so the document is
/// untouched.
pub proof fn lemma_backward_transition_rejected(
    store: Store,
    store_id: Seq<char>,
    patch: UpdateOutboundShipment,
)
    requires
        find_invoice(store.invoices@, patch.id@) matches Some(inv) && inv.store_id@ == store_id
            && inv.kind is OutboundShipment && is_editable(inv.kind, inv.status) && !(inv.on_hold
            && patch.on_hold != Some(false)) && (shipment_full_status(patch.status) matches Some(s)
            && s != inv.status && status_index(s) < status_index(inv.status)),
    ensures
        shipment_precheck_error(store, store_id, patch) == Some(
            UpdateOutboundShipmentError::CannotReverseInvoiceStatus,
        ),
{
}

/// A forward transition stamps, with the one instant `now`, the timestamp of
/// every status of the kind's sequence strictly after the old status up to
/// and including the new one - so a jump back-fills the skipped step - and
/// leaves every timestamp beyond the new status unset.
pub proof fn lemma_forward_update_stamps(inv: InvoiceRow, input: UpdateOutboundReturn, now: i64)
    requires
        invoice_wf(inv),
        inv.kind is OutboundReturn,
        status_changed(inv.status, requested_status(input.status)),
        invoice_status_error(inv, requested_status(input.status), input.on_hold) is None,
    ensures
        ({
            let new_doc = generated_return(inv, input, now);
            let to = match input.status {
                Some(s) => as_status(s),
                None => inv.status,
            };
            &&& new_doc.status == to
            &&& forall|s: InvoiceStatus|
                #[trigger] stamps(InvoiceType::OutboundReturn, inv.status, to, s)
                    ==> status_time(new_doc, s) == Some(now)
            &&& forall|s: InvoiceStatus|
                !stamps(InvoiceType::OutboundReturn, inv.status, to, s) ==> #[trigger] status_time(
                    new_doc,
                    s,
                ) == status_time(inv, s)
            &&& timestamps_clear_beyond(new_doc, to)
        }),
{
}

/// A request whose status equals the document's current status changes no
/// timestamp field and triggers no recomputation of derived totals.
pub proof fn lemma_idempotent_update(inv: InvoiceRow, input: UpdateOutboundReturn, now: i64)
    requires
        input.status matches Some(s) && as_status(s) == inv.status,
    ensures
        ({
            let new_doc = generated_return(inv, input, now);
            &&& new_doc.status == inv.status
            &&& new_doc.created_datetime == inv.created_datetime
            &&& new_doc.allocated_datetime == inv.allocated_datetime
            &&& new_doc.picked_datetime == inv.picked_datetime
            &&& new_doc.shipped_datetime == inv.shipped_datetime
            &&& new_doc.delivered_datetime == inv.delivered_datetime
            &&& new_doc.verified_datetime == inv.verified_datetime
        }),
        !should_update_spec(inv.status, input.status),
{
}

/// When recomputation succeeds, every line of the document ends up with its
/// derived total equal to the persisted quantity of the stock line it
/// references, and every other line is untouched.
pub proof fn lemma_recomputed_totals(
    lines: Seq<InvoiceLineRow>,
    stock: Seq<StockLineRow>,
    invoice_id: Seq<char>,
)
    requires
        recomputed_lines(lines, stock, invoice_id) is Ok,
    ensures
        applied_lines(lines, stock, invoice_id).len() == lines.len(),
        forall|i: int|
            0 <= i < lines.len() && lines[i].invoice_id@ == invoice_id ==> (line_total(
                stock,
                #[trigger] lines[i],
            ) matches Some(t) && applied_lines(lines, stock, invoice_id)[i] == with_total(
                lines[i],
                t,
            )),
        forall|i: int|
            0 <= i < lines.len() && lines[i].invoice_id@ != invoice_id ==> applied_lines(
                lines,
                stock,
                invoice_id,
            )[i] == #[trigger] lines[i],
{
    lemma_recomputed_ok_all(lines, stock, invoice_id);
}

} // verus!
