//! Updating an outbound return: the full validate-generate-persist workflow.
//!
//! The validator rejects bad requests in a fixed order; the generator is a
//! pure function patching free-text fields, stamping status timestamps and
//! recomputing derived stock totals when the transition calls for it; the
//! applier persists the new rows and the audit entry as one atomic unit and
//! hands back the materialized document.

use vstd::prelude::*;
use vstd::pervasive::VecAdditionalExecFns;

use crate::common::applied_line;
use crate::common::applied_lines;
use crate::common::generate_batches_total_number_of_packs_update;
use crate::common::lemma_recomputed_ok_all;
use crate::common::line_total;
use crate::common::recomputed_lines;
use crate::common::InvoiceLineHasNoStockLine;
use crate::lattice::InvoiceStatus;
use crate::lattice::InvoiceType;
use crate::lattice::is_editable;
use crate::lattice::quantity_affecting;
use crate::lattice::stamps;
use crate::model::ActivityLogRow;
use crate::model::ActivityLogType;
use crate::model::InvoiceLineRow;
use crate::model::InvoiceRow;
use crate::model::RepositoryError;
use crate::model::clone_opt_string;
use crate::model::invoice_wf;
use crate::store::Store;
use crate::store::find_invoice;
use crate::store::invoice_index;
use crate::store::stock_line_ids_distinct;
use crate::store::stock_line_total;
use crate::validate::check_invoice_is_editable;
use crate::validate::check_invoice_status;
use crate::validate::check_invoice_type;
use crate::validate::check_status_change;
use crate::validate::check_store;
use crate::validate::invoice_status_error;
use crate::validate::status_changed;
use crate::validate::InvoiceRowStatusError;

verus! {

/// The statuses a caller may move an outbound return to.
#[derive(Clone, Copy, Debug, PartialEq, Eq, Structural)]
pub enum UpdateOutboundReturnStatus {
    Picked,
    Shipped,
}

/// What a caller supplies to update an outbound return: the document's id
/// and, each optional, a status to move to and fields to replace.
#[derive(Clone, Debug, Default, PartialEq)]
pub struct UpdateOutboundReturn {
    pub outbound_return_id: String,
    pub comment: Option<String>,
    pub status: Option<UpdateOutboundReturnStatus>,
    pub on_hold: Option<bool>,
    pub their_reference: Option<String>,
    pub colour: Option<String>,
    pub transport_reference: Option<String>,
}

/// Why updating an outbound return was refused.
#[derive(Clone, Debug, PartialEq)]
pub enum UpdateOutboundReturnError {
    ReturnDoesNotExist,
    ReturnDoesNotBelongToCurrentStore,
    NotAnOutboundReturn,
    ReturnIsNotEditable,
    CannotReverseInvoiceStatus,
    CannotChangeStatusOfInvoiceOnHold,
    /// Carries the id of the first line with no resolvable stock line.
    InvoiceLineHasNoStockLine(String),
    UpdatedReturnDoesNotExist,
    DatabaseError(RepositoryError),
}

/// What the generator hands the applier: the new document row and, when the
/// transition recomputes quantities, the updated copies of its lines.
#[derive(Clone, Debug, PartialEq)]
pub struct GenerateResult {
    pub updated_return: InvoiceRow,
    pub lines_to_update: Option<Vec<InvoiceLineRow>>,
}

/// The document status a requested status stands for.
pub open spec fn as_status(s: UpdateOutboundReturnStatus) -> InvoiceStatus {
    match s {
        UpdateOutboundReturnStatus::Picked => InvoiceStatus::Picked,
        UpdateOutboundReturnStatus::Shipped => InvoiceStatus::Shipped,
    }
}

/// The requested target status, if any.
pub open spec fn requested_status(s: Option<UpdateOutboundReturnStatus>) -> Option<InvoiceStatus> {
    match s {
        None => None,
        Some(x) => Some(as_status(x)),
    }
}

/// The requested status when it actually differs from the current one; a
/// request equal to the current status is a no-op.
pub open spec fn changed_status_spec(
    status: Option<UpdateOutboundReturnStatus>,
    existing: InvoiceStatus,
) -> Option<UpdateOutboundReturnStatus> {
    match status {
        None => None,
        Some(s) => if as_status(s) == existing {
            None
        } else {
            Some(s)
        },
    }
}

/// The document with every timestamp the transition stamps set to `now`: all
/// statuses of the outbound-return sequence strictly after the current one,
/// up to and including the target, so a jump back-fills the skipped step.
pub open spec fn return_stamped(inv: InvoiceRow, to: InvoiceStatus, now: i64) -> InvoiceRow {
    InvoiceRow {
        allocated_datetime: if stamps(
            InvoiceType::OutboundReturn,
            inv.status,
            to,
            InvoiceStatus::Allocated,
        ) {
            Some(now)
        } else {
            inv.allocated_datetime
        },
        picked_datetime: if stamps(
            InvoiceType::OutboundReturn,
            inv.status,
            to,
            InvoiceStatus::Picked,
        ) {
            Some(now)
        } else {
            inv.picked_datetime
        },
        shipped_datetime: if stamps(
            InvoiceType::OutboundReturn,
            inv.status,
            to,
            InvoiceStatus::Shipped,
        ) {
            Some(now)
        } else {
            inv.shipped_datetime
        },
        delivered_datetime: if stamps(
            InvoiceType::OutboundReturn,
            inv.status,
            to,
            InvoiceStatus::Delivered,
        ) {
            Some(now)
        } else {
            inv.delivered_datetime
        },
        verified_datetime: if stamps(
            InvoiceType::OutboundReturn,
            inv.status,
            to,
            InvoiceStatus::Verified,
        ) {
            Some(now)
        } else {
            inv.verified_datetime
        },
        ..inv
    }
}

/// The document after timestamp stamping: untouched when no real status
/// change is requested.
pub open spec fn set_datetime_spec(
    inv: InvoiceRow,
    status: Option<UpdateOutboundReturnStatus>,
    now: i64,
) -> InvoiceRow {
    match changed_status_spec(status, inv.status) {
        None => inv,
        Some(s) => return_stamped(inv, as_status(s), now),
    }
}

/// The document with the patch's fields applied: an optional field replaces
/// the current value only when the patch supplies one, and is never cleared
/// by omission.
pub open spec fn patched(inv: InvoiceRow, input: UpdateOutboundReturn) -> InvoiceRow {
    InvoiceRow {
        comment: if input.comment is Some {
            input.comment
        } else {
            inv.comment
        },
        their_reference: if input.their_reference is Some {
            input.their_reference
        } else {
            inv.their_reference
        },
        on_hold: match input.on_hold {
            Some(b) => b,
            None => inv.on_hold,
        },
        colour: if input.colour is Some {
            input.colour
        } else {
            inv.colour
        },
        transport_reference: if input.transport_reference is Some {
            input.transport_reference
        } else {
            inv.transport_reference
        },
        ..inv
    }
}

/// The new document the generator produces: fields patched, timestamps
/// stamped, and the status moved when one was requested.
pub open spec fn generated_return(inv: InvoiceRow, input: UpdateOutboundReturn, now: i64) -> InvoiceRow {
    let base = patched(inv, input);
    let stamped_doc = set_datetime_spec(base, input.status, now);
    match input.status {
        None => stamped_doc,
        Some(s) => InvoiceRow { status: as_status(s), ..stamped_doc },
    }
}

/// Whether the update recomputes derived stock totals: only a real status
/// change across the quantity-affecting threshold does.
pub open spec fn should_update_spec(
    existing: InvoiceStatus,
    status: Option<UpdateOutboundReturnStatus>,
) -> bool {
    match changed_status_spec(status, existing) {
        None => false,
        Some(s) => quantity_affecting(InvoiceType::OutboundReturn, existing, as_status(s)),
    }
}

/// The first precondition the update request violates, in the validator's
/// fixed order: existence, store scope, kind, editability, then - only when
/// a real status change is requested - the hold flag and the transition
/// direction.
pub open spec fn validate_update_error(
    store: Store,
    store_id: Seq<char>,
    input: UpdateOutboundReturn,
) -> Option<UpdateOutboundReturnError> {
    match find_invoice(store.invoices@, input.outbound_return_id@) {
        None => Some(UpdateOutboundReturnError::ReturnDoesNotExist),
        Some(inv) => {
            if inv.store_id@ != store_id {
                Some(UpdateOutboundReturnError::ReturnDoesNotBelongToCurrentStore)
            } else if !(inv.kind is OutboundReturn) {
                Some(UpdateOutboundReturnError::NotAnOutboundReturn)
            } else if !is_editable(inv.kind, inv.status) {
                Some(UpdateOutboundReturnError::ReturnIsNotEditable)
            } else if status_changed(inv.status, requested_status(input.status)) {
                match invoice_status_error(inv, requested_status(input.status), input.on_hold) {
                    Some(InvoiceRowStatusError::CannotChangeStatusOfInvoiceOnHold) => Some(
                        UpdateOutboundReturnError::CannotChangeStatusOfInvoiceOnHold,
                    ),
                    Some(InvoiceRowStatusError::CannotReverseInvoiceStatus) => Some(
                        UpdateOutboundReturnError::CannotReverseInvoiceStatus,
                    ),
                    None => None,
                }
            } else {
                None
            }
        },
    }
}

/// The audit entry records this document, event, instant and actor.
pub open spec fn log_entry_matches(
    e: ActivityLogRow,
    document_id: Seq<char>,
    event_type: ActivityLogType,
    now: i64,
    user_id: Seq<char>,
) -> bool {
    &&& e.document_id@ == document_id
    &&& e.event_type == event_type
    &&& e.datetime == now
    &&& e.user_id@ == user_id
}

/// Every table an outbound-return update does not touch is the same in `b`
/// as in `a`.
pub open spec fn unchanged_but_update(a: Store, b: Store) -> bool {
    &&& b.stock_lines == a.stock_lines
    &&& b.names == a.names
    &&& b.name_store_joins == a.name_store_joins
    &&& b.return_reasons == a.return_reasons
    &&& b.assets == a.assets
    &&& b.asset_logs == a.asset_logs
    &&& b.asset_catalogue_items == a.asset_catalogue_items
    &&& b.asset_catalogue_item_properties == a.asset_catalogue_item_properties
    &&& b.vaccine_courses == a.vaccine_courses
    &&& b.programs == a.programs
    &&& b.periods == a.periods
    &&& b.program_requisition_settings == a.program_requisition_settings
    &&& b.master_list_joins == a.master_list_joins
    &&& b.rnr_forms == a.rnr_forms
    &&& b.rnr_form_lines == a.rnr_form_lines
    &&& b.requisitions == a.requisitions
    &&& b.requisition_lines == a.requisition_lines
}

/// Everything a successful update promises about the new store and result:
/// the result is the generated document; exactly that document was replaced;
/// the line table was recomputed exactly when the transition affects
/// quantities; one audit entry was appended exactly when the status moved;
/// and no other table was touched.
pub open spec fn update_success_post(
    a: Store,
    b: Store,
    inv: InvoiceRow,
    input: UpdateOutboundReturn,
    user_id: Seq<char>,
    now: i64,
    r: Result<InvoiceRow, UpdateOutboundReturnError>,
) -> bool {
    let new_doc = generated_return(inv, input, now);
    let should = should_update_spec(inv.status, input.status);
    let changed = status_changed(inv.status, requested_status(input.status));
    &&& r == Ok::<InvoiceRow, UpdateOutboundReturnError>(new_doc)
    &&& exists|idx: int|
        0 <= idx < a.invoices@.len() && a.invoices@[idx].id@ == inv.id@ && b.invoices@
            == #[trigger] a.invoices@.update(idx, new_doc)
    &&& b.invoice_lines@ == (if should {
        applied_lines(a.invoice_lines@, a.stock_lines@, inv.id@)
    } else {
        a.invoice_lines@
    })
    &&& (if changed {
        &&& b.activity_log@.len() == a.activity_log@.len() + 1
        &&& b.activity_log@.subrange(0, a.activity_log@.len() as int) == a.activity_log@
        &&& log_entry_matches(
            b.activity_log@.last(),
            inv.id@,
            ActivityLogType::InvoiceStatusChanged(new_doc.status),
            now,
            user_id,
        )
    } else {
        b.activity_log@ == a.activity_log@
    })
    &&& unchanged_but_update(a, b)
}

/// The full contract of [`update_outbound_return`], relating the store
/// before (`a`) and after (`b`) to the result: the validator's first
/// objection comes back unchanged with the store untouched; an unresolvable
/// line fails the whole unit with the store untouched; otherwise the update
/// succeeded as [`update_success_post`] describes.
pub open spec fn update_outbound_return_spec(
    a: Store,
    b: Store,
    store_id: Seq<char>,
    user_id: Seq<char>,
    input: UpdateOutboundReturn,
    now: i64,
    r: Result<InvoiceRow, UpdateOutboundReturnError>,
) -> bool {
    match validate_update_error(a, store_id, input) {
        Some(e) => r == Err::<InvoiceRow, UpdateOutboundReturnError>(e) && b == a,
        None => match find_invoice(a.invoices@, input.outbound_return_id@) {
            None => false,
            Some(inv) => {
                if should_update_spec(inv.status, input.status) {
                    match recomputed_lines(a.invoice_lines@, a.stock_lines@, inv.id@) {
                        Err(lid) => (r matches Err(
                            UpdateOutboundReturnError::InvoiceLineHasNoStockLine(s),
                        ) && s@ == lid) && b == a,
                        Ok(_) => update_success_post(a, b, inv, input, user_id, now, r),
                    }
                } else {
                    update_success_post(a, b, inv, input, user_id, now, r)
                }
            },
        },
    }
}

impl UpdateOutboundReturnStatus {
    /// The document status this request stands for.
    pub fn as_invoice_row_status(&self) -> (r: InvoiceStatus)
        ensures
            r == as_status(*self),
    {
        match self {
            UpdateOutboundReturnStatus::Picked => InvoiceStatus::Picked,
            UpdateOutboundReturnStatus::Shipped => InvoiceStatus::Shipped,
        }
    }
}

/// The requested status when it actually changes the document; a request
/// equal to the current status means there is nothing to do.
pub fn changed_status(
    status: &Option<UpdateOutboundReturnStatus>,
    existing_status: &InvoiceStatus,
) -> (r: Option<UpdateOutboundReturnStatus>)
    ensures
        r == changed_status_spec(*status, *existing_status),
{
    match status {
        None => None,
        Some(s) => {
            if s.as_invoice_row_status() == *existing_status {
                None
            } else {
                Some(*s)
            }
        },
    }
}

/// Stamps the timestamp of every status the requested transition passes
/// through, all with the same instant. The status field itself is not
/// touched here.
pub fn set_new_status_datetime(
    outbound_return: &mut InvoiceRow,
    status: &Option<UpdateOutboundReturnStatus>,
    now: i64,
)
    ensures
        *final (outbound_return) == set_datetime_spec(*old(outbound_return), *status, now),
{
    let new_status = match changed_status(status, &outbound_return.status) {
        Some(s) => s,
        None => {
            return ;
        },
    };

    match (outbound_return.status, new_status) {
        (InvoiceStatus::New, UpdateOutboundReturnStatus::Picked) => {
            outbound_return.picked_datetime = Some(now);
        },
        (InvoiceStatus::New, UpdateOutboundReturnStatus::Shipped) => {
            outbound_return.picked_datetime = Some(now);
            outbound_return.shipped_datetime = Some(now);
        },
        (InvoiceStatus::Picked, UpdateOutboundReturnStatus::Shipped) => {
            outbound_return.shipped_datetime = Some(now);
        },
        _ => {},
    }
}

/// Whether the requested transition requires derived stock totals to be
/// recomputed: an outbound return leaving `New` for `Picked` or `Shipped`.
pub fn should_update_stock_lines_total_number_of_packs(
    existing_status: &InvoiceStatus,
    status: &Option<UpdateOutboundReturnStatus>,
) -> (r: bool)
    ensures
        r == should_update_spec(*existing_status, *status),
{
    let new_status = match changed_status(status, existing_status) {
        Some(s) => s,
        None => {
            return false;
        },
    };

    match (existing_status, new_status) {
        (InvoiceStatus::New, UpdateOutboundReturnStatus::Picked) => true,
        (InvoiceStatus::New, UpdateOutboundReturnStatus::Shipped) => true,
        _ => false,
    }
}

/// The pure generation step: patches fields, stamps timestamps, moves the
/// status, and recomputes the document's derived line totals when the
/// transition affects quantities. Touches no storage.
pub fn generate(
    store: &Store,
    input: UpdateOutboundReturn,
    existing_return: InvoiceRow,
    now: i64,
) -> (r: Result<GenerateResult, UpdateOutboundReturnError>)
    requires
        stock_line_ids_distinct(store.stock_lines@),
    ensures
        ({
            let new_doc = generated_return(existing_return, input, now);
            if should_update_spec(existing_return.status, input.status) {
                match recomputed_lines(
                    store.invoice_lines@,
                    store.stock_lines@,
                    existing_return.id@,
                ) {
                    Err(lid) => r matches Err(
                        UpdateOutboundReturnError::InvoiceLineHasNoStockLine(s),
                    ) && s@ == lid,
                    Ok(ls) => r matches Ok(g) && g.updated_return == new_doc && (
                    g.lines_to_update matches Some(v) && v@ == ls),
                }
            } else {
                r matches Ok(g) && g.updated_return == new_doc && g.lines_to_update is None
            }
        }),
{
    let mut updated_return = existing_return.clone_row();

    updated_return.comment = match input.comment {
        Some(c) => Some(c),
        None => clone_opt_string(&existing_return.comment),
    };
    updated_return.their_reference = match input.their_reference {
        Some(t) => Some(t),
        None => clone_opt_string(&existing_return.their_reference),
    };
    updated_return.on_hold = match input.on_hold {
        Some(b) => b,
        None => existing_return.on_hold,
    };
    updated_return.colour = match input.colour {
        Some(c) => Some(c),
        None => clone_opt_string(&existing_return.colour),
    };
    updated_return.transport_reference = match input.transport_reference {
        Some(t) => Some(t),
        None => clone_opt_string(&existing_return.transport_reference),
    };

    set_new_status_datetime(&mut updated_return, &input.status, now);
    if let Some(s) = &input.status {
        updated_return.status = s.as_invoice_row_status();
    }

    let should_update = should_update_stock_lines_total_number_of_packs(
        &existing_return.status,
        &input.status,
    );

    let lines_to_update: Option<Vec<InvoiceLineRow>> = if should_update {
        match generate_batches_total_number_of_packs_update(&existing_return.id, store) {
            Ok(lines) => Some(lines),
            Err(InvoiceLineHasNoStockLine::InvoiceLineHasNoStockLine(line_id)) => {
                return Err(UpdateOutboundReturnError::InvoiceLineHasNoStockLine(line_id));
            },
            Err(InvoiceLineHasNoStockLine::DatabaseError(e)) => {
                return Err(UpdateOutboundReturnError::DatabaseError(e));
            },
        }
    } else {
        None
    };

    Ok(GenerateResult { updated_return, lines_to_update })
}


/// A request the validator lets through generates a well-formed document
/// with the same identity.
pub proof fn lemma_generated_wf(inv: InvoiceRow, input: UpdateOutboundReturn, now: i64)
    requires
        invoice_wf(inv),
        inv.kind is OutboundReturn,
        status_changed(inv.status, requested_status(input.status)) ==> invoice_status_error(
            inv,
            requested_status(input.status),
            input.on_hold,
        ) is None,
    ensures
        invoice_wf(generated_return(inv, input, now)),
        generated_return(inv, input, now).id == inv.id,
{
}

/// Applies an update to an outbound return as one atomic unit: validates,
/// generates, persists the document, its recomputed lines and one audit
/// entry, and returns the materialized document. On any error the store is
/// left exactly as it was.
pub fn update_outbound_return(
    store: &mut Store,
    store_id: &String,
    user_id: &String,
    input: UpdateOutboundReturn,
    now: i64,
) -> (r: Result<InvoiceRow, UpdateOutboundReturnError>)
    requires
        old(store).wf(),
    ensures
        final (store).wf(),
        update_outbound_return_spec(
            *old(store),
            *final (store),
            store_id@,
            user_id@,
            input,
            now,
            r,
        ),
{
    let ghost store0: Store = *store;
    let ghost input0: UpdateOutboundReturn = input;

    let idx: usize = match invoice_index(&store.invoices, &input.outbound_return_id) {
        Some(i) => i,
        None => {
            return Err(UpdateOutboundReturnError::ReturnDoesNotExist);
        },
    };
    let existing = store.invoices[idx].clone_row();
    if !check_store(&existing, store_id) {
        return Err(UpdateOutboundReturnError::ReturnDoesNotBelongToCurrentStore);
    }
    if !check_invoice_type(&existing, InvoiceType::OutboundReturn) {
        return Err(UpdateOutboundReturnError::NotAnOutboundReturn);
    }
    if !check_invoice_is_editable(&existing) {
        return Err(UpdateOutboundReturnError::ReturnIsNotEditable);
    }
    let req: Option<InvoiceStatus> = match &input.status {
        Some(s) => Some(s.as_invoice_row_status()),
        None => None,
    };
    let changed: bool = check_status_change(&existing, req);
    if changed {
        match check_invoice_status(&existing, req, &input.on_hold) {
            Err(InvoiceRowStatusError::CannotChangeStatusOfInvoiceOnHold) => {
                return Err(UpdateOutboundReturnError::CannotChangeStatusOfInvoiceOnHold);
            },
            Err(InvoiceRowStatusError::CannotReverseInvoiceStatus) => {
                return Err(UpdateOutboundReturnError::CannotReverseInvoiceStatus);
            },
            Ok(_) => {},
        }
    }
    proof {
        assert(validate_update_error(store0, store_id@, input0) is None);
    }

    let g = match generate(store, input, existing.clone_row(), now) {
        Ok(g) => g,
        Err(e) => {
            return Err(e);
        },
    };
    let GenerateResult { updated_return, lines_to_update } = g;
    let new_status: InvoiceStatus = updated_return.status;

    match lines_to_update {
        Some(_) => {
            proof {
                lemma_recomputed_ok_all(store.invoice_lines@, store.stock_lines@, existing.id@);
            }
            let n: usize = store.invoice_lines.len();
            let mut i: usize = 0;
            while i < n
                invariant
                    i <= n,
                    n == store.invoice_lines@.len(),
                    n == store0.invoice_lines@.len(),
                    store.invoices == store0.invoices,
                    store.activity_log == store0.activity_log,
                    unchanged_but_update(store0, *store),
                    stock_line_ids_distinct(store.stock_lines@),
                    forall|j: int|
                        0 <= j < i ==> store.invoice_lines@[j] == applied_line(
                            store0.invoice_lines@[j],
                            store0.stock_lines@,
                            existing.id@,
                        ),
                    forall|j: int| i <= j < n ==> store.invoice_lines@[j] == store0.invoice_lines@[j],
                    forall|j: int|
                        0 <= j < n && store0.invoice_lines@[j].invoice_id@ == existing.id@
                            ==> line_total(
                            store0.stock_lines@,
                            #[trigger] store0.invoice_lines@[j],
                        ) is Some,
                decreases n - i,
            {
                let do_update: bool = store.invoice_lines[i].invoice_id == existing.id;
                if do_update {
                    let total: Option<u64> = match &store.invoice_lines[i].stock_line_id {
                        Some(sid) => stock_line_total(&store.stock_lines, sid),
                        None => None,
                    };
                    match total {
                        Some(t) => {
                            let mut nl = store.invoice_lines[i].clone_row();
                            nl.total_packs = t;
                            store.invoice_lines.set(i, nl);
                        },
                        None => {
                            proof {
                                assert(false);
                            }
                        },
                    }
                }
                i = i + 1;
            }
            proof {
                assert(store.invoice_lines@ =~= applied_lines(
                    store0.invoice_lines@,
                    store0.stock_lines@,
                    existing.id@,
                ));
            }
        },
        None => {},
    }

    store.invoices.set(idx, updated_return);

    if changed {
        store.activity_log.push(
            ActivityLogRow {
                document_id: existing.id.clone(),
                event_type: ActivityLogType::InvoiceStatusChanged(new_status),
                datetime: now,
                user_id: user_id.clone(),
            },
        );
        proof {
            assert(store.activity_log@.subrange(0, store0.activity_log@.len() as int)
                =~= store0.activity_log@);
        }
    }

    proof {
        lemma_generated_wf(existing, input0, now);
        assert forall|a: int, b: int|
            0 <= a < b < store.invoices@.len() implies store.invoices@[a].id@
            != store.invoices@[b].id@ by {
            assert(store.invoices@[a].id@ == store0.invoices@[a].id@);
            assert(store.invoices@[b].id@ == store0.invoices@[b].id@);
        }
        assert forall|a: int, b: int|
            0 <= a < b < store.invoice_lines@.len() implies store.invoice_lines@[a].id@
            != store.invoice_lines@[b].id@ by {
            assert(store.invoice_lines@[a].id@ == store0.invoice_lines@[a].id@);
            assert(store.invoice_lines@[b].id@ == store0.invoice_lines@[b].id@);
        }
        assert(store.wf());
    }

    match invoice_index(&store.invoices, &existing.id) {
        Some(i2) => Ok(store.invoices[i2].clone_row()),
        None => {
            proof {
                assert(store.invoices@[idx as int].id@ == existing.id@);
                assert(false);
            }
            Err(UpdateOutboundReturnError::UpdatedReturnDoesNotExist)
        },
    }
}

} // verus!
