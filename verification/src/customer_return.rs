//! Creating an inbound (customer) return, optionally linked to the outbound
//! shipment it returns goods from: the full validate-generate-persist
//! workflow. Lines with zero quantity are never persisted.

use vstd::prelude::*;

use crate::invoice_line::InsertStockInLineError;
use crate::invoice_line::UpdateLineReturnReasonError;
use crate::invoice_line::check_reason_active;
use crate::invoice_line::reason_active;
use crate::lattice::InvoiceStatus;
use crate::lattice::InvoiceType;
use crate::lattice::status_index;
use crate::model::ActivityLogRow;
use crate::model::ActivityLogType;
use crate::model::InvoiceLineRow;
use crate::model::InvoiceRow;
use crate::model::RepositoryError;
use crate::model::clone_opt_string;
use crate::outbound_return::log_entry_matches;
use crate::outbound_return::unchanged_but_update;
use crate::store::Store;
use crate::store::find_invoice;
use crate::store::invoice_index;
use crate::store::invoice_line_exists;
use crate::store::invoice_line_id_exists;
use crate::validate::CheckOtherPartyType;
use crate::validate::OtherPartyErrors;
use crate::validate::check_other_party;
use crate::validate::other_party_error;

verus! {

/// One line of a customer-return request.
#[derive(Clone, Debug, Default, PartialEq)]
pub struct InboundReturnLineInput {
    pub id: String,
    pub item_id: String,
    pub pack_size: u64,
    pub number_of_packs: u64,
    pub reason_id: Option<String>,
    pub note: Option<String>,
}

/// What a caller supplies to create a customer return.
#[derive(Clone, Debug, Default, PartialEq)]
pub struct InsertInboundReturn {
    pub id: String,
    pub other_party_id: String,
    pub outbound_shipment_id: Option<String>,
    pub inbound_return_lines: Vec<InboundReturnLineInput>,
}

/// Why creating a customer return was refused.
#[derive(Clone, Debug, PartialEq)]
pub enum InsertInboundReturnError {
    InvoiceAlreadyExists,
    OutboundShipmentDoesNotExist,
    OutboundShipmentDoesNotBelongToCurrentStore,
    OriginalInvoiceNotAnOutboundShipment,
    CannotReturnOutboundShipment,
    OtherPartyNotACustomer,
    OtherPartyNotVisible,
    OtherPartyDoesNotExist,
    NewlyCreatedInvoiceDoesNotExist,
    DatabaseError(RepositoryError),
    LineInsertError { line_id: String, error: InsertStockInLineError },
    LineReturnReasonUpdateError { line_id: String, error: UpdateLineReturnReasonError },
}

/// Some earlier input line has this id and a nonzero quantity.
pub open spec fn nonzero_dup(ls: Seq<InboundReturnLineInput>, id: Seq<char>) -> bool {
    exists|j: int| 0 <= j < ls.len() && ls[j].number_of_packs > 0 && ls[j].id@ == id
}

/// The id of the first nonzero input line whose id is already taken, either
/// by a persisted line or by an earlier nonzero input line.
pub open spec fn first_line_conflict(
    ls: Seq<InboundReturnLineInput>,
    existing: Seq<InvoiceLineRow>,
) -> Option<Seq<char>>
    decreases ls.len(),
{
    if ls.len() == 0 {
        None
    } else {
        match first_line_conflict(ls.drop_last(), existing) {
            Some(e) => Some(e),
            None => {
                let l = ls.last();
                if l.number_of_packs > 0 && (invoice_line_id_exists(existing, l.id@)
                    || nonzero_dup(ls.drop_last(), l.id@)) {
                    Some(l.id@)
                } else {
                    None
                }
            },
        }
    }
}

/// The id of the first nonzero input line naming a reason that does not
/// exist or is not active.
pub open spec fn first_reason_conflict(
    ls: Seq<InboundReturnLineInput>,
    reasons: Seq<crate::model::ReturnReasonRow>,
) -> Option<Seq<char>>
    decreases ls.len(),
{
    if ls.len() == 0 {
        None
    } else {
        match first_reason_conflict(ls.drop_last(), reasons) {
            Some(e) => Some(e),
            None => {
                let l = ls.last();
                if l.number_of_packs > 0 && (l.reason_id matches Some(rid) && !reason_active(
                    reasons,
                    rid@,
                )) {
                    Some(l.id@)
                } else {
                    None
                }
            },
        }
    }
}

/// The first precondition the insert request violates among the document,
/// shipment and counterparty checks, in order: the id must be free; a named
/// original shipment must exist, belong to the store, be an outbound
/// shipment and have been shipped; the counterparty must exist, be visible
/// and be a customer.
pub open spec fn insert_return_error(
    store: Store,
    store_id: Seq<char>,
    input: InsertInboundReturn,
) -> Option<InsertInboundReturnError> {
    if find_invoice(store.invoices@, input.id@) is Some {
        Some(InsertInboundReturnError::InvoiceAlreadyExists)
    } else {
        let shipment_error = match input.outbound_shipment_id {
            Some(osid) => match find_invoice(store.invoices@, osid@) {
                None => Some(InsertInboundReturnError::OutboundShipmentDoesNotExist),
                Some(os) => {
                    if os.store_id@ != store_id {
                        Some(InsertInboundReturnError::OutboundShipmentDoesNotBelongToCurrentStore)
                    } else if !(os.kind is OutboundShipment) {
                        Some(InsertInboundReturnError::OriginalInvoiceNotAnOutboundShipment)
                    } else if status_index(os.status) < status_index(InvoiceStatus::Shipped) {
                        Some(InsertInboundReturnError::CannotReturnOutboundShipment)
                    } else {
                        None
                    }
                },
            },
            None => None,
        };
        if shipment_error is Some {
            shipment_error
        } else {
            match other_party_error(
                store,
                store_id,
                input.other_party_id@,
                CheckOtherPartyType::Customer,
            ) {
                Some(OtherPartyErrors::OtherPartyDoesNotExist) => Some(
                    InsertInboundReturnError::OtherPartyDoesNotExist,
                ),
                Some(OtherPartyErrors::OtherPartyNotVisible) => Some(
                    InsertInboundReturnError::OtherPartyNotVisible,
                ),
                Some(OtherPartyErrors::TypeMismatched) => Some(
                    InsertInboundReturnError::OtherPartyNotACustomer,
                ),
                Some(OtherPartyErrors::DatabaseError(e)) => Some(
                    InsertInboundReturnError::DatabaseError(e),
                ),
                None => None,
            }
        }
    }
}

/// The persisted row for one accepted input line: quantities copied, no
/// stock line resolved yet, derived total still zero.
pub open spec fn generated_line(l: InboundReturnLineInput, invoice_id: String) -> InvoiceLineRow {
    InvoiceLineRow {
        id: l.id,
        invoice_id: invoice_id,
        item_id: l.item_id,
        line_type: crate::model::InvoiceLineType::StockIn,
        stock_line_id: None,
        number_of_packs: l.number_of_packs,
        pack_size: l.pack_size,
        total_packs: 0,
        reason_id: l.reason_id,
    }
}

/// The rows persisted for the request's lines, in order: one per line with a
/// nonzero quantity. A zero-quantity line is not real and is never persisted.
pub open spec fn generated_lines(ls: Seq<InboundReturnLineInput>, invoice_id: String) -> Seq<
    InvoiceLineRow,
>
    decreases ls.len(),
{
    if ls.len() == 0 {
        Seq::empty()
    } else {
        let pre = generated_lines(ls.drop_last(), invoice_id);
        if ls.last().number_of_packs > 0 {
            pre.push(generated_line(ls.last(), invoice_id))
        } else {
            pre
        }
    }
}

/// The new document row: a customer return in status `New`, created now,
/// addressed to the counterparty and linked to the original shipment.
pub open spec fn generated_insert_return(
    input: InsertInboundReturn,
    store_id: String,
    user_id: String,
    now: i64,
) -> InvoiceRow {
    InvoiceRow {
        id: input.id,
        store_id: store_id,
        name_id: input.other_party_id,
        user_id: Some(user_id),
        kind: InvoiceType::CustomerReturn,
        status: InvoiceStatus::New,
        on_hold: false,
        comment: None,
        their_reference: None,
        transport_reference: None,
        colour: None,
        original_shipment_id: input.outbound_shipment_id,
        created_datetime: now,
        allocated_datetime: None,
        picked_datetime: None,
        shipped_datetime: None,
        delivered_datetime: None,
        verified_datetime: None,
    }
}

/// Everything a successful insert promises about the new store and result:
/// the result is the new document; it was appended, its nonzero lines were
/// appended in order, one audit entry was appended, and no other table was
/// touched.
pub open spec fn insert_success_post(
    a: Store,
    b: Store,
    input: InsertInboundReturn,
    store_id: String,
    user_id: String,
    now: i64,
    r: Result<InvoiceRow, InsertInboundReturnError>,
) -> bool {
    let new_doc = generated_insert_return(input, store_id, user_id, now);
    &&& r == Ok::<InvoiceRow, InsertInboundReturnError>(new_doc)
    &&& b.invoices@ == a.invoices@.push(new_doc)
    &&& b.invoice_lines@ == a.invoice_lines@ + generated_lines(
        input.inbound_return_lines@,
        input.id,
    )
    &&& b.activity_log@.len() == a.activity_log@.len() + 1
    &&& b.activity_log@.subrange(0, a.activity_log@.len() as int) == a.activity_log@
    &&& log_entry_matches(
        b.activity_log@.last(),
        input.id@,
        ActivityLogType::InvoiceCreated,
        now,
        user_id@,
    )
    &&& unchanged_but_update(a, b)
}

/// The full contract of [`insert_inbound_return`], relating the store
/// before (`a`) and after (`b`) to the result: the validator's first
/// objection, the first conflicting line or the first bad reason comes back
/// with the store untouched; otherwise the insert succeeded as
/// [`insert_success_post`] describes.
pub open spec fn insert_inbound_return_spec(
    a: Store,
    b: Store,
    store_id: String,
    user_id: String,
    input: InsertInboundReturn,
    now: i64,
    r: Result<InvoiceRow, InsertInboundReturnError>,
) -> bool {
    match insert_return_error(a, store_id@, input) {
        Some(e) => r == Err::<InvoiceRow, InsertInboundReturnError>(e) && b == a,
        None => match first_line_conflict(input.inbound_return_lines@, a.invoice_lines@) {
            Some(lid) => (r matches Err(InsertInboundReturnError::LineInsertError {
                line_id,
                error,
            }) && line_id@ == lid && error == InsertStockInLineError::LineAlreadyExists) && b == a,
            None => match first_reason_conflict(input.inbound_return_lines@, a.return_reasons@) {
                Some(lid) => (r matches Err(
                    InsertInboundReturnError::LineReturnReasonUpdateError { line_id, error },
                ) && line_id@ == lid && error == UpdateLineReturnReasonError::ReasonDoesNotExist)
                    && b == a,
                None => insert_success_post(a, b, input, store_id, user_id, now, r),
            },
        },
    }
}

/// Once a line conflict has been found in a prefix, every longer prefix
/// reports the same conflict.
proof fn lemma_line_conflict_mono(
    ls: Seq<InboundReturnLineInput>,
    existing: Seq<InvoiceLineRow>,
    k: int,
    j: int,
)
    requires
        0 <= k <= j <= ls.len(),
        first_line_conflict(ls.subrange(0, k), existing) is Some,
    ensures
        first_line_conflict(ls.subrange(0, j), existing) == first_line_conflict(
            ls.subrange(0, k),
            existing,
        ),
    decreases j - k,
{
    if j > k {
        lemma_line_conflict_mono(ls, existing, k, j - 1);
        assert(ls.subrange(0, j).drop_last() =~= ls.subrange(0, j - 1));
    }
}

/// Once a reason conflict has been found in a prefix, every longer prefix
/// reports the same conflict.
proof fn lemma_reason_conflict_mono(
    ls: Seq<InboundReturnLineInput>,
    reasons: Seq<crate::model::ReturnReasonRow>,
    k: int,
    j: int,
)
    requires
        0 <= k <= j <= ls.len(),
        first_reason_conflict(ls.subrange(0, k), reasons) is Some,
    ensures
        first_reason_conflict(ls.subrange(0, j), reasons) == first_reason_conflict(
            ls.subrange(0, k),
            reasons,
        ),
    decreases j - k,
{
    if j > k {
        lemma_reason_conflict_mono(ls, reasons, k, j - 1);
        assert(ls.subrange(0, j).drop_last() =~= ls.subrange(0, j - 1));
    }
}

/// When no line conflict exists, the generated rows have ids that are free
/// in the persisted table, belong to nonzero input lines, and are pairwise
/// distinct.
proof fn lemma_generated_lines_ok(
    ls: Seq<InboundReturnLineInput>,
    existing: Seq<InvoiceLineRow>,
    invoice_id: String,
)
    requires
        first_line_conflict(ls, existing) is None,
    ensures
        forall|i: int|
            0 <= i < generated_lines(ls, invoice_id).len() ==> !invoice_line_id_exists(
                existing,
                (#[trigger] generated_lines(ls, invoice_id)[i]).id@,
            ),
        forall|i: int|
            0 <= i < generated_lines(ls, invoice_id).len() ==> nonzero_dup(
                ls,
                (#[trigger] generated_lines(ls, invoice_id)[i]).id@,
            ),
        forall|i: int, j: int|
            0 <= i < j < generated_lines(ls, invoice_id).len()
                ==> (#[trigger] generated_lines(ls, invoice_id)[i]).id@ != (
            #[trigger] generated_lines(ls, invoice_id)[j]).id@,
    decreases ls.len(),
{
    if ls.len() > 0 {
        let pre = ls.drop_last();
        assert(first_line_conflict(pre, existing) is None);
        lemma_generated_lines_ok(pre, existing, invoice_id);
        let gpre = generated_lines(pre, invoice_id);
        let g = generated_lines(ls, invoice_id);
        assert forall|i: int| 0 <= i < gpre.len() && nonzero_dup(
            pre,
            gpre[i].id@,
        ) implies nonzero_dup(ls, gpre[i].id@) by {
            let w = choose|j: int|
                0 <= j < pre.len() && pre[j].number_of_packs > 0 && pre[j].id@ == gpre[i].id@;
            assert(ls[w] == pre[w]);
        }
        if ls.last().number_of_packs > 0 {
            let l = ls.last();
            assert(!invoice_line_id_exists(existing, l.id@));
            assert(!nonzero_dup(pre, l.id@));
            assert(g == gpre.push(generated_line(l, invoice_id)));
            assert(nonzero_dup(ls, l.id@)) by {
                assert(ls[ls.len() - 1].number_of_packs > 0 && ls[ls.len() - 1].id@ == l.id@);
            }
            assert forall|i: int, j: int| 0 <= i < j < g.len() implies g[i].id@ != g[j].id@ by {
                if j == g.len() - 1 {
                    assert(nonzero_dup(pre, gpre[i].id@));
                }
            }
        }
    }
}

/// Whether an earlier input line (before position `k`) has this id and a
/// nonzero quantity.
fn nonzero_dup_before(lines: &Vec<InboundReturnLineInput>, k: usize, id: &String) -> (r: bool)
    requires
        k <= lines@.len(),
    ensures
        r == nonzero_dup(lines@.subrange(0, k as int), id@),
{
    let mut j: usize = 0;
    while j < k
        invariant
            j <= k,
            k <= lines@.len(),
            forall|t: int|
                0 <= t < j ==> !(lines@[t].number_of_packs > 0 && lines@[t].id@ == id@),
        decreases k - j,
    {
        if lines[j].number_of_packs > 0 && lines[j].id == *id {
            proof {
                assert(lines@.subrange(0, k as int)[j as int] == lines@[j as int]);
            }
            return true;
        }
        j = j + 1;
    }
    proof {
        assert forall|t: int| 0 <= t < k implies !(lines@.subrange(0, k as int)[t].number_of_packs
            > 0 && lines@.subrange(0, k as int)[t].id@ == id@) by {
            assert(lines@.subrange(0, k as int)[t] == lines@[t]);
        }
    }
    false
}

/// Creates a customer return as one atomic unit: validates the request and
/// every line, then persists the document, its nonzero lines and one audit
/// entry, and returns the materialized document. On any error the store is
/// left exactly as it was.
pub fn insert_inbound_return(
    store: &mut Store,
    store_id: &String,
    user_id: &String,
    input: InsertInboundReturn,
    now: i64,
) -> (r: Result<InvoiceRow, InsertInboundReturnError>)
    requires
        old(store).wf(),
    ensures
        final (store).wf(),
        insert_inbound_return_spec(
            *old(store),
            *final (store),
            *store_id,
            *user_id,
            input,
            now,
            r,
        ),
{
    let ghost store0: Store = *store;

    if let Some(_) = invoice_index(&store.invoices, &input.id) {
        return Err(InsertInboundReturnError::InvoiceAlreadyExists);
    }

    match &input.outbound_shipment_id {
        Some(osid) => {
            let oi: usize = match invoice_index(&store.invoices, osid) {
                Some(i) => i,
                None => {
                    return Err(InsertInboundReturnError::OutboundShipmentDoesNotExist);
                },
            };
            if !(store.invoices[oi].store_id == *store_id) {
                return Err(InsertInboundReturnError::OutboundShipmentDoesNotBelongToCurrentStore);
            }
            if !(store.invoices[oi].kind == InvoiceType::OutboundShipment) {
                return Err(InsertInboundReturnError::OriginalInvoiceNotAnOutboundShipment);
            }
            if store.invoices[oi].status.index() < InvoiceStatus::Shipped.index() {
                return Err(InsertInboundReturnError::CannotReturnOutboundShipment);
            }
        },
        None => {},
    }

    match check_other_party(store, store_id, &input.other_party_id, CheckOtherPartyType::Customer) {
        Ok(_) => {},
        Err(OtherPartyErrors::OtherPartyDoesNotExist) => {
            return Err(InsertInboundReturnError::OtherPartyDoesNotExist);
        },
        Err(OtherPartyErrors::OtherPartyNotVisible) => {
            return Err(InsertInboundReturnError::OtherPartyNotVisible);
        },
        Err(OtherPartyErrors::TypeMismatched) => {
            return Err(InsertInboundReturnError::OtherPartyNotACustomer);
        },
        Err(OtherPartyErrors::DatabaseError(e)) => {
            return Err(InsertInboundReturnError::DatabaseError(e));
        },
    }

    proof {
        assert(insert_return_error(store0, store_id@, input) is None);
    }

    let line_count: usize = input.inbound_return_lines.len();

    let mut k: usize = 0;
    while k < line_count
        invariant
            k <= line_count,
            line_count == input.inbound_return_lines@.len(),
            *store == store0,
            store0.wf(),
            insert_return_error(store0, store_id@, input) is None,
            first_line_conflict(
                input.inbound_return_lines@.subrange(0, k as int),
                store.invoice_lines@,
            ) is None,
        decreases line_count - k,
    {
        let line = &input.inbound_return_lines[k];
        proof {
            assert(input.inbound_return_lines@.subrange(0, k as int + 1).drop_last()
                =~= input.inbound_return_lines@.subrange(0, k as int));
            assert(input.inbound_return_lines@.subrange(0, k as int + 1).last()
                == input.inbound_return_lines@[k as int]);
        }
        if line.number_of_packs > 0 {
            let taken: bool = invoice_line_exists(&store.invoice_lines, &line.id)
                || nonzero_dup_before(&input.inbound_return_lines, k, &line.id);
            if taken {
                proof {
                    lemma_line_conflict_mono(
                        input.inbound_return_lines@,
                        store.invoice_lines@,
                        k as int + 1,
                        input.inbound_return_lines@.len() as int,
                    );
                    assert(input.inbound_return_lines@.subrange(
                        0,
                        input.inbound_return_lines@.len() as int,
                    ) =~= input.inbound_return_lines@);
                }
                return Err(InsertInboundReturnError::LineInsertError {
                    line_id: line.id.clone(),
                    error: InsertStockInLineError::LineAlreadyExists,
                });
            }
        }
        k = k + 1;
    }
    proof {
        assert(input.inbound_return_lines@.subrange(0, input.inbound_return_lines@.len() as int)
            =~= input.inbound_return_lines@);
    }

    let mut k2: usize = 0;
    while k2 < line_count
        invariant
            k2 <= line_count,
            line_count == input.inbound_return_lines@.len(),
            *store == store0,
            store0.wf(),
            insert_return_error(store0, store_id@, input) is None,
            first_line_conflict(input.inbound_return_lines@, store0.invoice_lines@) is None,
            first_reason_conflict(
                input.inbound_return_lines@.subrange(0, k2 as int),
                store.return_reasons@,
            ) is None,
        decreases line_count - k2,
    {
        let line = &input.inbound_return_lines[k2];
        proof {
            assert(input.inbound_return_lines@.subrange(0, k2 as int + 1).drop_last()
                =~= input.inbound_return_lines@.subrange(0, k2 as int));
            assert(input.inbound_return_lines@.subrange(0, k2 as int + 1).last()
                == input.inbound_return_lines@[k2 as int]);
        }
        if line.number_of_packs > 0 {
            match &line.reason_id {
                Some(rid) => {
                    if !check_reason_active(&store.return_reasons, rid) {
                        proof {
                            lemma_reason_conflict_mono(
                                input.inbound_return_lines@,
                                store.return_reasons@,
                                k2 as int + 1,
                                input.inbound_return_lines@.len() as int,
                            );
                            assert(input.inbound_return_lines@.subrange(
                                0,
                                input.inbound_return_lines@.len() as int,
                            ) =~= input.inbound_return_lines@);
                        }
                        return Err(InsertInboundReturnError::LineReturnReasonUpdateError {
                            line_id: line.id.clone(),
                            error: UpdateLineReturnReasonError::ReasonDoesNotExist,
                        });
                    }
                },
                None => {},
            }
        }
        k2 = k2 + 1;
    }
    proof {
        assert(input.inbound_return_lines@.subrange(0, input.inbound_return_lines@.len() as int)
            =~= input.inbound_return_lines@);
    }

    let new_row = InvoiceRow {
        id: input.id.clone(),
        store_id: store_id.clone(),
        name_id: input.other_party_id.clone(),
        user_id: Some(user_id.clone()),
        kind: InvoiceType::CustomerReturn,
        status: InvoiceStatus::New,
        on_hold: false,
        comment: None,
        their_reference: None,
        transport_reference: None,
        colour: None,
        original_shipment_id: clone_opt_string(&input.outbound_shipment_id),
        created_datetime: now,
        allocated_datetime: None,
        picked_datetime: None,
        shipped_datetime: None,
        delivered_datetime: None,
        verified_datetime: None,
    };
    proof {
        assert(new_row == generated_insert_return(input, *store_id, *user_id, now));
    }
    store.invoices.push(new_row);

    let mut k3: usize = 0;
    while k3 < line_count
        invariant
            k3 <= line_count,
            line_count == input.inbound_return_lines@.len(),
            store0.wf(),
            find_invoice(store0.invoices@, input.id@) is None,
            insert_return_error(store0, store_id@, input) is None,
            first_line_conflict(input.inbound_return_lines@, store0.invoice_lines@) is None,
            first_reason_conflict(input.inbound_return_lines@, store0.return_reasons@) is None,
            store.invoices@ == store0.invoices@.push(
                generated_insert_return(input, *store_id, *user_id, now),
            ),
            store.activity_log == store0.activity_log,
            unchanged_but_update(store0, *store),
            store.invoice_lines@ == store0.invoice_lines@ + generated_lines(
                input.inbound_return_lines@.subrange(0, k3 as int),
                input.id,
            ),
        decreases line_count - k3,
    {
        let line = &input.inbound_return_lines[k3];
        proof {
            assert(input.inbound_return_lines@.subrange(0, k3 as int + 1).drop_last()
                =~= input.inbound_return_lines@.subrange(0, k3 as int));
            assert(input.inbound_return_lines@.subrange(0, k3 as int + 1).last()
                == input.inbound_return_lines@[k3 as int]);
        }
        if line.number_of_packs > 0 {
            let new_line = InvoiceLineRow {
                id: line.id.clone(),
                invoice_id: input.id.clone(),
                item_id: line.item_id.clone(),
                line_type: crate::model::InvoiceLineType::StockIn,
                stock_line_id: None,
                number_of_packs: line.number_of_packs,
                pack_size: line.pack_size,
                total_packs: 0,
                reason_id: clone_opt_string(&line.reason_id),
            };
            proof {
                assert(new_line == generated_line(
                    input.inbound_return_lines@[k3 as int],
                    input.id,
                ));
            }
            store.invoice_lines.push(new_line);
        }
        k3 = k3 + 1;
    }
    proof {
        assert(input.inbound_return_lines@.subrange(0, input.inbound_return_lines@.len() as int)
            =~= input.inbound_return_lines@);
    }

    store.activity_log.push(
        ActivityLogRow {
            document_id: input.id.clone(),
            event_type: ActivityLogType::InvoiceCreated,
            datetime: now,
            user_id: user_id.clone(),
        },
    );
    proof {
        assert(store.activity_log@.subrange(0, store0.activity_log@.len() as int)
            =~= store0.activity_log@);
    }

    proof {
        lemma_generated_lines_ok(
            input.inbound_return_lines@,
            store0.invoice_lines@,
            input.id,
        );
        let gen = generated_lines(input.inbound_return_lines@, input.id);
        let all = store0.invoice_lines@ + gen;
        assert forall|a: int, b: int| 0 <= a < b < all.len() implies all[a].id@ != all[b].id@ by {
            let n0 = store0.invoice_lines@.len() as int;
            if a < n0 && b >= n0 {
                assert(all[b] == gen[b - n0]);
                assert(!invoice_line_id_exists(store0.invoice_lines@, gen[b - n0].id@));
            } else if a >= n0 {
                assert(all[a] == gen[a - n0]);
                assert(all[b] == gen[b - n0]);
            }
        }
        assert forall|a: int, b: int|
            0 <= a < b < store.invoices@.len() implies store.invoices@[a].id@
            != store.invoices@[b].id@ by {
            if b == store.invoices@.len() - 1 {
                assert(find_invoice(store0.invoices@, input.id@) is None);
                assert(store0.invoices@[a].id@ != input.id@);
            }
        }
        assert(store.wf());
    }

    match invoice_index(&store.invoices, &input.id) {
        Some(i2) => Ok(store.invoices[i2].clone_row()),
        None => {
            proof {
                assert(store.invoices@[store.invoices@.len() - 1].id@ == input.id@);
                assert(false);
            }
            Err(InsertInboundReturnError::NewlyCreatedInvoiceDoesNotExist)
        },
    }
}

} // verus!
