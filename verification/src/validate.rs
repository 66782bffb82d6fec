//! Checks shared by every document mutation: existence, store scope, kind,
//! editability, hold handling, transition direction and counterparty role.
//! Each mutation runs them in a fixed order, so the error a caller sees for a
//! given bad request is deterministic.

use vstd::prelude::*;

use crate::lattice::InvoiceStatus;
use crate::lattice::InvoiceType;
use crate::lattice::check_editable;
use crate::lattice::is_editable;
use crate::lattice::status_index;
use crate::model::InvoiceRow;
use crate::model::NameRow;
use crate::model::RepositoryError;
use crate::store::Store;
use crate::store::find_invoice;
use crate::store::invoice_ids_distinct;

verus! {

/// The role a mutation demands of its counterparty.
#[derive(Clone, Copy, Debug, PartialEq, Eq, Structural)]
pub enum CheckOtherPartyType {
    Customer,
    Supplier,
}

/// Why a counterparty was rejected.
#[derive(Clone, Copy, Debug, PartialEq, Eq, Structural)]
pub enum OtherPartyErrors {
    OtherPartyDoesNotExist,
    OtherPartyNotVisible,
    TypeMismatched,
    DatabaseError(RepositoryError),
}

/// Why a requested status change was rejected.
#[derive(Clone, Copy, Debug, PartialEq, Eq, Structural)]
pub enum InvoiceRowStatusError {
    CannotChangeStatusOfInvoiceOnHold,
    CannotReverseInvoiceStatus,
}

/// A counterparty with this id exists.
pub open spec fn name_exists(s: Seq<NameRow>, id: Seq<char>) -> bool {
    exists|i: int| 0 <= i < s.len() && s[i].id@ == id
}

/// The counterparty is visible to the store.
pub open spec fn name_visible(
    s: Seq<crate::model::NameStoreJoinRow>,
    name_id: Seq<char>,
    store_id: Seq<char>,
) -> bool {
    exists|i: int| 0 <= i < s.len() && s[i].name_id@ == name_id && s[i].store_id@ == store_id
}

/// The counterparty has the demanded role within the store's scope.
pub open spec fn name_has_role(
    s: Seq<crate::model::NameStoreJoinRow>,
    name_id: Seq<char>,
    store_id: Seq<char>,
    ty: CheckOtherPartyType,
) -> bool {
    exists|i: int|
        0 <= i < s.len() && s[i].name_id@ == name_id && s[i].store_id@ == store_id && (match ty {
            CheckOtherPartyType::Customer => s[i].name_is_customer,
            CheckOtherPartyType::Supplier => s[i].name_is_supplier,
        })
}

/// The first counterparty precondition the request violates, checked in
/// order: existence, visibility, role.
pub open spec fn other_party_error(
    store: Store,
    store_id: Seq<char>,
    name_id: Seq<char>,
    ty: CheckOtherPartyType,
) -> Option<OtherPartyErrors> {
    if !name_exists(store.names@, name_id) {
        Some(OtherPartyErrors::OtherPartyDoesNotExist)
    } else if !name_visible(store.name_store_joins@, name_id, store_id) {
        Some(OtherPartyErrors::OtherPartyNotVisible)
    } else if !name_has_role(store.name_store_joins@, name_id, store_id, ty) {
        Some(OtherPartyErrors::TypeMismatched)
    } else {
        None
    }
}

/// Checks that the counterparty exists, is visible to the store and has the
/// demanded role, in that order.
pub fn check_other_party(
    store: &Store,
    store_id: &String,
    name_id: &String,
    ty: CheckOtherPartyType,
) -> (r: Result<NameRow, OtherPartyErrors>)
    ensures
        match other_party_error(*store, store_id@, name_id@, ty) {
            Some(e) => r == Err::<NameRow, OtherPartyErrors>(e),
            None => r matches Ok(n) && n.id@ == name_id@,
        },
{
    let mut exists_name: bool = false;
    let n: usize = store.names.len();
    let mut k: usize = 0;
    while k < n
        invariant
            n == store.names@.len(),
            k <= n,
            exists_name == exists|j: int| 0 <= j < k && store.names@[j].id@ == name_id@,
        decreases n - k,
    {
        if store.names[k].id == *name_id {
            exists_name = true;
        }
        k = k + 1;
    }
    if !exists_name {
        return Err(OtherPartyErrors::OtherPartyDoesNotExist);
    }

    let mut visible: bool = false;
    let mut has_role: bool = false;
    let m: usize = store.name_store_joins.len();
    let mut t: usize = 0;
    while t < m
        invariant
            m == store.name_store_joins@.len(),
            t <= m,
            visible == exists|j: int|
                0 <= j < t && store.name_store_joins@[j].name_id@ == name_id@
                    && store.name_store_joins@[j].store_id@ == store_id@,
            has_role == exists|j: int|
                0 <= j < t && store.name_store_joins@[j].name_id@ == name_id@
                    && store.name_store_joins@[j].store_id@ == store_id@ && (match ty {
                    CheckOtherPartyType::Customer => store.name_store_joins@[j].name_is_customer,
                    CheckOtherPartyType::Supplier => store.name_store_joins@[j].name_is_supplier,
                }),
        decreases m - t,
    {
        let join = &store.name_store_joins[t];
        if join.name_id == *name_id && join.store_id == *store_id {
            visible = true;
            let role: bool = match ty {
                CheckOtherPartyType::Customer => join.name_is_customer,
                CheckOtherPartyType::Supplier => join.name_is_supplier,
            };
            if role {
                has_role = true;
            }
        }
        t = t + 1;
    }
    if !visible {
        return Err(OtherPartyErrors::OtherPartyNotVisible);
    }
    if !has_role {
        return Err(OtherPartyErrors::TypeMismatched);
    }
    Ok(NameRow { id: name_id.clone() })
}

/// Looks a document up by id. Never fails: the error slot exists only so the
/// signature matches the storage-backed form.
pub fn check_invoice_exists(id: &String, store: &Store) -> (r: Result<
    Option<InvoiceRow>,
    RepositoryError,
>)
    requires
        invoice_ids_distinct(store.invoices@),
    ensures
        r == Ok::<Option<InvoiceRow>, RepositoryError>(find_invoice(store.invoices@, id@)),
{
    let n: usize = store.invoices.len();
    let mut k: usize = 0;
    while k < n
        invariant
            n == store.invoices@.len(),
            k <= n,
            invoice_ids_distinct(store.invoices@),
            forall|j: int| 0 <= j < k ==> store.invoices@[j].id@ != id@,
        decreases n - k,
    {
        if store.invoices[k].id == *id {
            return Ok(Some(store.invoices[k].clone_row()));
        }
        k = k + 1;
    }
    Ok(None)
}

/// Whether the document belongs to the caller's store.
pub fn check_store(invoice: &InvoiceRow, store_id: &String) -> (r: bool)
    ensures
        r == (invoice.store_id@ == store_id@),
{
    invoice.store_id == *store_id
}

/// Whether the document has the kind the operation expects.
pub fn check_invoice_type(invoice: &InvoiceRow, kind: InvoiceType) -> (r: bool)
    ensures
        r == (invoice.kind == kind),
{
    invoice.kind == kind
}

/// Whether the document may still be mutated.
pub fn check_invoice_is_editable(invoice: &InvoiceRow) -> (r: bool)
    ensures
        r == is_editable(invoice.kind, invoice.status),
{
    check_editable(invoice.kind, invoice.status)
}

/// A status change is requested: a target is given and differs from the
/// current status. A target equal to the current status is a no-op, not an
/// error.
pub open spec fn status_changed(current: InvoiceStatus, requested: Option<InvoiceStatus>) -> bool {
    requested matches Some(s) && s != current
}

/// Executable form of [`status_changed`].
pub fn check_status_change(invoice: &InvoiceRow, requested: Option<InvoiceStatus>) -> (r: bool)
    ensures
        r == status_changed(invoice.status, requested),
{
    match requested {
        Some(s) => !(s == invoice.status),
        None => false,
    }
}

/// The first objection to a requested status change: the document is on hold
/// and the patch does not clear the hold in the same call, or the target lies
/// behind the current status.
pub open spec fn invoice_status_error(
    inv: InvoiceRow,
    requested: Option<InvoiceStatus>,
    on_hold_option: Option<bool>,
) -> Option<InvoiceRowStatusError> {
    match requested {
        None => None,
        Some(new_status) => {
            let hold_blocks = inv.on_hold && on_hold_option != Some(false);
            if new_status != inv.status && hold_blocks {
                Some(InvoiceRowStatusError::CannotChangeStatusOfInvoiceOnHold)
            } else if status_index(new_status) < status_index(inv.status) {
                Some(InvoiceRowStatusError::CannotReverseInvoiceStatus)
            } else {
                None
            }
        },
    }
}

/// Checks a requested status change against the hold flag and the transition
/// direction.
pub fn check_invoice_status(
    invoice: &InvoiceRow,
    requested: Option<InvoiceStatus>,
    on_hold_option: &Option<bool>,
) -> (r: Result<(), InvoiceRowStatusError>)
    ensures
        r == match invoice_status_error(*invoice, requested, *on_hold_option) {
            Some(e) => Err::<(), InvoiceRowStatusError>(e),
            None => Ok::<(), InvoiceRowStatusError>(()),
        },
{
    match requested {
        None => Ok(()),
        Some(new_status) => {
            let hold_blocks: bool = invoice.on_hold && match on_hold_option {
                Some(b) => *b,
                None => true,
            };
            if !(new_status == invoice.status) && hold_blocks {
                return Err(InvoiceRowStatusError::CannotChangeStatusOfInvoiceOnHold);
            }
            if new_status.index() < invoice.status.index() {
                return Err(InvoiceRowStatusError::CannotReverseInvoiceStatus);
            }
            Ok(())
        },
    }
}

} // verus!
