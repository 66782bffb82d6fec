//! Requisitions and the supply-status computation used when turning a
//! response requisition into a shipment.

use vstd::prelude::*;

use crate::model::RepositoryError;
use crate::store::Store;
use crate::store::id_in_list;

verus! {

/// Whether a requisition asks for stock or answers such a request.
#[derive(Clone, Copy, Debug, PartialEq, Eq, Structural)]
pub enum RequisitionType {
    Request,
    Response,
}

/// The requisition's own status sequence.
#[derive(Clone, Copy, Debug, PartialEq, Eq, Structural)]
pub enum RequisitionStatus {
    New,
    Sent,
    Finalised,
}

/// A requisition held by one store.
#[derive(Clone, Debug, PartialEq)]
pub struct RequisitionRow {
    pub id: String,
    pub store_id: String,
    pub kind: RequisitionType,
    pub status: RequisitionStatus,
}

/// One item of a requisition, with how much was asked for and how much has
/// been supplied so far.
#[derive(Clone, Debug, PartialEq)]
pub struct RequisitionLineRow {
    pub id: String,
    pub requisition_id: String,
    pub item_id: String,
    pub requested_quantity: u64,
    pub supplied_quantity: u64,
}

/// A requisition as handed back to callers.
#[derive(Clone, Debug, PartialEq)]
pub struct Requisition {
    pub requisition_row: RequisitionRow,
}

/// A requisition line together with the quantity still to be supplied.
#[derive(Clone, Debug, PartialEq)]
pub struct RequisitionLineSupplyStatus {
    pub line: RequisitionLineRow,
    pub remaining_quantity: u64,
}

/// No two requisitions share an id.
pub open spec fn requisition_ids_distinct(s: Seq<RequisitionRow>) -> bool {
    forall|i: int, j: int| 0 <= i < j < s.len() ==> s[i].id@ != s[j].id@
}

/// First requisition with this id, if any.
pub open spec fn find_requisition(s: Seq<RequisitionRow>, id: Seq<char>) -> Option<RequisitionRow> {
    if exists|i: int| 0 <= i < s.len() && s[i].id@ == id {
        Some(s[choose|i: int| 0 <= i < s.len() && s[i].id@ == id])
    } else {
        None
    }
}

/// What is still owed on a line: requested minus supplied, never negative.
pub open spec fn remaining_of(l: RequisitionLineRow) -> int {
    if l.requested_quantity >= l.supplied_quantity {
        l.requested_quantity - l.supplied_quantity
    } else {
        0
    }
}

/// The supply status of one line.
pub open spec fn status_of(l: RequisitionLineRow) -> RequisitionLineSupplyStatus {
    RequisitionLineSupplyStatus { line: l, remaining_quantity: remaining_of(l) as u64 }
}

/// Supply statuses of every line belonging to one of the given requisitions,
/// in table order.
pub open spec fn supply_statuses(lines: Seq<RequisitionLineRow>, ids: Seq<String>) -> Seq<
    RequisitionLineSupplyStatus,
>
    decreases lines.len(),
{
    if lines.len() == 0 {
        Seq::empty()
    } else {
        let pre = supply_statuses(lines.drop_last(), ids);
        if id_in_list(ids, lines.last().requisition_id@) {
            pre.push(status_of(lines.last()))
        } else {
            pre
        }
    }
}

/// The statuses with something left to supply, in order.
pub open spec fn statuses_remaining(s: Seq<RequisitionLineSupplyStatus>) -> Seq<
    RequisitionLineSupplyStatus,
>
    decreases s.len(),
{
    if s.len() == 0 {
        Seq::empty()
    } else {
        let pre = statuses_remaining(s.drop_last());
        if s.last().remaining_quantity > 0 {
            pre.push(s.last())
        } else {
            pre
        }
    }
}

/// Looks a requisition up by id. Never fails: the error slot exists only so
/// the signature matches the storage-backed form.
pub fn check_requisition_exists(store: &Store, id: &String) -> (r: Result<
    Option<Requisition>,
    RepositoryError,
>)
    requires
        requisition_ids_distinct(store.requisitions@),
    ensures
        r == Ok::<Option<Requisition>, RepositoryError>(
            match find_requisition(store.requisitions@, id@) {
                Some(row) => Some(Requisition { requisition_row: row }),
                None => None,
            },
        ),
{
    let n: usize = store.requisitions.len();
    let mut k: usize = 0;
    while k < n
        invariant
            n == store.requisitions@.len(),
            k <= n,
            requisition_ids_distinct(store.requisitions@),
            forall|j: int| 0 <= j < k ==> store.requisitions@[j].id@ != id@,
        decreases n - k,
    {
        if store.requisitions[k].id == *id {
            let row = &store.requisitions[k];
            return Ok(Some(Requisition {
                requisition_row: RequisitionRow {
                    id: row.id.clone(),
                    store_id: row.store_id.clone(),
                    kind: row.kind,
                    status: row.status,
                },
            }));
        }
        k = k + 1;
    }
    Ok(None)
}

impl RequisitionLineRow {
    /// An exact copy of the row.
    pub fn clone_row(&self) -> (r: RequisitionLineRow)
        ensures
            r == *self,
    {
        RequisitionLineRow {
            id: self.id.clone(),
            requisition_id: self.requisition_id.clone(),
            item_id: self.item_id.clone(),
            requested_quantity: self.requested_quantity,
            supplied_quantity: self.supplied_quantity,
        }
    }
}

/// Whether one of the ids matches.
fn id_in_list_exec(ids: &Vec<String>, id: &String) -> (r: bool)
    ensures
        r == id_in_list(ids@, id@),
{
    let m: usize = ids.len();
    let mut t: usize = 0;
    while t < m
        invariant
            m == ids@.len(),
            t <= m,
            forall|j: int| 0 <= j < t ==> ids@[j]@ != id@,
        decreases m - t,
    {
        if ids[t] == *id {
            return true;
        }
        t = t + 1;
    }
    false
}

/// Computes the supply status of every line of the given requisitions.
/// Never fails; the error slot keeps the storage-backed signature.
pub fn get_requisitions_supply_statuses(store: &Store, requisition_ids: Vec<String>) -> (r: Result<
    Vec<RequisitionLineSupplyStatus>,
    RepositoryError,
>)
    ensures
        r matches Ok(v) && v@ == supply_statuses(store.requisition_lines@, requisition_ids@),
{
    let mut out: Vec<RequisitionLineSupplyStatus> = Vec::new();
    let n: usize = store.requisition_lines.len();
    let mut k: usize = 0;
    while k < n
        invariant
            n == store.requisition_lines@.len(),
            k <= n,
            out@ == supply_statuses(
                store.requisition_lines@.subrange(0, k as int),
                requisition_ids@,
            ),
        decreases n - k,
    {
        let line = &store.requisition_lines[k];
        let member: bool = id_in_list_exec(&requisition_ids, &line.requisition_id);
        if member {
            let remaining: u64 = if line.requested_quantity >= line.supplied_quantity {
                line.requested_quantity - line.supplied_quantity
            } else {
                0
            };
            out.push(RequisitionLineSupplyStatus { line: line.clone_row(), remaining_quantity: remaining });
        }
        proof {
            let pre = store.requisition_lines@.subrange(0, k as int);
            let cur = store.requisition_lines@.subrange(0, k as int + 1);
            let l = store.requisition_lines@[k as int];
            assert(cur.drop_last() =~= pre);
            assert(cur.last() == l);
            assert(member == id_in_list(requisition_ids@, l.requisition_id@));
        }
        k = k + 1;
    }
    proof {
        assert(store.requisition_lines@.subrange(0, store.requisition_lines@.len() as int)
            =~= store.requisition_lines@);
    }
    Ok(out)
}

impl RequisitionLineSupplyStatus {
    /// Keeps only the statuses with something left to supply.
    pub fn lines_remaining_to_supply(statuses: Vec<RequisitionLineSupplyStatus>) -> (r: Vec<
        RequisitionLineSupplyStatus,
    >)
        ensures
            r@ == statuses_remaining(statuses@),
    {
        let mut out: Vec<RequisitionLineSupplyStatus> = Vec::new();
        let n: usize = statuses.len();
        let mut k: usize = 0;
        while k < n
            invariant
                n == statuses@.len(),
                k <= n,
                out@ == statuses_remaining(statuses@.subrange(0, k as int)),
            decreases n - k,
        {
            proof {
                let pre = statuses@.subrange(0, k as int);
                let cur = statuses@.subrange(0, k as int + 1);
                assert(cur.drop_last() =~= pre);
                assert(cur.last() == statuses@[k as int]);
            }
            if statuses[k].remaining_quantity > 0 {
                let st = &statuses[k];
                out.push(RequisitionLineSupplyStatus {
                    line: st.line.clone_row(),
                    remaining_quantity: st.remaining_quantity,
                });
            }
            k = k + 1;
        }
        proof {
            assert(statuses@.subrange(0, statuses@.len() as int) =~= statuses@);
        }
        out
    }
}


/// What a caller supplies to create the shipment for a response requisition.
#[derive(Clone, Debug, Default, PartialEq)]
pub struct CreateRequisitionShipment {
    pub response_requisition_id: String,
}

/// Why creating the shipment was refused.
#[derive(Clone, Copy, Debug, PartialEq, Eq, Structural)]
pub enum CreateRequisitionShipmentError {
    RequisitionDoesNotExist,
    NotThisStoreRequisition,
    NotAResponseRequisition,
    CannotEditRequisition,
    NothingRemainingToSupply,
    CreatedInvoiceDoesNotExist,
    DatabaseError(RepositoryError),
}

/// The first precondition the request violates, in order: the requisition
/// must exist, belong to the store, be a response requisition, still be
/// `New`, and have at least one line with something left to supply.
pub open spec fn create_shipment_error(
    store: Store,
    store_id: Seq<char>,
    input: CreateRequisitionShipment,
) -> Option<CreateRequisitionShipmentError> {
    match find_requisition(store.requisitions@, input.response_requisition_id@) {
        None => Some(CreateRequisitionShipmentError::RequisitionDoesNotExist),
        Some(row) => {
            if row.store_id@ != store_id {
                Some(CreateRequisitionShipmentError::NotThisStoreRequisition)
            } else if !(row.kind is Response) {
                Some(CreateRequisitionShipmentError::NotAResponseRequisition)
            } else if !(row.status is New) {
                Some(CreateRequisitionShipmentError::CannotEditRequisition)
            } else if statuses_remaining(
                supply_statuses(store.requisition_lines@, seq![input.response_requisition_id]),
            ).len() == 0 {
                Some(CreateRequisitionShipmentError::NothingRemainingToSupply)
            } else {
                None
            }
        },
    }
}

/// Checks the preconditions in order and hands back the requisition and the
/// lines still to be supplied.
pub fn validate(store: &Store, store_id: &String, input: &CreateRequisitionShipment) -> (r: Result<
    (Requisition, Vec<RequisitionLineSupplyStatus>),
    CreateRequisitionShipmentError,
>)
    requires
        store.wf(),
    ensures
        match create_shipment_error(*store, store_id@, *input) {
            Some(e) => r == Err::<
                (Requisition, Vec<RequisitionLineSupplyStatus>),
                CreateRequisitionShipmentError,
            >(e),
            None => r matches Ok((requisition, remaining)) && Some(requisition.requisition_row)
                == find_requisition(store.requisitions@, input.response_requisition_id@)
                && remaining@ == statuses_remaining(
                supply_statuses(store.requisition_lines@, seq![input.response_requisition_id]),
            ),
        },
{
    let requisition = match check_requisition_exists(store, &input.response_requisition_id) {
        Ok(Some(requisition)) => requisition,
        Ok(None) => {
            return Err(CreateRequisitionShipmentError::RequisitionDoesNotExist);
        },
        Err(e) => {
            return Err(CreateRequisitionShipmentError::DatabaseError(e));
        },
    };
    if !(requisition.requisition_row.store_id == *store_id) {
        return Err(CreateRequisitionShipmentError::NotThisStoreRequisition);
    }
    if !(requisition.requisition_row.kind == RequisitionType::Response) {
        return Err(CreateRequisitionShipmentError::NotAResponseRequisition);
    }
    if !(requisition.requisition_row.status == RequisitionStatus::New) {
        return Err(CreateRequisitionShipmentError::CannotEditRequisition);
    }

    let mut ids: Vec<String> = Vec::new();
    ids.push(input.response_requisition_id.clone());
    proof {
        assert(ids@ =~= seq![input.response_requisition_id]);
    }
    let supply = match get_requisitions_supply_statuses(store, ids) {
        Ok(v) => v,
        Err(e) => {
            return Err(CreateRequisitionShipmentError::DatabaseError(e));
        },
    };

    let remaining = RequisitionLineSupplyStatus::lines_remaining_to_supply(supply);

    if remaining.len() == 0 {
        return Err(CreateRequisitionShipmentError::NothingRemainingToSupply);
    }

    Ok((requisition, remaining))
}

} // verus!
