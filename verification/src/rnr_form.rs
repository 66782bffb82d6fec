//! Requisition-and-report forms: one per program and period, created in one
//! atomic unit.

use vstd::prelude::*;

use crate::model::ActivityLogRow;
use crate::model::ActivityLogType;
use crate::model::RepositoryError;
use crate::program::PeriodRow;
use crate::program::find_period;
use crate::program::find_program;
use crate::program::master_list_visible;
use crate::program::period_ids_distinct;
use crate::program::program_has_schedule;
use crate::store::Store;
use crate::vaccine_course::check_program_exists;
use crate::validate::CheckOtherPartyType;
use crate::validate::OtherPartyErrors;
use crate::validate::check_other_party;
use crate::validate::other_party_error;

verus! {

/// The form's own status sequence.
#[derive(Clone, Copy, Debug, PartialEq, Eq, Structural)]
pub enum RnRFormStatus {
    Draft,
    Finalised,
}

/// A requisition-and-report form for one program, period and supplier.
#[derive(Clone, Debug, PartialEq)]
pub struct RnRFormRow {
    pub id: String,
    pub period_id: String,
    pub program_id: String,
    /// The supplier the form is addressed to.
    pub name_id: String,
    pub store_id: String,
    pub created_datetime: i64,
    pub finalised_datetime: Option<i64>,
    pub status: RnRFormStatus,
    pub linked_requisition_id: Option<String>,
}

/// One item of a form.
#[derive(Clone, Debug, PartialEq)]
pub struct RnRFormLineRow {
    pub id: String,
    pub rnr_form_id: String,
    pub item_id: String,
}

/// What a caller asks for when creating a form.
#[derive(Clone, Debug, Default, PartialEq)]
pub struct InsertRnRForm {
    pub id: String,
    pub supplier_id: String,
    pub program_id: String,
    pub period_id: String,
}

/// Why creating a form was refused.
#[derive(Clone, Debug, PartialEq)]
pub enum InsertRnRFormError {
    DatabaseError(RepositoryError),
    InternalError(String),
    RnRFormAlreadyExists,
    SupplierDoesNotExist,
    SupplierNotVisible,
    NotASupplier,
    ProgramDoesNotExist,
    ProgramHasNoMasterList,
    PeriodDoesNotExist,
    PeriodNotInProgramSchedule,
    RnRFormAlreadyExistsForPeriod,
    NewlyCreatedRnRFormDoesNotExist,
}

/// A form with this id exists.
pub open spec fn rnr_form_id_exists(s: Seq<RnRFormRow>, id: Seq<char>) -> bool {
    exists|i: int| 0 <= i < s.len() && s[i].id@ == id
}

/// A form for this period and program exists.
pub open spec fn rnr_form_exists_for_period(
    s: Seq<RnRFormRow>,
    period_id: Seq<char>,
    program_id: Seq<char>,
) -> bool {
    exists|i: int|
        0 <= i < s.len() && s[i].period_id@ == period_id && s[i].program_id@ == program_id
}

/// Whether no form with this id exists yet.
pub fn check_rnr_form_does_not_exist(store: &Store, id: &String) -> (r: bool)
    ensures
        r == !rnr_form_id_exists(store.rnr_forms@, id@),
{
    let n: usize = store.rnr_forms.len();
    let mut k: usize = 0;
    while k < n
        invariant
            n == store.rnr_forms@.len(),
            k <= n,
            forall|j: int| 0 <= j < k ==> store.rnr_forms@[j].id@ != id@,
        decreases n - k,
    {
        if store.rnr_forms[k].id == *id {
            return false;
        }
        k = k + 1;
    }
    true
}

/// Whether a form for this period and program already exists.
pub fn check_rnr_form_exists_for_period(
    store: &Store,
    period_id: &String,
    program_id: &String,
) -> (r: bool)
    ensures
        r == rnr_form_exists_for_period(store.rnr_forms@, period_id@, program_id@),
{
    let n: usize = store.rnr_forms.len();
    let mut k: usize = 0;
    while k < n
        invariant
            n == store.rnr_forms@.len(),
            k <= n,
            forall|j: int|
                0 <= j < k ==> !(store.rnr_forms@[j].period_id@ == period_id@
                    && store.rnr_forms@[j].program_id@ == program_id@),
        decreases n - k,
    {
        if store.rnr_forms[k].period_id == *period_id && store.rnr_forms[k].program_id
            == *program_id {
            return true;
        }
        k = k + 1;
    }
    false
}

/// Whether the master list is visible to the store.
pub fn check_master_list_exists(store: &Store, store_id: &String, master_list_id: &String) -> (r:
    bool)
    ensures
        r == master_list_visible(store.master_list_joins@, master_list_id@, store_id@),
{
    let n: usize = store.master_list_joins.len();
    let mut k: usize = 0;
    while k < n
        invariant
            n == store.master_list_joins@.len(),
            k <= n,
            forall|j: int|
                0 <= j < k ==> !(store.master_list_joins@[j].master_list_id@ == master_list_id@
                    && store.master_list_joins@[j].store_id@ == store_id@),
        decreases n - k,
    {
        if store.master_list_joins[k].master_list_id == *master_list_id
            && store.master_list_joins[k].store_id == *store_id {
            return true;
        }
        k = k + 1;
    }
    false
}

/// Whether the period's schedule belongs to the program.
pub fn check_period_in_program_schedule(
    store: &Store,
    program_id: &String,
    period_schedule_id: &String,
) -> (r: bool)
    ensures
        r == program_has_schedule(
            store.program_requisition_settings@,
            program_id@,
            period_schedule_id@,
        ),
{
    let n: usize = store.program_requisition_settings.len();
    let mut k: usize = 0;
    while k < n
        invariant
            n == store.program_requisition_settings@.len(),
            k <= n,
            forall|j: int|
                0 <= j < k ==> !(store.program_requisition_settings@[j].program_id@ == program_id@
                    && store.program_requisition_settings@[j].period_schedule_id@
                    == period_schedule_id@),
        decreases n - k,
    {
        if store.program_requisition_settings[k].program_id == *program_id
            && store.program_requisition_settings[k].period_schedule_id == *period_schedule_id {
            return true;
        }
        k = k + 1;
    }
    false
}

/// Every table an R&R-form insert does not touch is the same in `b` as in `a`.
pub open spec fn unchanged_but_rnr(a: Store, b: Store) -> bool {
    &&& b.invoices == a.invoices
    &&& b.invoice_lines == a.invoice_lines
    &&& b.stock_lines == a.stock_lines
    &&& b.names == a.names
    &&& b.name_store_joins == a.name_store_joins
    &&& b.return_reasons == a.return_reasons
    &&& b.assets == a.assets
    &&& b.asset_logs == a.asset_logs
    &&& b.asset_catalogue_items == a.asset_catalogue_items
    &&& b.asset_catalogue_item_properties == a.asset_catalogue_item_properties
    &&& b.vaccine_courses == a.vaccine_courses
    &&& b.programs == a.programs
    &&& b.periods == a.periods
    &&& b.program_requisition_settings == a.program_requisition_settings
    &&& b.master_list_joins == a.master_list_joins
    &&& b.rnr_form_lines == a.rnr_form_lines
    &&& b.requisitions == a.requisitions
    &&& b.requisition_lines == a.requisition_lines
}

/// The first precondition the insert request violates, in order: the form id
/// must be free; the supplier must exist, be visible and be a supplier; the
/// program must exist and have a master list visible to the store; the
/// period must exist and belong to one of the program's schedules; and no
/// form for the period and program may exist yet.
pub open spec fn insert_rnr_error(
    store: Store,
    store_id: Seq<char>,
    input: InsertRnRForm,
) -> Option<InsertRnRFormError> {
    if rnr_form_id_exists(store.rnr_forms@, input.id@) {
        Some(InsertRnRFormError::RnRFormAlreadyExists)
    } else {
        match other_party_error(store, store_id, input.supplier_id@, CheckOtherPartyType::Supplier) {
            Some(OtherPartyErrors::OtherPartyDoesNotExist) => Some(
                InsertRnRFormError::SupplierDoesNotExist,
            ),
            Some(OtherPartyErrors::OtherPartyNotVisible) => Some(
                InsertRnRFormError::SupplierNotVisible,
            ),
            Some(OtherPartyErrors::TypeMismatched) => Some(InsertRnRFormError::NotASupplier),
            Some(OtherPartyErrors::DatabaseError(e)) => Some(InsertRnRFormError::DatabaseError(e)),
            None => match find_program(store.programs@, input.program_id@) {
                None => Some(InsertRnRFormError::ProgramDoesNotExist),
                Some(program) => match program.master_list_id {
                    None => Some(InsertRnRFormError::ProgramHasNoMasterList),
                    Some(ml) => {
                        if !master_list_visible(store.master_list_joins@, ml@, store_id) {
                            Some(InsertRnRFormError::ProgramHasNoMasterList)
                        } else {
                            match find_period(store.periods@, input.period_id@) {
                                None => Some(InsertRnRFormError::PeriodDoesNotExist),
                                Some(period) => {
                                    if !program_has_schedule(
                                        store.program_requisition_settings@,
                                        input.program_id@,
                                        period.period_schedule_id@,
                                    ) {
                                        Some(InsertRnRFormError::PeriodNotInProgramSchedule)
                                    } else if rnr_form_exists_for_period(
                                        store.rnr_forms@,
                                        input.period_id@,
                                        input.program_id@,
                                    ) {
                                        Some(InsertRnRFormError::RnRFormAlreadyExistsForPeriod)
                                    } else {
                                        None
                                    }
                                },
                            }
                        }
                    },
                },
            },
        }
    }
}

/// The new form row: a draft for the program, period and supplier, created
/// now, not yet linked to a requisition.
pub open spec fn generated_rnr_form(input: InsertRnRForm, store_id: String, now: i64) -> RnRFormRow {
    RnRFormRow {
        id: input.id,
        period_id: input.period_id,
        program_id: input.program_id,
        name_id: input.supplier_id,
        store_id: store_id,
        created_datetime: now,
        finalised_datetime: None,
        status: RnRFormStatus::Draft,
        linked_requisition_id: None,
    }
}

/// Checks the insert preconditions in order and hands back the period row
/// and the program's master list id.
fn validate(store: &Store, store_id: &String, input: &InsertRnRForm) -> (r: Result<
    (PeriodRow, String),
    InsertRnRFormError,
>)
    requires
        store.wf(),
    ensures
        match insert_rnr_error(*store, store_id@, *input) {
            Some(e) => r == Err::<(PeriodRow, String), InsertRnRFormError>(e),
            None => r matches Ok((period, ml)) && Some(period) == find_period(
                store.periods@,
                input.period_id@,
            ) && (match find_program(store.programs@, input.program_id@) {
                Some(program) => program.master_list_id matches Some(m) && m@ == ml@,
                None => false,
            }),
        },
{
    if !check_rnr_form_does_not_exist(store, &input.id) {
        return Err(InsertRnRFormError::RnRFormAlreadyExists);
    }

    match check_other_party(store, store_id, &input.supplier_id, CheckOtherPartyType::Supplier) {
        Ok(_) => {},
        Err(OtherPartyErrors::OtherPartyDoesNotExist) => {
            return Err(InsertRnRFormError::SupplierDoesNotExist);
        },
        Err(OtherPartyErrors::OtherPartyNotVisible) => {
            return Err(InsertRnRFormError::SupplierNotVisible);
        },
        Err(OtherPartyErrors::TypeMismatched) => {
            return Err(InsertRnRFormError::NotASupplier);
        },
        Err(OtherPartyErrors::DatabaseError(e)) => {
            return Err(InsertRnRFormError::DatabaseError(e));
        },
    }

    let program = match check_program_exists(&input.program_id, store) {
        Ok(Some(p)) => p,
        Ok(None) => {
            return Err(InsertRnRFormError::ProgramDoesNotExist);
        },
        Err(e) => {
            return Err(InsertRnRFormError::DatabaseError(e));
        },
    };

    let master_list_id = match program.master_list_id {
        Some(id) => id,
        None => {
            return Err(InsertRnRFormError::ProgramHasNoMasterList);
        },
    };

    if !check_master_list_exists(store, store_id, &master_list_id) {
        return Err(InsertRnRFormError::ProgramHasNoMasterList);
    }

    let period = match check_period_exists(&input.period_id, store) {
        Some(p) => p,
        None => {
            return Err(InsertRnRFormError::PeriodDoesNotExist);
        },
    };

    if !check_period_in_program_schedule(store, &input.program_id, &period.period_schedule_id) {
        return Err(InsertRnRFormError::PeriodNotInProgramSchedule);
    }

    if check_rnr_form_exists_for_period(store, &input.period_id, &input.program_id) {
        return Err(InsertRnRFormError::RnRFormAlreadyExistsForPeriod);
    }

    Ok((period, master_list_id))
}

/// Looks a period up by id.
fn check_period_exists(id: &String, store: &Store) -> (r: Option<PeriodRow>)
    requires
        period_ids_distinct(store.periods@),
    ensures
        r == find_period(store.periods@, id@),
{
    let n: usize = store.periods.len();
    let mut k: usize = 0;
    while k < n
        invariant
            n == store.periods@.len(),
            k <= n,
            period_ids_distinct(store.periods@),
            forall|j: int| 0 <= j < k ==> store.periods@[j].id@ != id@,
        decreases n - k,
    {
        if store.periods[k].id == *id {
            return Some(PeriodRow {
                id: store.periods[k].id.clone(),
                period_schedule_id: store.periods[k].period_schedule_id.clone(),
            });
        }
        k = k + 1;
    }
    None
}

/// The pure generation step: the draft form row, created now. The form
/// starts with no lines; filling them from the master list belongs to the
/// excluded reporting layer.
fn generate(store_id: &String, input: &InsertRnRForm, now: i64) -> (r: (
    RnRFormRow,
    Vec<RnRFormLineRow>,
))
    ensures
        r.0 == generated_rnr_form(*input, *store_id, now),
        r.1@.len() == 0,
{
    let rnr_form = RnRFormRow {
        id: input.id.clone(),
        period_id: input.period_id.clone(),
        program_id: input.program_id.clone(),
        name_id: input.supplier_id.clone(),
        store_id: store_id.clone(),
        created_datetime: now,
        finalised_datetime: None,
        status: RnRFormStatus::Draft,
        linked_requisition_id: None,
    };
    (rnr_form, Vec::new())
}

/// Index of the first form with this id.
fn rnr_form_index(forms: &Vec<RnRFormRow>, id: &String) -> (r: Option<usize>)
    ensures
        match r {
            Some(i) => i < forms@.len() && forms@[i as int].id@ == id@ && (forall|j: int|
                0 <= j < i ==> forms@[j].id@ != id@),
            None => forall|j: int| 0 <= j < forms@.len() ==> forms@[j].id@ != id@,
        },
{
    let n: usize = forms.len();
    let mut k: usize = 0;
    while k < n
        invariant
            n == forms@.len(),
            k <= n,
            forall|j: int| 0 <= j < k ==> forms@[j].id@ != id@,
        decreases n - k,
    {
        if forms[k].id == *id {
            return Some(k);
        }
        k = k + 1;
    }
    None
}

impl RnRFormRow {
    /// An exact copy of the row.
    pub fn clone_row(&self) -> (r: RnRFormRow)
        ensures
            r == *self,
    {
        RnRFormRow {
            id: self.id.clone(),
            period_id: self.period_id.clone(),
            program_id: self.program_id.clone(),
            name_id: self.name_id.clone(),
            store_id: self.store_id.clone(),
            created_datetime: self.created_datetime,
            finalised_datetime: match self.finalised_datetime {
                Some(t) => Some(t),
                None => None,
            },
            status: self.status,
            linked_requisition_id: crate::model::clone_opt_string(&self.linked_requisition_id),
        }
    }
}

/// Creates a requisition-and-report form as one atomic unit: validates,
/// generates the draft row, persists it and one audit entry, and returns the
/// materialized form. On any error the store is left exactly as it was.
pub fn insert_rnr_form(
    store: &mut Store,
    store_id: &String,
    user_id: &String,
    input: InsertRnRForm,
    now: i64,
) -> (r: Result<RnRFormRow, InsertRnRFormError>)
    requires
        old(store).wf(),
    ensures
        final (store).wf(),
        match insert_rnr_error(*old(store), store_id@, input) {
            Some(e) => r == Err::<RnRFormRow, InsertRnRFormError>(e) && *final (store) == *old(
                store,
            ),
            None => {
                &&& r == Ok::<RnRFormRow, InsertRnRFormError>(
                    generated_rnr_form(input, *store_id, now),
                )
                &&& final (store).rnr_forms@ == old(store).rnr_forms@.push(
                    generated_rnr_form(input, *store_id, now),
                )
                &&& final (store).activity_log@.len() == old(store).activity_log@.len() + 1
                &&& final (store).activity_log@.subrange(0, old(store).activity_log@.len() as int)
                    == old(store).activity_log@
                &&& crate::outbound_return::log_entry_matches(
                    final (store).activity_log@.last(),
                    input.id@,
                    ActivityLogType::RnrFormCreated,
                    now,
                    user_id@,
                )
                &&& unchanged_but_rnr(*old(store), *final (store))
            },
        },
{
    let ghost store0: Store = *store;

    let _period_and_master_list = match validate(store, store_id, &input) {
        Ok(v) => v,
        Err(e) => {
            return Err(e);
        },
    };

    let (rnr_form, _rnr_form_lines) = generate(store_id, &input, now);
    let materialized = rnr_form.clone_row();

    store.rnr_forms.push(rnr_form);

    store.activity_log.push(
        ActivityLogRow {
            document_id: input.id.clone(),
            event_type: ActivityLogType::RnrFormCreated,
            datetime: now,
            user_id: user_id.clone(),
        },
    );
    proof {
        assert(store.activity_log@.subrange(0, store0.activity_log@.len() as int)
            =~= store0.activity_log@);
    }

    match rnr_form_index(&store.rnr_forms, &input.id) {
        Some(_) => Ok(materialized),
        None => {
            proof {
                assert(store.rnr_forms@[store.rnr_forms@.len() - 1].id@ == input.id@);
                assert(false);
            }
            Err(InsertRnRFormError::NewlyCreatedRnRFormDoesNotExist)
        },
    }
}

} // verus!
