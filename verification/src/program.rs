//! Programs, their reporting periods and the schedules that tie the two
//! together, plus master-list visibility per store.

use vstd::prelude::*;

verus! {

/// A program (a set of items managed together, backed by a master list).
#[derive(Clone, Debug, PartialEq)]
pub struct ProgramRow {
    pub id: String,
    pub name: String,
    pub master_list_id: Option<String>,
}

/// A reporting period belonging to one period schedule.
#[derive(Clone, Debug, PartialEq)]
pub struct PeriodRow {
    pub id: String,
    pub period_schedule_id: String,
}

/// Links a program to a period schedule it may report on.
#[derive(Clone, Debug, PartialEq)]
pub struct ProgramRequisitionSettingsRow {
    pub id: String,
    pub program_id: String,
    pub period_schedule_id: String,
}

/// Makes a master list visible to a store.
#[derive(Clone, Debug, PartialEq)]
pub struct MasterListJoinRow {
    pub id: String,
    pub master_list_id: String,
    pub store_id: String,
}

/// First program with this id, if any.
pub open spec fn find_program(s: Seq<ProgramRow>, id: Seq<char>) -> Option<ProgramRow> {
    if exists|i: int| 0 <= i < s.len() && s[i].id@ == id {
        Some(s[choose|i: int| 0 <= i < s.len() && s[i].id@ == id])
    } else {
        None
    }
}

/// First period with this id, if any.
pub open spec fn find_period(s: Seq<PeriodRow>, id: Seq<char>) -> Option<PeriodRow> {
    if exists|i: int| 0 <= i < s.len() && s[i].id@ == id {
        Some(s[choose|i: int| 0 <= i < s.len() && s[i].id@ == id])
    } else {
        None
    }
}

/// No two programs share an id.
pub open spec fn program_ids_distinct(s: Seq<ProgramRow>) -> bool {
    forall|i: int, j: int| 0 <= i < j < s.len() ==> s[i].id@ != s[j].id@
}

/// No two periods share an id.
pub open spec fn period_ids_distinct(s: Seq<PeriodRow>) -> bool {
    forall|i: int, j: int| 0 <= i < j < s.len() ==> s[i].id@ != s[j].id@
}

/// The master list is visible to the store.
pub open spec fn master_list_visible(
    s: Seq<MasterListJoinRow>,
    master_list_id: Seq<char>,
    store_id: Seq<char>,
) -> bool {
    exists|i: int|
        0 <= i < s.len() && s[i].master_list_id@ == master_list_id && s[i].store_id@ == store_id
}

/// Some schedule of the program contains this period schedule.
pub open spec fn program_has_schedule(
    s: Seq<ProgramRequisitionSettingsRow>,
    program_id: Seq<char>,
    period_schedule_id: Seq<char>,
) -> bool {
    exists|i: int|
        0 <= i < s.len() && s[i].program_id@ == program_id && s[i].period_schedule_id@
            == period_schedule_id
}

} // verus!
