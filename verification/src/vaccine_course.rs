//! Vaccine courses: row type and the existence checks used by course
//! mutations.

use vstd::prelude::*;

use crate::model::RepositoryError;
use crate::model::clone_opt_string;
use crate::program::ProgramRow;
use crate::program::find_program;
use crate::program::program_ids_distinct;
use crate::store::Store;

verus! {

/// A vaccine course offered under a program.
#[derive(Clone, Debug, PartialEq)]
pub struct VaccineCourseRow {
    pub id: String,
    pub name: String,
    pub program_id: String,
}

/// First vaccine course with this id, if any.
pub open spec fn find_vaccine_course(s: Seq<VaccineCourseRow>, id: Seq<char>) -> Option<
    VaccineCourseRow,
> {
    if exists|i: int| 0 <= i < s.len() && s[i].id@ == id {
        Some(s[choose|i: int| 0 <= i < s.len() && s[i].id@ == id])
    } else {
        None
    }
}

/// No two vaccine courses share an id.
pub open spec fn vaccine_course_ids_distinct(s: Seq<VaccineCourseRow>) -> bool {
    forall|i: int, j: int| 0 <= i < j < s.len() ==> s[i].id@ != s[j].id@
}

/// Looks a vaccine course up by id. Never fails: the error slot exists only
/// so the signature matches the storage-backed form.
pub fn check_vaccine_course_exists(id: &String, store: &Store) -> (r: Result<
    Option<VaccineCourseRow>,
    RepositoryError,
>)
    requires
        vaccine_course_ids_distinct(store.vaccine_courses@),
    ensures
        r == Ok::<Option<VaccineCourseRow>, RepositoryError>(
            find_vaccine_course(store.vaccine_courses@, id@),
        ),
{
    let n: usize = store.vaccine_courses.len();
    let mut k: usize = 0;
    while k < n
        invariant
            n == store.vaccine_courses@.len(),
            k <= n,
            vaccine_course_ids_distinct(store.vaccine_courses@),
            forall|j: int| 0 <= j < k ==> store.vaccine_courses@[j].id@ != id@,
        decreases n - k,
    {
        if store.vaccine_courses[k].id == *id {
            return Ok(Some(VaccineCourseRow {
                id: store.vaccine_courses[k].id.clone(),
                name: store.vaccine_courses[k].name.clone(),
                program_id: store.vaccine_courses[k].program_id.clone(),
            }));
        }
        k = k + 1;
    }
    Ok(None)
}

/// Looks a program up by id. Never fails; see [`check_vaccine_course_exists`].
pub fn check_program_exists(id: &String, store: &Store) -> (r: Result<
    Option<ProgramRow>,
    RepositoryError,
>)
    requires
        program_ids_distinct(store.programs@),
    ensures
        r == Ok::<Option<ProgramRow>, RepositoryError>(find_program(store.programs@, id@)),
{
    let n: usize = store.programs.len();
    let mut k: usize = 0;
    while k < n
        invariant
            n == store.programs@.len(),
            k <= n,
            program_ids_distinct(store.programs@),
            forall|j: int| 0 <= j < k ==> store.programs@[j].id@ != id@,
        decreases n - k,
    {
        if store.programs[k].id == *id {
            return Ok(Some(ProgramRow {
                id: store.programs[k].id.clone(),
                name: store.programs[k].name.clone(),
                master_list_id: clone_opt_string(&store.programs[k].master_list_id),
            }));
        }
        k = k + 1;
    }
    Ok(None)
}

} // verus!
