//! The relational store the workflow engine runs against, modelled as plain
//! row tables. A mutation owns the store for the whole
//! validate-generate-persist sequence, which is what makes it atomic: either
//! every row it produces is written, or the store is returned untouched.

use vstd::prelude::*;

use crate::asset::AssetLogRow;
use crate::asset::AssetRow;
use crate::asset::asset_ids_distinct;
use crate::asset::asset_log_ids_distinct;
use crate::catalogue::AssetCatalogueItemPropertyRow;
use crate::catalogue::AssetCatalogueItemRow;
use crate::model::ActivityLogRow;
use crate::model::InvoiceLineRow;
use crate::model::InvoiceRow;
use crate::model::NameRow;
use crate::model::NameStoreJoinRow;
use crate::model::ReturnReasonRow;
use crate::model::StockLineRow;
use crate::model::invoice_wf;
use crate::program::MasterListJoinRow;
use crate::program::PeriodRow;
use crate::program::ProgramRequisitionSettingsRow;
use crate::program::ProgramRow;
use crate::program::period_ids_distinct;
use crate::program::program_ids_distinct;
use crate::requisition::RequisitionLineRow;
use crate::requisition::RequisitionRow;
use crate::requisition::requisition_ids_distinct;
use crate::rnr_form::RnRFormLineRow;
use crate::rnr_form::RnRFormRow;
use crate::vaccine_course::VaccineCourseRow;
use crate::vaccine_course::vaccine_course_ids_distinct;

verus! {

/// Every table of the store.
#[derive(Clone, Debug, PartialEq)]
pub struct Store {
    pub invoices: Vec<InvoiceRow>,
    pub invoice_lines: Vec<InvoiceLineRow>,
    pub stock_lines: Vec<StockLineRow>,
    pub activity_log: Vec<ActivityLogRow>,
    pub names: Vec<NameRow>,
    pub name_store_joins: Vec<NameStoreJoinRow>,
    pub return_reasons: Vec<ReturnReasonRow>,
    pub assets: Vec<AssetRow>,
    pub asset_logs: Vec<AssetLogRow>,
    pub asset_catalogue_items: Vec<AssetCatalogueItemRow>,
    pub asset_catalogue_item_properties: Vec<AssetCatalogueItemPropertyRow>,
    pub vaccine_courses: Vec<VaccineCourseRow>,
    pub programs: Vec<ProgramRow>,
    pub periods: Vec<PeriodRow>,
    pub program_requisition_settings: Vec<ProgramRequisitionSettingsRow>,
    pub master_list_joins: Vec<MasterListJoinRow>,
    pub rnr_forms: Vec<RnRFormRow>,
    pub rnr_form_lines: Vec<RnRFormLineRow>,
    pub requisitions: Vec<RequisitionRow>,
    pub requisition_lines: Vec<RequisitionLineRow>,
}

/// No two invoices share an id.
pub open spec fn invoice_ids_distinct(s: Seq<InvoiceRow>) -> bool {
    forall|i: int, j: int| 0 <= i < j < s.len() ==> s[i].id@ != s[j].id@
}

/// No two invoice lines share an id.
pub open spec fn invoice_line_ids_distinct(s: Seq<InvoiceLineRow>) -> bool {
    forall|i: int, j: int| 0 <= i < j < s.len() ==> s[i].id@ != s[j].id@
}

/// No two stock lines share an id.
pub open spec fn stock_line_ids_distinct(s: Seq<StockLineRow>) -> bool {
    forall|i: int, j: int| 0 <= i < j < s.len() ==> s[i].id@ != s[j].id@
}

/// First invoice with this id, if any.
pub open spec fn find_invoice(s: Seq<InvoiceRow>, id: Seq<char>) -> Option<InvoiceRow> {
    if exists|i: int| 0 <= i < s.len() && s[i].id@ == id {
        Some(s[choose|i: int| 0 <= i < s.len() && s[i].id@ == id])
    } else {
        None
    }
}

/// First stock line with this id, if any.
pub open spec fn find_stock_line(s: Seq<StockLineRow>, id: Seq<char>) -> Option<StockLineRow> {
    if exists|i: int| 0 <= i < s.len() && s[i].id@ == id {
        Some(s[choose|i: int| 0 <= i < s.len() && s[i].id@ == id])
    } else {
        None
    }
}

/// One id of the list matches.
pub open spec fn id_in_list(ids: Seq<String>, id: Seq<char>) -> bool {
    exists|i: int| 0 <= i < ids.len() && ids[i]@ == id
}

/// An invoice line with this id exists.
pub open spec fn invoice_line_id_exists(s: Seq<InvoiceLineRow>, id: Seq<char>) -> bool {
    exists|i: int| 0 <= i < s.len() && s[i].id@ == id
}

impl Store {
    /// The store's integrity conditions: primary keys are unique and every
    /// document is well-formed.
    pub open spec fn wf(self) -> bool {
        &&& invoice_ids_distinct(self.invoices@)
        &&& invoice_line_ids_distinct(self.invoice_lines@)
        &&& stock_line_ids_distinct(self.stock_lines@)
        &&& asset_ids_distinct(self.assets@)
        &&& asset_log_ids_distinct(self.asset_logs@)
        &&& vaccine_course_ids_distinct(self.vaccine_courses@)
        &&& program_ids_distinct(self.programs@)
        &&& period_ids_distinct(self.periods@)
        &&& requisition_ids_distinct(self.requisitions@)
        &&& forall|i: int| 0 <= i < self.invoices@.len() ==> invoice_wf(#[trigger] self.invoices@[i])
    }

    /// An empty store.
    pub fn new() -> (r: Store)
        ensures
            r.wf(),
            r.invoices@.len() == 0,
            r.invoice_lines@.len() == 0,
            r.stock_lines@.len() == 0,
            r.activity_log@.len() == 0,
    {
        Store {
            invoices: Vec::new(),
            invoice_lines: Vec::new(),
            stock_lines: Vec::new(),
            activity_log: Vec::new(),
            names: Vec::new(),
            name_store_joins: Vec::new(),
            return_reasons: Vec::new(),
            assets: Vec::new(),
            asset_logs: Vec::new(),
            asset_catalogue_items: Vec::new(),
            asset_catalogue_item_properties: Vec::new(),
            vaccine_courses: Vec::new(),
            programs: Vec::new(),
            periods: Vec::new(),
            program_requisition_settings: Vec::new(),
            master_list_joins: Vec::new(),
            rnr_forms: Vec::new(),
            rnr_form_lines: Vec::new(),
            requisitions: Vec::new(),
            requisition_lines: Vec::new(),
        }
    }
}

/// Index of the invoice with this id.
pub fn invoice_index(invoices: &Vec<InvoiceRow>, id: &String) -> (r: Option<usize>)
    requires
        invoice_ids_distinct(invoices@),
    ensures
        match r {
            Some(i) => i < invoices@.len() && invoices@[i as int].id@ == id@ && find_invoice(
                invoices@,
                id@,
            ) == Some(invoices@[i as int]),
            None => find_invoice(invoices@, id@) is None,
        },
{
    let n: usize = invoices.len();
    let mut k: usize = 0;
    while k < n
        invariant
            n == invoices@.len(),
            k <= n,
            invoice_ids_distinct(invoices@),
            forall|j: int| 0 <= j < k ==> invoices@[j].id@ != id@,
        decreases n - k,
    {
        if invoices[k].id == *id {
            return Some(k);
        }
        k = k + 1;
    }
    None
}

/// The persisted quantity of the stock line with this id.
pub fn stock_line_total(stock_lines: &Vec<StockLineRow>, id: &String) -> (r: Option<u64>)
    requires
        stock_line_ids_distinct(stock_lines@),
    ensures
        r == match find_stock_line(stock_lines@, id@) {
            Some(u) => Some(u.total_number_of_packs),
            None => None::<u64>,
        },
{
    let n: usize = stock_lines.len();
    let mut k: usize = 0;
    while k < n
        invariant
            n == stock_lines@.len(),
            k <= n,
            stock_line_ids_distinct(stock_lines@),
            forall|j: int| 0 <= j < k ==> stock_lines@[j].id@ != id@,
        decreases n - k,
    {
        if stock_lines[k].id == *id {
            return Some(stock_lines[k].total_number_of_packs);
        }
        k = k + 1;
    }
    None
}

/// Whether an invoice line with this id exists.
pub fn invoice_line_exists(lines: &Vec<InvoiceLineRow>, id: &String) -> (r: bool)
    ensures
        r == invoice_line_id_exists(lines@, id@),
{
    let n: usize = lines.len();
    let mut k: usize = 0;
    while k < n
        invariant
            n == lines@.len(),
            k <= n,
            forall|j: int| 0 <= j < k ==> lines@[j].id@ != id@,
        decreases n - k,
    {
        if lines[k].id == *id {
            return true;
        }
        k = k + 1;
    }
    false
}

} // verus!
