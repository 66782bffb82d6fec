//! Pieces shared by the document workflows: the side-effect recomputation of
//! derived line totals (run when a transition crosses a quantity-affecting
//! threshold) and the input for filling a shipment from a master list.

use vstd::prelude::*;

use crate::model::InvoiceLineRow;
use crate::model::RepositoryError;
use crate::model::StockLineRow;
use crate::store::Store;
use crate::store::find_stock_line;
use crate::store::stock_line_ids_distinct;
use crate::store::stock_line_total;

verus! {

/// What a caller supplies to add a master list's items to a shipment.
#[derive(Clone, Debug, PartialEq)]
pub struct AddToShipmentFromMasterListInput {
    pub shipment_id: String,
    pub master_list_id: String,
}

/// Why recomputing derived totals failed.
#[derive(Clone, Debug, PartialEq)]
pub enum InvoiceLineHasNoStockLine {
    /// The named line has no resolvable stock line.
    InvoiceLineHasNoStockLine(String),
    DatabaseError(RepositoryError),
}

/// The persisted quantity behind a line: the total packs of the stock line
/// it references, or nothing if the reference is missing or dangling.
pub open spec fn line_total(stock: Seq<StockLineRow>, l: InvoiceLineRow) -> Option<u64> {
    match l.stock_line_id {
        None => None,
        Some(sid) => match find_stock_line(stock, sid@) {
            None => None,
            Some(u) => Some(u.total_number_of_packs),
        },
    }
}

/// The line with its derived total replaced.
pub open spec fn with_total(l: InvoiceLineRow, t: u64) -> InvoiceLineRow {
    InvoiceLineRow { total_packs: t, ..l }
}

/// Recomputes the derived total of every line of one document, in table
/// order: `Ok` carries the updated copies of exactly the document's lines;
/// `Err` carries the id of the first line with no resolvable stock line.
pub open spec fn recomputed_lines(
    lines: Seq<InvoiceLineRow>,
    stock: Seq<StockLineRow>,
    invoice_id: Seq<char>,
) -> Result<Seq<InvoiceLineRow>, Seq<char>>
    decreases lines.len(),
{
    if lines.len() == 0 {
        Ok(Seq::empty())
    } else {
        let l = lines.last();
        match recomputed_lines(lines.drop_last(), stock, invoice_id) {
            Err(e) => Err(e),
            Ok(pre) => {
                if l.invoice_id@ == invoice_id {
                    match line_total(stock, l) {
                        None => Err(l.id@),
                        Some(t) => Ok(pre.push(with_total(l, t))),
                    }
                } else {
                    Ok(pre)
                }
            },
        }
    }
}

/// How one line looks after the document's totals were recomputed: lines of
/// other documents are untouched.
pub open spec fn applied_line(
    l: InvoiceLineRow,
    stock: Seq<StockLineRow>,
    invoice_id: Seq<char>,
) -> InvoiceLineRow {
    if l.invoice_id@ == invoice_id {
        match line_total(stock, l) {
            Some(t) => with_total(l, t),
            None => l,
        }
    } else {
        l
    }
}

/// The whole line table after the document's totals were recomputed.
pub open spec fn applied_lines(
    lines: Seq<InvoiceLineRow>,
    stock: Seq<StockLineRow>,
    invoice_id: Seq<char>,
) -> Seq<InvoiceLineRow> {
    Seq::new(lines.len(), |i: int| applied_line(lines[i], stock, invoice_id))
}

/// Once recomputation has failed on a prefix, every longer prefix fails the
/// same way.
pub proof fn lemma_recomputed_err_mono(
    lines: Seq<InvoiceLineRow>,
    stock: Seq<StockLineRow>,
    invoice_id: Seq<char>,
    k: int,
    j: int,
)
    requires
        0 <= k <= j <= lines.len(),
        recomputed_lines(lines.subrange(0, k), stock, invoice_id) is Err,
    ensures
        recomputed_lines(lines.subrange(0, j), stock, invoice_id) == recomputed_lines(
            lines.subrange(0, k),
            stock,
            invoice_id,
        ),
    decreases j - k,
{
    if j > k {
        lemma_recomputed_err_mono(lines, stock, invoice_id, k, j - 1);
        assert(lines.subrange(0, j).drop_last() =~= lines.subrange(0, j - 1));
        assert(lines.subrange(0, j).len() > 0);
    }
}

/// When recomputation succeeds, every line of the document resolves to a
/// stock line.
pub proof fn lemma_recomputed_ok_all(
    lines: Seq<InvoiceLineRow>,
    stock: Seq<StockLineRow>,
    invoice_id: Seq<char>,
)
    requires
        recomputed_lines(lines, stock, invoice_id) is Ok,
    ensures
        forall|i: int|
            0 <= i < lines.len() && lines[i].invoice_id@ == invoice_id ==> line_total(
                stock,
                #[trigger] lines[i],
            ) is Some,
    decreases lines.len(),
{
    if lines.len() > 0 {
        assert(recomputed_lines(lines.drop_last(), stock, invoice_id) is Ok);
        lemma_recomputed_ok_all(lines.drop_last(), stock, invoice_id);
        assert forall|i: int|
            0 <= i < lines.len() && lines[i].invoice_id@ == invoice_id implies line_total(
            stock,
            #[trigger] lines[i],
        ) is Some by {
            if i < lines.len() - 1 {
                assert(lines.drop_last()[i] == lines[i]);
            } else {
                assert(lines[i] == lines.last());
            }
        }
    }
}

/// Recomputes the derived total of every line of the document from the stock
/// lines it references, as side-effect records to persist with a status
/// change. Fails on the first line with no resolvable stock line, naming it.
pub fn generate_batches_total_number_of_packs_update(
    invoice_id: &String,
    store: &Store,
) -> (r: Result<Vec<InvoiceLineRow>, InvoiceLineHasNoStockLine>)
    requires
        stock_line_ids_distinct(store.stock_lines@),
    ensures
        match recomputed_lines(store.invoice_lines@, store.stock_lines@, invoice_id@) {
            Ok(ls) => r matches Ok(v) && v@ == ls,
            Err(lid) => r matches Err(InvoiceLineHasNoStockLine::InvoiceLineHasNoStockLine(s))
                && s@ == lid,
        },
{
    let mut out: Vec<InvoiceLineRow> = Vec::new();
    let n: usize = store.invoice_lines.len();
    let mut k: usize = 0;
    while k < n
        invariant
            n == store.invoice_lines@.len(),
            k <= n,
            stock_line_ids_distinct(store.stock_lines@),
            recomputed_lines(
                store.invoice_lines@.subrange(0, k as int),
                store.stock_lines@,
                invoice_id@,
            ) == Ok::<Seq<InvoiceLineRow>, Seq<char>>(out@),
        decreases n - k,
    {
        let line = &store.invoice_lines[k];
        proof {
            assert(store.invoice_lines@.subrange(0, k as int + 1).drop_last()
                =~= store.invoice_lines@.subrange(0, k as int));
            assert(store.invoice_lines@.subrange(0, k as int + 1).last()
                == store.invoice_lines@[k as int]);
        }
        if line.invoice_id == *invoice_id {
            let total: Option<u64> = match &line.stock_line_id {
                Some(sid) => stock_line_total(&store.stock_lines, sid),
                None => None,
            };
            match total {
                Some(t) => {
                    let mut updated = line.clone_row();
                    updated.total_packs = t;
                    out.push(updated);
                },
                None => {
                    proof {
                        lemma_recomputed_err_mono(
                            store.invoice_lines@,
                            store.stock_lines@,
                            invoice_id@,
                            k as int + 1,
                            store.invoice_lines@.len() as int,
                        );
                        assert(store.invoice_lines@.subrange(
                            0,
                            store.invoice_lines@.len() as int,
                        ) =~= store.invoice_lines@);
                    }
                    return Err(
                        InvoiceLineHasNoStockLine::InvoiceLineHasNoStockLine(line.id.clone()),
                    );
                },
            }
        }
        k = k + 1;
    }
    proof {
        assert(store.invoice_lines@.subrange(0, store.invoice_lines@.len() as int)
            =~= store.invoice_lines@);
    }
    Ok(out)
}

} // verus!
