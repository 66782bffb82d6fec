//! Building the candidate lines for a new outbound return: one zero-quantity
//! line per available stock line that matches the caller's filters.

use vstd::prelude::*;

use crate::model::ListError;
use crate::model::ListResult;
use crate::model::StockLineRow;
use crate::store::Store;
use crate::store::id_in_list;

verus! {

/// A candidate line of a return under construction: not yet persisted, keyed
/// by the stock line it would return.
#[derive(Clone, Debug, PartialEq)]
pub struct OutboundReturnLine {
    pub id: String,
    pub reason_id: Option<String>,
    pub comment: Option<String>,
    pub number_of_packs: u32,
    pub stock_line: StockLineRow,
}

/// Whether a stock line passes the caller's filters: it belongs to the
/// store, has packs available, matches the id list when one was given, and
/// matches the item filter when one was given.
pub open spec fn stock_line_matches(
    u: StockLineRow,
    store_id: Seq<char>,
    stock_line_ids: Seq<String>,
    item_id: Option<String>,
) -> bool {
    &&& u.store_id@ == store_id
    &&& u.available_number_of_packs > 0
    &&& (stock_line_ids.len() == 0 || id_in_list(stock_line_ids, u.id@))
    &&& (item_id matches Some(it) ==> u.item_id@ == it@)
}

/// The fresh candidate line for one stock line: zero packs, no reason, no
/// comment, keyed by the stock line's own id.
pub open spec fn return_line_of(u: StockLineRow) -> OutboundReturnLine {
    OutboundReturnLine {
        id: u.id,
        reason_id: None,
        comment: None,
        number_of_packs: 0,
        stock_line: u,
    }
}

/// The candidate lines for every matching stock line, in table order.
pub open spec fn candidate_return_lines(
    stock: Seq<StockLineRow>,
    store_id: Seq<char>,
    stock_line_ids: Seq<String>,
    item_id: Option<String>,
) -> Seq<OutboundReturnLine>
    decreases stock.len(),
{
    if stock.len() == 0 {
        Seq::empty()
    } else {
        let pre = candidate_return_lines(stock.drop_last(), store_id, stock_line_ids, item_id);
        if stock_line_matches(stock.last(), store_id, stock_line_ids, item_id) {
            pre.push(return_line_of(stock.last()))
        } else {
            pre
        }
    }
}

/// Whether one of the ids matches.
fn list_has_id(ids: &Vec<String>, id: &String) -> (r: bool)
    ensures
        r == id_in_list(ids@, id@),
{
    let m: usize = ids.len();
    let mut t: usize = 0;
    while t < m
        invariant
            m == ids@.len(),
            t <= m,
            forall|j: int| 0 <= j < t ==> ids@[j]@ != id@,
        decreases m - t,
    {
        if ids[t] == *id {
            return true;
        }
        t = t + 1;
    }
    false
}

/// Builds the candidate lines for a new outbound return: one zero-quantity
/// line per available stock line of the store that matches the filters.
/// With nothing to go on - no stock line ids, no item, no return - the
/// result is empty. Never fails: the error slot keeps the storage-backed
/// signature.
pub fn generate_outbound_return_lines(
    store: &Store,
    store_id: &String,
    stock_line_ids: Vec<String>,
    item_id: Option<String>,
    return_id: Option<String>,
) -> (r: Result<ListResult<OutboundReturnLine>, ListError>)
    requires
        store.stock_lines@.len() < 0x1_0000_0000,
    ensures
        if stock_line_ids@.len() == 0 && item_id is None && return_id is None {
            r matches Ok(lr) && lr.count == 0 && lr.rows@.len() == 0
        } else {
            r matches Ok(lr) && lr.rows@ == candidate_return_lines(
                store.stock_lines@,
                store_id@,
                stock_line_ids@,
                item_id,
            ) && lr.count as int == lr.rows@.len()
        },
{
    if stock_line_ids.len() == 0 && item_id.is_none() && return_id.is_none() {
        return Ok(ListResult { count: 0, rows: Vec::new() });
    }

    let mut rows: Vec<OutboundReturnLine> = Vec::new();
    let mut count: u32 = 0;
    let n: usize = store.stock_lines.len();
    let mut k: usize = 0;
    while k < n
        invariant
            n == store.stock_lines@.len(),
            n < 0x1_0000_0000,
            k <= n,
            count as int == rows@.len(),
            rows@.len() <= k,
            rows@ == candidate_return_lines(
                store.stock_lines@.subrange(0, k as int),
                store_id@,
                stock_line_ids@,
                item_id,
            ),
        decreases n - k,
    {
        let u = &store.stock_lines[k];
        proof {
            assert(store.stock_lines@.subrange(0, k as int + 1).drop_last()
                =~= store.stock_lines@.subrange(0, k as int));
            assert(store.stock_lines@.subrange(0, k as int + 1).last()
                == store.stock_lines@[k as int]);
        }
        let in_list: bool = stock_line_ids.len() == 0 || list_has_id(&stock_line_ids, &u.id);
        let item_ok: bool = match &item_id {
            Some(it) => u.item_id == *it,
            None => true,
        };
        if u.store_id == *store_id && u.available_number_of_packs > 0 && in_list && item_ok {
            rows.push(
                OutboundReturnLine {
                    id: u.id.clone(),
                    reason_id: None,
                    comment: None,
                    number_of_packs: 0,
                    stock_line: u.clone_row(),
                },
            );
            count = count + 1;
        }
        k = k + 1;
    }
    proof {
        assert(store.stock_lines@.subrange(0, store.stock_lines@.len() as int)
            =~= store.stock_lines@);
    }
    Ok(ListResult { count, rows })
}

} // verus!
