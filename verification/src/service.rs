//! The invoice service: the operations a transport layer calls, one per
//! workflow. Each takes the store and the caller's resolved identity, reads
//! the clock once, and runs the corresponding workflow; the contract holds
//! for whatever instant the clock handed back.

use vstd::prelude::*;

use crate::clock::current_datetime;
use crate::customer_return::InsertInboundReturn;
use crate::customer_return::InsertInboundReturnError;
use crate::customer_return::insert_inbound_return;
use crate::customer_return::insert_inbound_return_spec;
use crate::model::InvoiceRow;
use crate::model::ListError;
use crate::model::ListResult;
use crate::outbound_return::UpdateOutboundReturn;
use crate::outbound_return::UpdateOutboundReturnError;
use crate::outbound_return::update_outbound_return;
use crate::outbound_return::update_outbound_return_spec;
use crate::return_lines::OutboundReturnLine;
use crate::return_lines::candidate_return_lines;
use crate::return_lines::generate_outbound_return_lines;
use crate::store::Store;

verus! {

/// The invoice workflows as one service.
pub struct InvoiceService;

impl InvoiceService {
    /// Updates an outbound return at the current instant; see
    /// [`update_outbound_return`].
    pub fn update_outbound_return(
        &self,
        store: &mut Store,
        store_id: &String,
        user_id: &String,
        input: UpdateOutboundReturn,
    ) -> (r: Result<InvoiceRow, UpdateOutboundReturnError>)
        requires
            old(store).wf(),
        ensures
            final (store).wf(),
            exists|now: i64|
                update_outbound_return_spec(
                    *old(store),
                    *final (store),
                    store_id@,
                    user_id@,
                    input,
                    now,
                    r,
                ),
    {
        let now: i64 = current_datetime();
        update_outbound_return(store, store_id, user_id, input, now)
    }

    /// Creates a customer return at the current instant; see
    /// [`insert_inbound_return`].
    pub fn insert_inbound_return(
        &self,
        store: &mut Store,
        store_id: &String,
        user_id: &String,
        input: InsertInboundReturn,
    ) -> (r: Result<InvoiceRow, InsertInboundReturnError>)
        requires
            old(store).wf(),
        ensures
            final (store).wf(),
            exists|now: i64|
                insert_inbound_return_spec(
                    *old(store),
                    *final (store),
                    *store_id,
                    *user_id,
                    input,
                    now,
                    r,
                ),
    {
        let now: i64 = current_datetime();
        insert_inbound_return(store, store_id, user_id, input, now)
    }

    /// Builds the candidate lines for a new outbound return; see
    /// [`generate_outbound_return_lines`].
    pub fn generate_outbound_return_lines(
        &self,
        store: &Store,
        store_id: &String,
        stock_line_ids: Vec<String>,
        item_id: Option<String>,
        return_id: Option<String>,
    ) -> (r: Result<ListResult<OutboundReturnLine>, ListError>)
        requires
            store.stock_lines@.len() < 0x1_0000_0000,
        ensures
            if stock_line_ids@.len() == 0 && item_id is None && return_id is None {
                r matches Ok(lr) && lr.count == 0 && lr.rows@.len() == 0
            } else {
                r matches Ok(lr) && lr.rows@ == candidate_return_lines(
                    store.stock_lines@,
                    store_id@,
                    stock_line_ids@,
                    item_id,
                ) && lr.count as int == lr.rows@.len()
            },
    {
        generate_outbound_return_lines(store, store_id, stock_line_ids, item_id, return_id)
    }
}

} // verus!
