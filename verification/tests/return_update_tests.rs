//! The outbound-return update workflow on concrete stores: forward
//! transitions with their timestamps and recomputed totals, no-op requests,
//! holds, terminal statuses, and atomicity on every error.

use invoice_workflow::lattice::{InvoiceStatus, InvoiceType};
use invoice_workflow::model::{ActivityLogType, InvoiceLineRow, InvoiceLineType, InvoiceRow, StockLineRow};
use invoice_workflow::outbound_return::{
    changed_status, generate, should_update_stock_lines_total_number_of_packs,
    update_outbound_return, UpdateOutboundReturn, UpdateOutboundReturnError,
    UpdateOutboundReturnStatus,
};
use invoice_workflow::service::InvoiceService;
use invoice_workflow::store::Store;

fn s(text: &str) -> String {
    text.to_string()
}

fn outbound_return(id: &str, store_id: &str, status: InvoiceStatus, on_hold: bool) -> InvoiceRow {
    InvoiceRow {
        id: s(id),
        store_id: s(store_id),
        name_id: s("customer_a"),
        user_id: None,
        kind: InvoiceType::OutboundReturn,
        status,
        on_hold,
        comment: None,
        their_reference: None,
        transport_reference: None,
        colour: None,
        original_shipment_id: None,
        created_datetime: 100,
        allocated_datetime: None,
        picked_datetime: if status.index() >= 2 { Some(200) } else { None },
        shipped_datetime: if status.index() >= 3 { Some(300) } else { None },
        delivered_datetime: None,
        verified_datetime: None,
    }
}

fn return_line(id: &str, invoice_id: &str, stock_line_id: Option<&str>, packs: u64) -> InvoiceLineRow {
    InvoiceLineRow {
        id: s(id),
        invoice_id: s(invoice_id),
        item_id: s("item_a"),
        line_type: InvoiceLineType::StockOut,
        stock_line_id: stock_line_id.map(s),
        number_of_packs: packs,
        pack_size: 1,
        total_packs: 0,
        reason_id: None,
    }
}

fn stock_line(id: &str, store_id: &str, total: u64, available: u64) -> StockLineRow {
    StockLineRow {
        id: s(id),
        item_id: s("item_a"),
        store_id: s(store_id),
        total_number_of_packs: total,
        available_number_of_packs: available,
    }
}

/// A store holding document `d1` in `New` with two lines of quantities 1 and
/// 0, each backed by a stock line.
fn store_with_d1() -> Store {
    let mut store = Store::new();
    store.invoices.push(outbound_return("d1", "store_a", InvoiceStatus::New, false));
    store.stock_lines.push(stock_line("sl1", "store_a", 30, 5));
    store.stock_lines.push(stock_line("sl2", "store_a", 7, 2));
    store.invoice_lines.push(return_line("l1", "d1", Some("sl1"), 1));
    store.invoice_lines.push(return_line("l2", "d1", Some("sl2"), 0));
    store
}

fn patch(id: &str, status: Option<UpdateOutboundReturnStatus>) -> UpdateOutboundReturn {
    UpdateOutboundReturn { outbound_return_id: s(id), status, ..Default::default() }
}

#[test]
fn jump_to_shipped_stamps_both_timestamps_and_recomputes() {
    let mut store = store_with_d1();
    let result = update_outbound_return(
        &mut store,
        &s("store_a"),
        &s("user_1"),
        patch("d1", Some(UpdateOutboundReturnStatus::Shipped)),
        5_000,
    )
    .unwrap();

    // Both timestamps get the same instant; the skipped step is back-filled.
    assert_eq!(result.status, InvoiceStatus::Shipped);
    assert_eq!(result.picked_datetime, Some(5_000));
    assert_eq!(result.shipped_datetime, Some(5_000));
    assert_eq!(result.allocated_datetime, None);
    assert_eq!(result.delivered_datetime, None);
    assert_eq!(result.verified_datetime, None);

    // The materialized document is what was stored.
    assert_eq!(store.invoices[0], result);

    // Both lines got their derived total from the referenced stock line,
    // the zero-quantity line included.
    assert_eq!(store.invoice_lines[0].total_packs, 30);
    assert_eq!(store.invoice_lines[1].total_packs, 7);

    // One audit entry was appended for the status change.
    assert_eq!(store.activity_log.len(), 1);
    assert_eq!(store.activity_log[0].document_id, "d1");
    assert_eq!(
        store.activity_log[0].event_type,
        ActivityLogType::InvoiceStatusChanged(InvoiceStatus::Shipped)
    );
    assert_eq!(store.activity_log[0].datetime, 5_000);
    assert_eq!(store.activity_log[0].user_id, "user_1");
}

#[test]
fn single_step_to_picked_stamps_only_picked() {
    let mut store = store_with_d1();
    let result = update_outbound_return(
        &mut store,
        &s("store_a"),
        &s("user_1"),
        patch("d1", Some(UpdateOutboundReturnStatus::Picked)),
        4_000,
    )
    .unwrap();
    assert_eq!(result.status, InvoiceStatus::Picked);
    assert_eq!(result.picked_datetime, Some(4_000));
    assert_eq!(result.shipped_datetime, None);
    assert_eq!(store.invoice_lines[0].total_packs, 30);
}

#[test]
fn equal_status_request_changes_no_timestamps() {
    let mut store = store_with_d1();
    // Move to Picked first.
    update_outbound_return(
        &mut store,
        &s("store_a"),
        &s("user_1"),
        patch("d1", Some(UpdateOutboundReturnStatus::Picked)),
        4_000,
    )
    .unwrap();
    let lines_before = store.invoice_lines.clone();
    let log_len_before = store.activity_log.len();

    // Request the status it already has, much later.
    let result = update_outbound_return(
        &mut store,
        &s("store_a"),
        &s("user_1"),
        patch("d1", Some(UpdateOutboundReturnStatus::Picked)),
        9_000,
    )
    .unwrap();
    assert_eq!(result.status, InvoiceStatus::Picked);
    assert_eq!(result.picked_datetime, Some(4_000));
    assert_eq!(result.shipped_datetime, None);
    // No recomputation, no extra audit entry.
    assert_eq!(store.invoice_lines, lines_before);
    assert_eq!(store.activity_log.len(), log_len_before);
}

#[test]
fn patch_fields_replace_only_when_supplied() {
    let mut store = store_with_d1();
    store.invoices[0].comment = Some(s("old comment"));
    store.invoices[0].their_reference = Some(s("ref-1"));

    let input = UpdateOutboundReturn {
        outbound_return_id: s("d1"),
        comment: Some(s("new comment")),
        ..Default::default()
    };
    let result = update_outbound_return(&mut store, &s("store_a"), &s("user_1"), input, 4_000)
        .unwrap();
    // Supplied field replaced; omitted field kept, not cleared.
    assert_eq!(result.comment, Some(s("new comment")));
    assert_eq!(result.their_reference, Some(s("ref-1")));
    assert_eq!(result.status, InvoiceStatus::New);
    assert_eq!(result.picked_datetime, None);
}

#[test]
fn shipped_return_is_terminal() {
    let mut store = Store::new();
    store.invoices.push(outbound_return("d2", "store_a", InvoiceStatus::Shipped, false));
    let before = store.clone();

    let err = update_outbound_return(
        &mut store,
        &s("store_a"),
        &s("user_1"),
        UpdateOutboundReturn {
            outbound_return_id: s("d2"),
            comment: Some(s("too late")),
            status: Some(UpdateOutboundReturnStatus::Picked),
            ..Default::default()
        },
        4_000,
    )
    .unwrap_err();
    assert_eq!(err, UpdateOutboundReturnError::ReturnIsNotEditable);
    assert_eq!(store, before);
}

#[test]
fn hold_blocks_status_change() {
    let mut store = Store::new();
    store.invoices.push(outbound_return("d3", "store_a", InvoiceStatus::New, true));
    let before = store.clone();

    let err = update_outbound_return(
        &mut store,
        &s("store_a"),
        &s("user_1"),
        patch("d3", Some(UpdateOutboundReturnStatus::Picked)),
        4_000,
    )
    .unwrap_err();
    assert_eq!(err, UpdateOutboundReturnError::CannotChangeStatusOfInvoiceOnHold);
    assert_eq!(store, before);
}

#[test]
fn clearing_the_hold_in_the_same_call_allows_the_change() {
    let mut store = Store::new();
    store.invoices.push(outbound_return("d3", "store_a", InvoiceStatus::New, true));
    store.stock_lines.push(stock_line("sl1", "store_a", 30, 5));
    store.invoice_lines.push(return_line("l1", "d3", Some("sl1"), 1));

    let result = update_outbound_return(
        &mut store,
        &s("store_a"),
        &s("user_1"),
        UpdateOutboundReturn {
            outbound_return_id: s("d3"),
            status: Some(UpdateOutboundReturnStatus::Picked),
            on_hold: Some(false),
            ..Default::default()
        },
        4_000,
    )
    .unwrap();
    assert_eq!(result.status, InvoiceStatus::Picked);
    assert!(!result.on_hold);
    assert_eq!(result.picked_datetime, Some(4_000));
}

#[test]
fn keeping_the_hold_in_the_same_call_still_blocks() {
    let mut store = Store::new();
    store.invoices.push(outbound_return("d3", "store_a", InvoiceStatus::New, true));
    let before = store.clone();

    let err = update_outbound_return(
        &mut store,
        &s("store_a"),
        &s("user_1"),
        UpdateOutboundReturn {
            outbound_return_id: s("d3"),
            status: Some(UpdateOutboundReturnStatus::Picked),
            on_hold: Some(true),
            ..Default::default()
        },
        4_000,
    )
    .unwrap_err();
    assert_eq!(err, UpdateOutboundReturnError::CannotChangeStatusOfInvoiceOnHold);
    assert_eq!(store, before);
}

#[test]
fn missing_document_wrong_store_and_wrong_kind_are_rejected_in_order() {
    let mut store = Store::new();
    store.invoices.push(outbound_return("d1", "store_b", InvoiceStatus::New, false));
    let mut shipment = outbound_return("os1", "store_a", InvoiceStatus::New, false);
    shipment.kind = InvoiceType::OutboundShipment;
    store.invoices.push(shipment);
    let before = store.clone();

    let err = update_outbound_return(&mut store, &s("store_a"), &s("u"), patch("nope", None), 0)
        .unwrap_err();
    assert_eq!(err, UpdateOutboundReturnError::ReturnDoesNotExist);

    let err = update_outbound_return(&mut store, &s("store_a"), &s("u"), patch("d1", None), 0)
        .unwrap_err();
    assert_eq!(err, UpdateOutboundReturnError::ReturnDoesNotBelongToCurrentStore);

    let err = update_outbound_return(&mut store, &s("store_a"), &s("u"), patch("os1", None), 0)
        .unwrap_err();
    assert_eq!(err, UpdateOutboundReturnError::NotAnOutboundReturn);
    assert_eq!(store, before);
}

#[test]
fn unresolvable_line_fails_the_whole_unit() {
    let mut store = store_with_d1();
    // A third line of d1 with no stock line reference.
    store.invoice_lines.push(return_line("l3", "d1", None, 2));
    let before = store.clone();

    let err = update_outbound_return(
        &mut store,
        &s("store_a"),
        &s("user_1"),
        patch("d1", Some(UpdateOutboundReturnStatus::Shipped)),
        5_000,
    )
    .unwrap_err();
    assert_eq!(err, UpdateOutboundReturnError::InvoiceLineHasNoStockLine(s("l3")));
    // Nothing was persisted: no document change, no line change, no audit entry.
    assert_eq!(store, before);
}

#[test]
fn dangling_stock_reference_names_the_first_bad_line() {
    let mut store = store_with_d1();
    store.invoice_lines[0].stock_line_id = Some(s("gone"));
    let before = store.clone();

    let err = update_outbound_return(
        &mut store,
        &s("store_a"),
        &s("user_1"),
        patch("d1", Some(UpdateOutboundReturnStatus::Picked)),
        5_000,
    )
    .unwrap_err();
    assert_eq!(err, UpdateOutboundReturnError::InvoiceLineHasNoStockLine(s("l1")));
    assert_eq!(store, before);
}

#[test]
fn picked_to_shipped_does_not_recompute() {
    let mut store = store_with_d1();
    store.invoices[0].status = InvoiceStatus::Picked;
    store.invoices[0].picked_datetime = Some(200);

    let result = update_outbound_return(
        &mut store,
        &s("store_a"),
        &s("user_1"),
        patch("d1", Some(UpdateOutboundReturnStatus::Shipped)),
        6_000,
    )
    .unwrap();
    assert_eq!(result.status, InvoiceStatus::Shipped);
    assert_eq!(result.picked_datetime, Some(200));
    assert_eq!(result.shipped_datetime, Some(6_000));
    // The transition out of Picked is not quantity-affecting.
    assert_eq!(store.invoice_lines[0].total_packs, 0);
}

#[test]
fn generate_is_pure_and_reports_the_recompute() {
    let store = store_with_d1();
    let existing = store.invoices[0].clone();
    let result = generate(
        &store,
        patch("d1", Some(UpdateOutboundReturnStatus::Shipped)),
        existing,
        5_000,
    )
    .unwrap();
    assert_eq!(result.updated_return.picked_datetime, Some(5_000));
    assert_eq!(result.updated_return.shipped_datetime, Some(5_000));
    let lines = result.lines_to_update.unwrap();
    assert_eq!(lines.len(), 2);
    assert_eq!(lines[0].id, "l1");
    assert_eq!(lines[0].total_packs, 30);
    assert_eq!(lines[1].id, "l2");
    assert_eq!(lines[1].total_packs, 7);
}

#[test]
fn changed_status_treats_equal_as_no_change() {
    assert_eq!(
        changed_status(&Some(UpdateOutboundReturnStatus::Picked), &InvoiceStatus::Picked),
        None
    );
    assert_eq!(
        changed_status(&Some(UpdateOutboundReturnStatus::Shipped), &InvoiceStatus::Picked),
        Some(UpdateOutboundReturnStatus::Shipped)
    );
    assert_eq!(changed_status(&None, &InvoiceStatus::New), None);
}

#[test]
fn only_leaving_new_recomputes_totals() {
    assert!(should_update_stock_lines_total_number_of_packs(
        &InvoiceStatus::New,
        &Some(UpdateOutboundReturnStatus::Picked)
    ));
    assert!(should_update_stock_lines_total_number_of_packs(
        &InvoiceStatus::New,
        &Some(UpdateOutboundReturnStatus::Shipped)
    ));
    assert!(!should_update_stock_lines_total_number_of_packs(
        &InvoiceStatus::Picked,
        &Some(UpdateOutboundReturnStatus::Shipped)
    ));
    assert!(!should_update_stock_lines_total_number_of_packs(
        &InvoiceStatus::Picked,
        &Some(UpdateOutboundReturnStatus::Picked)
    ));
}

#[test]
fn service_reads_the_clock_for_the_stamp() {
    let mut store = store_with_d1();
    let service = InvoiceService;
    let result = service
        .update_outbound_return(
            &mut store,
            &s("store_a"),
            &s("user_1"),
            patch("d1", Some(UpdateOutboundReturnStatus::Shipped)),
        )
        .unwrap();
    // The clock hands back a real instant: both stamps carry it.
    let t = result.picked_datetime.unwrap();
    assert!(t >= 0);
    assert_eq!(result.shipped_datetime, Some(t));
    assert_eq!(store.activity_log[0].datetime, t);
}
