//! Creating customer returns and candidate return lines on concrete stores:
//! the full error sequence, the persisted rows, and the zero-quantity rule.

use invoice_workflow::customer_return::{
    insert_inbound_return, InboundReturnLineInput, InsertInboundReturn, InsertInboundReturnError,
};
use invoice_workflow::invoice_line::{InsertStockInLineError, UpdateLineReturnReasonError};
use invoice_workflow::lattice::{InvoiceStatus, InvoiceType};
use invoice_workflow::model::{
    InvoiceLineRow, InvoiceLineType, InvoiceRow, NameRow, NameStoreJoinRow, ReturnReasonRow,
    StockLineRow,
};
use invoice_workflow::service::InvoiceService;
use invoice_workflow::store::Store;

fn s(text: &str) -> String {
    text.to_string()
}

fn invoice(id: &str, store_id: &str, kind: InvoiceType, status: InvoiceStatus) -> InvoiceRow {
    InvoiceRow {
        id: s(id),
        store_id: s(store_id),
        name_id: s("customer_a"),
        user_id: None,
        kind,
        status,
        on_hold: false,
        comment: None,
        their_reference: None,
        transport_reference: None,
        colour: None,
        original_shipment_id: None,
        created_datetime: 100,
        allocated_datetime: None,
        picked_datetime: None,
        shipped_datetime: None,
        delivered_datetime: None,
        verified_datetime: None,
    }
}

fn customer(store: &mut Store, name_id: &str, join_id: &str, is_customer: bool) {
    store.names.push(NameRow { id: s(name_id) });
    store.name_store_joins.push(NameStoreJoinRow {
        id: s(join_id),
        name_id: s(name_id),
        store_id: s("store_a"),
        name_is_customer: is_customer,
        name_is_supplier: !is_customer,
    });
}

fn line_input(id: &str, item_id: &str, packs: u64, reason_id: Option<&str>) -> InboundReturnLineInput {
    InboundReturnLineInput {
        id: s(id),
        item_id: s(item_id),
        pack_size: 1,
        number_of_packs: packs,
        reason_id: reason_id.map(s),
        note: None,
    }
}

/// The store the error scenarios run against.
fn error_store() -> Store {
    let mut store = Store::new();
    // A customer the store can see, a name it cannot, and a non-customer.
    customer(&mut store, "customer_a", "customer_a_join", true);
    store.names.push(NameRow { id: s("not_visible") });
    customer(&mut store, "not_a_customer", "not_a_customer_join", false);
    // An existing customer return whose id and line id are taken.
    store.invoices.push(invoice(
        "inbound_return_a",
        "store_a",
        InvoiceType::CustomerReturn,
        InvoiceStatus::New,
    ));
    store.invoice_lines.push(InvoiceLineRow {
        id: s("inbound_return_a_line_a"),
        invoice_id: s("inbound_return_a"),
        item_id: s("item_a"),
        line_type: InvoiceLineType::StockIn,
        stock_line_id: None,
        number_of_packs: 1,
        pack_size: 1,
        total_packs: 0,
        reason_id: None,
    });
    // Shipments in various states: another store's, a return, an unshipped one.
    store.invoices.push(invoice(
        "outbound_shipment_a",
        "store_b",
        InvoiceType::OutboundShipment,
        InvoiceStatus::Picked,
    ));
    store.invoices.push(invoice(
        "outbound_return_a",
        "store_a",
        InvoiceType::OutboundReturn,
        InvoiceStatus::New,
    ));
    store.invoices.push(invoice(
        "outbound_shipment_e",
        "store_a",
        InvoiceType::OutboundShipment,
        InvoiceStatus::New,
    ));
    store
}

fn base_input(id: &str) -> InsertInboundReturn {
    InsertInboundReturn {
        id: s(id),
        other_party_id: s("customer_a"),
        outbound_shipment_id: None,
        inbound_return_lines: vec![],
    }
}

#[test]
fn test_insert_inbound_return_errors() {
    let mut store = error_store();
    let store_id = s("store_a");
    let user_id = s("user_account_a");
    let before = store.clone();

    // InvoiceAlreadyExists
    assert_eq!(
        insert_inbound_return(&mut store, &store_id, &user_id, base_input("inbound_return_a"), 0),
        Err(InsertInboundReturnError::InvoiceAlreadyExists)
    );

    // OutboundShipmentDoesNotExist
    let mut input = base_input("new_id");
    input.outbound_shipment_id = Some(s("does_not_exist"));
    assert_eq!(
        insert_inbound_return(&mut store, &store_id, &user_id, input, 0),
        Err(InsertInboundReturnError::OutboundShipmentDoesNotExist)
    );

    // OutboundShipmentDoesNotBelongToCurrentStore
    let mut input = base_input("new_id");
    input.outbound_shipment_id = Some(s("outbound_shipment_a"));
    assert_eq!(
        insert_inbound_return(&mut store, &store_id, &user_id, input, 0),
        Err(InsertInboundReturnError::OutboundShipmentDoesNotBelongToCurrentStore)
    );

    // OriginalInvoiceNotAnOutboundShipment
    let mut input = base_input("new_id");
    input.outbound_shipment_id = Some(s("outbound_return_a"));
    assert_eq!(
        insert_inbound_return(&mut store, &store_id, &user_id, input, 0),
        Err(InsertInboundReturnError::OriginalInvoiceNotAnOutboundShipment)
    );

    // CannotReturnOutboundShipment (still in New status)
    let mut input = base_input("new_id");
    input.outbound_shipment_id = Some(s("outbound_shipment_e"));
    assert_eq!(
        insert_inbound_return(&mut store, &store_id, &user_id, input, 0),
        Err(InsertInboundReturnError::CannotReturnOutboundShipment)
    );

    // OtherPartyDoesNotExist
    let mut input = base_input("new_id");
    input.other_party_id = s("does_not_exist");
    assert_eq!(
        insert_inbound_return(&mut store, &store_id, &user_id, input, 0),
        Err(InsertInboundReturnError::OtherPartyDoesNotExist)
    );

    // OtherPartyNotVisible
    let mut input = base_input("new_id");
    input.other_party_id = s("not_visible");
    assert_eq!(
        insert_inbound_return(&mut store, &store_id, &user_id, input, 0),
        Err(InsertInboundReturnError::OtherPartyNotVisible)
    );

    // OtherPartyNotACustomer
    let mut input = base_input("new_id");
    input.other_party_id = s("not_a_customer");
    assert_eq!(
        insert_inbound_return(&mut store, &store_id, &user_id, input, 0),
        Err(InsertInboundReturnError::OtherPartyNotACustomer)
    );

    // LineInsertError: the line id is already taken.
    let mut input = base_input("new_id");
    input.inbound_return_lines = vec![line_input("inbound_return_a_line_a", "item_a", 1, None)];
    assert_eq!(
        insert_inbound_return(&mut store, &store_id, &user_id, input, 0),
        Err(InsertInboundReturnError::LineInsertError {
            line_id: s("inbound_return_a_line_a"),
            error: InsertStockInLineError::LineAlreadyExists,
        })
    );

    // LineReturnReasonUpdateError: the reason does not exist.
    let mut input = base_input("some_new_id");
    input.inbound_return_lines =
        vec![line_input("new_line_id", "item_a", 1, Some("does_not_exist"))];
    assert_eq!(
        insert_inbound_return(&mut store, &store_id, &user_id, input, 0),
        Err(InsertInboundReturnError::LineReturnReasonUpdateError {
            line_id: s("new_line_id"),
            error: UpdateLineReturnReasonError::ReasonDoesNotExist,
        })
    );

    // Every failed attempt left the store untouched.
    assert_eq!(store, before);
}

#[test]
fn test_insert_inbound_return_success() {
    let mut store = error_store();
    store.return_reasons.push(ReturnReasonRow { id: s("return_reason"), is_active: true });
    let mut shipment = invoice(
        "returnable_outbound_shipment",
        "store_a",
        InvoiceType::OutboundShipment,
        InvoiceStatus::Verified,
    );
    shipment.name_id = s("customer_a");
    store.invoices.push(shipment);

    let input = InsertInboundReturn {
        id: s("new_inbound_return_id"),
        other_party_id: s("customer_a"),
        outbound_shipment_id: Some(s("returnable_outbound_shipment")),
        inbound_return_lines: vec![
            line_input("new_inbound_return_line_id", "item_a", 1, Some("return_reason")),
            line_input("new_inbound_return_line_id_2", "item_b", 0, Some("return_reason")),
        ],
    };

    let result =
        insert_inbound_return(&mut store, &s("store_a"), &s("user_account_a"), input, 7_000)
            .unwrap();

    assert_eq!(result.id, "new_inbound_return_id");
    assert_eq!(result.name_id, "customer_a");
    assert_eq!(result.user_id, Some(s("user_account_a")));
    assert_eq!(result.original_shipment_id, Some(s("returnable_outbound_shipment")));
    assert_eq!(result.kind, InvoiceType::CustomerReturn);
    assert_eq!(result.status, InvoiceStatus::New);
    assert_eq!(result.created_datetime, 7_000);

    // The materialized document is what was stored.
    let stored = store.invoices.iter().find(|i| i.id == "new_inbound_return_id").unwrap();
    assert_eq!(*stored, result);

    // The line with number_of_packs == 0 was not inserted.
    let lines: Vec<&InvoiceLineRow> = store
        .invoice_lines
        .iter()
        .filter(|l| l.invoice_id == "new_inbound_return_id")
        .collect();
    assert_eq!(lines.len(), 1);
    assert_eq!(lines[0].id, "new_inbound_return_line_id");
    assert_eq!(lines[0].item_id, "item_a");
    assert_eq!(lines[0].number_of_packs, 1);
    assert_eq!(lines[0].reason_id, Some(s("return_reason")));
}

#[test]
fn duplicate_input_line_ids_are_one_insert_conflict() {
    let mut store = error_store();
    let before = store.clone();
    let mut input = base_input("new_id");
    input.inbound_return_lines = vec![
        line_input("dup", "item_a", 1, None),
        line_input("dup", "item_b", 2, None),
    ];
    assert_eq!(
        insert_inbound_return(&mut store, &s("store_a"), &s("u"), input, 0),
        Err(InsertInboundReturnError::LineInsertError {
            line_id: s("dup"),
            error: InsertStockInLineError::LineAlreadyExists,
        })
    );
    assert_eq!(store, before);
}

fn stock(id: &str, store_id: &str, item: &str, available: u64) -> StockLineRow {
    StockLineRow {
        id: s(id),
        item_id: s(item),
        store_id: s(store_id),
        total_number_of_packs: available + 1,
        available_number_of_packs: available,
    }
}

#[test]
fn generate_outbound_return_lines_nothing_supplied() {
    let mut store = Store::new();
    store.stock_lines.push(stock("item_a_line_a", "store_a", "item_a", 5));
    let service = InvoiceService;

    let result = service
        .generate_outbound_return_lines(&store, &s("store_a"), vec![], None, None)
        .unwrap();
    assert_eq!(result.count, 0);
}

#[test]
fn generate_outbound_return_lines_stock_line_ids() {
    let mut store = Store::new();
    store.stock_lines.push(stock("item_a_line_a", "store_a", "item_a", 5));
    store.stock_lines.push(stock("item_a_line_b", "store_a", "item_a", 3));
    store.stock_lines.push(stock("item_b_line_a", "store_a", "item_b", 2));
    let service = InvoiceService;

    let stock_line_ids = vec![s("item_a_line_a"), s("item_a_line_b")];
    let result = service
        .generate_outbound_return_lines(&store, &s("store_a"), stock_line_ids, None, None)
        .unwrap();
    assert_eq!(result.count, 2);
    assert_eq!(result.rows[0].stock_line.item_id, "item_a");
    // Candidate lines start empty: zero packs, no reason, no comment.
    assert_eq!(result.rows[0].number_of_packs, 0);
    assert_eq!(result.rows[0].reason_id, None);
}

#[test]
fn generate_inbound_return_lines_item_id() {
    let mut store = Store::new();
    store.stock_lines.push(stock("item_query_test1", "store_a", "item_query_test1", 5));
    store.stock_lines.push(stock("other_line", "store_a", "item_a", 4));
    // An exhausted line of the same item must not come back.
    store.stock_lines.push(stock("empty_line", "store_a", "item_query_test1", 0));
    let service = InvoiceService;

    let result = service
        .generate_outbound_return_lines(
            &store,
            &s("store_a"),
            vec![],
            Some(s("item_query_test1")),
            None,
        )
        .unwrap();
    assert_eq!(result.count, 1);
    assert_eq!(result.rows[0].stock_line.id, "item_query_test1");
}

#[test]
fn generate_return_lines_respects_store_scope() {
    let mut store = Store::new();
    store.stock_lines.push(stock("mine", "store_a", "item_a", 5));
    store.stock_lines.push(stock("theirs", "store_b", "item_a", 5));
    let service = InvoiceService;

    let result = service
        .generate_outbound_return_lines(
            &store,
            &s("store_a"),
            vec![s("mine"), s("theirs")],
            None,
            None,
        )
        .unwrap();
    assert_eq!(result.count, 1);
    assert_eq!(result.rows[0].stock_line.id, "mine");
}
