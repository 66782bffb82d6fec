//! The validators on concrete stores: shipments, deletes, line replacement,
//! the asset catalogue, requisition shipments and R&R forms.

use invoice_workflow::catalogue::{
    delete_asset_catalogue_item, validate as validate_catalogue_delete, AssetCatalogueItemPropertyRow,
    AssetCatalogueItemRow, DeleteAssetCatalogueItemError,
};
use invoice_workflow::asset::{check_asset_exists, check_asset_log_exists, AssetLogRow, AssetRow};
use invoice_workflow::lattice::{InvoiceStatus, InvoiceType};
use invoice_workflow::model::{InvoiceLineRow, InvoiceLineType, InvoiceRow, NameRow, NameStoreJoinRow};
use invoice_workflow::outbound_return_delete::{validate as validate_delete, DeleteOutboundReturnError};
use invoice_workflow::outbound_shipment::{
    validate as validate_shipment, UpdateOutboundShipment, UpdateOutboundShipmentError,
    UpdateOutboundShipmentStatus,
};
use invoice_workflow::program::{MasterListJoinRow, PeriodRow, ProgramRequisitionSettingsRow, ProgramRow};
use invoice_workflow::requisition::{
    validate as validate_requisition_shipment, CreateRequisitionShipment,
    CreateRequisitionShipmentError, RequisitionLineRow, RequisitionRow, RequisitionStatus,
    RequisitionType,
};
use invoice_workflow::rnr_form::{insert_rnr_form, InsertRnRForm, InsertRnRFormError, RnRFormStatus};
use invoice_workflow::store::Store;
use invoice_workflow::update_lines::{validate as validate_update_lines, UpdateOutboundReturnLinesError};
use invoice_workflow::vaccine_course::{check_program_exists, check_vaccine_course_exists, VaccineCourseRow};

fn s(text: &str) -> String {
    text.to_string()
}

fn invoice(id: &str, store_id: &str, kind: InvoiceType, status: InvoiceStatus) -> InvoiceRow {
    InvoiceRow {
        id: s(id),
        store_id: s(store_id),
        name_id: s("name_a"),
        user_id: None,
        kind,
        status,
        on_hold: false,
        comment: None,
        their_reference: None,
        transport_reference: None,
        colour: None,
        original_shipment_id: None,
        created_datetime: 100,
        allocated_datetime: None,
        picked_datetime: if status.index() >= 2 { Some(200) } else { None },
        shipped_datetime: None,
        delivered_datetime: None,
        verified_datetime: None,
    }
}

fn unallocated_line(id: &str, invoice_id: &str, packs: u64) -> InvoiceLineRow {
    InvoiceLineRow {
        id: s(id),
        invoice_id: s(invoice_id),
        item_id: s("item_a"),
        line_type: InvoiceLineType::UnallocatedStock,
        stock_line_id: None,
        number_of_packs: packs,
        pack_size: 1,
        total_packs: 0,
        reason_id: None,
    }
}

fn shipment_patch(id: &str, status: Option<UpdateOutboundShipmentStatus>) -> UpdateOutboundShipment {
    UpdateOutboundShipment { id: s(id), status, ..Default::default() }
}

#[test]
fn backward_shipment_transition_returns_direction_error() {
    let mut store = Store::new();
    store.invoices.push(invoice("os1", "store_a", InvoiceType::OutboundShipment, InvoiceStatus::Picked));

    let err = validate_shipment(
        &store,
        &s("store_a"),
        &shipment_patch("os1", Some(UpdateOutboundShipmentStatus::Allocated)),
    )
    .unwrap_err();
    assert_eq!(err, UpdateOutboundShipmentError::CannotReverseInvoiceStatus);
}

#[test]
fn shipment_validate_order_and_success() {
    let mut store = Store::new();
    store.invoices.push(invoice("os1", "store_b", InvoiceType::OutboundShipment, InvoiceStatus::New));
    store.invoices.push(invoice("r1", "store_a", InvoiceType::OutboundReturn, InvoiceStatus::New));
    store.invoices.push(invoice("os2", "store_a", InvoiceType::OutboundShipment, InvoiceStatus::Shipped));
    store.invoices.push(invoice("os3", "store_a", InvoiceType::OutboundShipment, InvoiceStatus::New));

    assert_eq!(
        validate_shipment(&store, &s("store_a"), &shipment_patch("nope", None)).unwrap_err(),
        UpdateOutboundShipmentError::InvoiceDoesNotExist
    );
    assert_eq!(
        validate_shipment(&store, &s("store_a"), &shipment_patch("os1", None)).unwrap_err(),
        UpdateOutboundShipmentError::NotThisStoreInvoice
    );
    assert_eq!(
        validate_shipment(&store, &s("store_a"), &shipment_patch("r1", None)).unwrap_err(),
        UpdateOutboundShipmentError::NotAnOutboundShipment
    );
    assert_eq!(
        validate_shipment(&store, &s("store_a"), &shipment_patch("os2", None)).unwrap_err(),
        UpdateOutboundShipmentError::InvoiceIsNotEditable
    );

    let (row, changed) = validate_shipment(
        &store,
        &s("store_a"),
        &shipment_patch("os3", Some(UpdateOutboundShipmentStatus::Picked)),
    )
    .unwrap();
    assert_eq!(row.id, "os3");
    assert!(changed);

    let (_, changed) = validate_shipment(&store, &s("store_a"), &shipment_patch("os3", None))
        .unwrap();
    assert!(!changed);
}

#[test]
fn open_unallocated_lines_block_leaving_new() {
    let mut store = Store::new();
    store.invoices.push(invoice("os1", "store_a", InvoiceType::OutboundShipment, InvoiceStatus::New));
    store.invoice_lines.push(unallocated_line("u1", "os1", 3));
    // A zero-quantity unallocated line never blocks the move.
    store.invoice_lines.push(unallocated_line("u0", "os1", 0));

    let err = validate_shipment(
        &store,
        &s("store_a"),
        &shipment_patch("os1", Some(UpdateOutboundShipmentStatus::Allocated)),
    )
    .unwrap_err();
    match err {
        UpdateOutboundShipmentError::CanOnlyChangeToAllocatedWhenNoUnallocatedLines(lines) => {
            assert_eq!(lines.len(), 1);
            assert_eq!(lines[0].id, "u1");
        }
        other => panic!("expected the unallocated-lines error, got {:?}", other),
    }

    // With only the zero-quantity line left, the move is allowed.
    store.invoice_lines[0].number_of_packs = 0;
    let (_, changed) = validate_shipment(
        &store,
        &s("store_a"),
        &shipment_patch("os1", Some(UpdateOutboundShipmentStatus::Allocated)),
    )
    .unwrap();
    assert!(changed);
}

#[test]
fn delete_return_validate_checks_in_order() {
    let mut store = Store::new();
    store.invoices.push(invoice("r1", "store_b", InvoiceType::OutboundReturn, InvoiceStatus::New));
    store.invoices.push(invoice("r2", "store_a", InvoiceType::OutboundReturn, InvoiceStatus::Shipped));
    store.invoices.push(invoice("os1", "store_a", InvoiceType::OutboundShipment, InvoiceStatus::New));
    store.invoices.push(invoice("r3", "store_a", InvoiceType::OutboundReturn, InvoiceStatus::New));

    assert_eq!(
        validate_delete(&s("nope"), &s("store_a"), &store).unwrap_err(),
        DeleteOutboundReturnError::InvoiceDoesNotExist
    );
    assert_eq!(
        validate_delete(&s("r1"), &s("store_a"), &store).unwrap_err(),
        DeleteOutboundReturnError::NotThisStoreInvoice
    );
    assert_eq!(
        validate_delete(&s("r2"), &s("store_a"), &store).unwrap_err(),
        DeleteOutboundReturnError::CannotEditFinalised
    );
    assert_eq!(
        validate_delete(&s("os1"), &s("store_a"), &store).unwrap_err(),
        DeleteOutboundReturnError::NotAnOutboundReturn
    );
    assert_eq!(validate_delete(&s("r3"), &s("store_a"), &store).unwrap().id, "r3");
}

#[test]
fn update_lines_validate_checks_in_order() {
    let mut store = Store::new();
    store.invoices.push(invoice("r1", "store_a", InvoiceType::OutboundReturn, InvoiceStatus::New));
    store.invoices.push(invoice("os1", "store_a", InvoiceType::OutboundShipment, InvoiceStatus::New));

    assert_eq!(
        validate_update_lines(&store, &s("store_a"), &s("nope")).unwrap_err(),
        UpdateOutboundReturnLinesError::ReturnDoesNotExist
    );
    assert_eq!(
        validate_update_lines(&store, &s("store_b"), &s("r1")).unwrap_err(),
        UpdateOutboundReturnLinesError::ReturnDoesNotBelongToCurrentStore
    );
    assert_eq!(
        validate_update_lines(&store, &s("store_a"), &s("os1")).unwrap_err(),
        UpdateOutboundReturnLinesError::NotAnOutboundReturn
    );
    assert_eq!(validate_update_lines(&store, &s("store_a"), &s("r1")), Ok(()));
}

fn catalogue_store() -> Store {
    let mut store = Store::new();
    store.asset_catalogue_items.push(AssetCatalogueItemRow { id: s("cat1"), code: s("C1") });
    store.asset_catalogue_items.push(AssetCatalogueItemRow { id: s("cat2"), code: s("C2") });
    store.asset_catalogue_item_properties.push(AssetCatalogueItemPropertyRow {
        id: s("p1"),
        catalogue_item_id: s("cat1"),
        value: s("v1"),
    });
    store.asset_catalogue_item_properties.push(AssetCatalogueItemPropertyRow {
        id: s("p2"),
        catalogue_item_id: s("cat2"),
        value: s("v2"),
    });
    store
}

#[test]
fn catalogue_delete_validates_existence_and_use() {
    let mut store = catalogue_store();
    assert_eq!(
        validate_catalogue_delete(&store, &s("nope")),
        Err(DeleteAssetCatalogueItemError::AssetCatalogueItemDoesNotExist)
    );

    store.assets.push(AssetRow {
        id: s("asset1"),
        serial_number: None,
        catalogue_item_id: Some(s("cat1")),
    });
    let before = store.clone();
    assert_eq!(
        delete_asset_catalogue_item(&mut store, s("cat1")),
        Err(DeleteAssetCatalogueItemError::AssetCatalogueItemInUse)
    );
    assert_eq!(store, before);
}

#[test]
fn catalogue_delete_removes_item_and_its_properties() {
    let mut store = catalogue_store();
    assert_eq!(delete_asset_catalogue_item(&mut store, s("cat1")), Ok(s("cat1")));
    assert_eq!(store.asset_catalogue_items.len(), 1);
    assert_eq!(store.asset_catalogue_items[0].id, "cat2");
    assert_eq!(store.asset_catalogue_item_properties.len(), 1);
    assert_eq!(store.asset_catalogue_item_properties[0].id, "p2");
}

#[test]
fn asset_and_log_lookups() {
    let mut store = Store::new();
    store.assets.push(AssetRow { id: s("a1"), serial_number: Some(s("SN-1")), catalogue_item_id: None });
    store.asset_logs.push(AssetLogRow { id: s("log1"), asset_id: s("a1") });

    assert_eq!(check_asset_exists(&s("a1"), &store).unwrap().unwrap().serial_number, Some(s("SN-1")));
    assert_eq!(check_asset_exists(&s("a2"), &store).unwrap(), None);
    assert_eq!(check_asset_log_exists(&s("log1"), &store).unwrap().unwrap().asset_id, "a1");
    assert_eq!(check_asset_log_exists(&s("log2"), &store).unwrap(), None);
}

#[test]
fn vaccine_course_and_program_lookups() {
    let mut store = Store::new();
    store.vaccine_courses.push(VaccineCourseRow {
        id: s("vc1"),
        name: s("Course 1"),
        program_id: s("prog1"),
    });
    store.programs.push(ProgramRow {
        id: s("prog1"),
        name: s("Program 1"),
        master_list_id: Some(s("ml1")),
    });

    assert_eq!(check_vaccine_course_exists(&s("vc1"), &store).unwrap().unwrap().name, "Course 1");
    assert_eq!(check_vaccine_course_exists(&s("vc2"), &store).unwrap(), None);
    assert_eq!(
        check_program_exists(&s("prog1"), &store).unwrap().unwrap().master_list_id,
        Some(s("ml1"))
    );
    assert_eq!(check_program_exists(&s("prog2"), &store).unwrap(), None);
}

fn requisition_store() -> Store {
    let mut store = Store::new();
    store.requisitions.push(RequisitionRow {
        id: s("req1"),
        store_id: s("store_a"),
        kind: RequisitionType::Response,
        status: RequisitionStatus::New,
    });
    store.requisition_lines.push(RequisitionLineRow {
        id: s("rl1"),
        requisition_id: s("req1"),
        item_id: s("item_a"),
        requested_quantity: 10,
        supplied_quantity: 4,
    });
    store.requisition_lines.push(RequisitionLineRow {
        id: s("rl2"),
        requisition_id: s("req1"),
        item_id: s("item_b"),
        requested_quantity: 5,
        supplied_quantity: 5,
    });
    store
}

#[test]
fn requisition_shipment_validate_finds_remaining_lines() {
    let store = requisition_store();
    let (requisition, remaining) = validate_requisition_shipment(
        &store,
        &s("store_a"),
        &CreateRequisitionShipment { response_requisition_id: s("req1") },
    )
    .unwrap();
    assert_eq!(requisition.requisition_row.id, "req1");
    // Only the line with something left to supply comes back: 10 - 4 = 6.
    assert_eq!(remaining.len(), 1);
    assert_eq!(remaining[0].line.id, "rl1");
    assert_eq!(remaining[0].remaining_quantity, 6);
}

#[test]
fn requisition_shipment_validate_checks_in_order() {
    let mut store = requisition_store();
    let input = |id: &str| CreateRequisitionShipment { response_requisition_id: s(id) };

    assert_eq!(
        validate_requisition_shipment(&store, &s("store_a"), &input("nope")).unwrap_err(),
        CreateRequisitionShipmentError::RequisitionDoesNotExist
    );
    assert_eq!(
        validate_requisition_shipment(&store, &s("store_b"), &input("req1")).unwrap_err(),
        CreateRequisitionShipmentError::NotThisStoreRequisition
    );

    store.requisitions[0].kind = RequisitionType::Request;
    assert_eq!(
        validate_requisition_shipment(&store, &s("store_a"), &input("req1")).unwrap_err(),
        CreateRequisitionShipmentError::NotAResponseRequisition
    );

    store.requisitions[0].kind = RequisitionType::Response;
    store.requisitions[0].status = RequisitionStatus::Finalised;
    assert_eq!(
        validate_requisition_shipment(&store, &s("store_a"), &input("req1")).unwrap_err(),
        CreateRequisitionShipmentError::CannotEditRequisition
    );

    store.requisitions[0].status = RequisitionStatus::New;
    store.requisition_lines[0].supplied_quantity = 10;
    assert_eq!(
        validate_requisition_shipment(&store, &s("store_a"), &input("req1")).unwrap_err(),
        CreateRequisitionShipmentError::NothingRemainingToSupply
    );
}

fn rnr_store() -> Store {
    let mut store = Store::new();
    store.names.push(NameRow { id: s("supplier_a") });
    store.name_store_joins.push(NameStoreJoinRow {
        id: s("supplier_a_join"),
        name_id: s("supplier_a"),
        store_id: s("store_a"),
        name_is_customer: false,
        name_is_supplier: true,
    });
    store.programs.push(ProgramRow {
        id: s("prog1"),
        name: s("Program 1"),
        master_list_id: Some(s("ml1")),
    });
    store.master_list_joins.push(MasterListJoinRow {
        id: s("mlj1"),
        master_list_id: s("ml1"),
        store_id: s("store_a"),
    });
    store.periods.push(PeriodRow { id: s("per1"), period_schedule_id: s("sched1") });
    store.program_requisition_settings.push(ProgramRequisitionSettingsRow {
        id: s("prs1"),
        program_id: s("prog1"),
        period_schedule_id: s("sched1"),
    });
    store
}

fn rnr_input(id: &str) -> InsertRnRForm {
    InsertRnRForm {
        id: s(id),
        supplier_id: s("supplier_a"),
        program_id: s("prog1"),
        period_id: s("per1"),
    }
}

#[test]
fn insert_rnr_form_success_creates_a_draft() {
    let mut store = rnr_store();
    let form = insert_rnr_form(&mut store, &s("store_a"), &s("user_1"), rnr_input("form1"), 9_000)
        .unwrap();
    assert_eq!(form.id, "form1");
    assert_eq!(form.status, RnRFormStatus::Draft);
    assert_eq!(form.created_datetime, 9_000);
    assert_eq!(form.finalised_datetime, None);
    assert_eq!(form.linked_requisition_id, None);
    assert_eq!(store.rnr_forms.len(), 1);
    assert_eq!(store.rnr_forms[0], form);
    assert_eq!(store.activity_log.len(), 1);
    assert_eq!(store.activity_log[0].document_id, "form1");
}

#[test]
fn insert_rnr_form_errors_come_in_order() {
    let mut store = rnr_store();
    insert_rnr_form(&mut store, &s("store_a"), &s("user_1"), rnr_input("form1"), 9_000).unwrap();
    let before = store.clone();

    // RnRFormAlreadyExists
    assert_eq!(
        insert_rnr_form(&mut store, &s("store_a"), &s("user_1"), rnr_input("form1"), 0),
        Err(InsertRnRFormError::RnRFormAlreadyExists)
    );

    // Supplier checks
    let mut input = rnr_input("form2");
    input.supplier_id = s("nope");
    assert_eq!(
        insert_rnr_form(&mut store, &s("store_a"), &s("user_1"), input, 0),
        Err(InsertRnRFormError::SupplierDoesNotExist)
    );
    let mut input = rnr_input("form2");
    input.supplier_id = s("supplier_a");
    assert_eq!(
        insert_rnr_form(&mut store, &s("store_b"), &s("user_1"), input, 0),
        Err(InsertRnRFormError::SupplierNotVisible)
    );

    // ProgramDoesNotExist
    let mut input = rnr_input("form2");
    input.program_id = s("nope");
    assert_eq!(
        insert_rnr_form(&mut store, &s("store_a"), &s("user_1"), input, 0),
        Err(InsertRnRFormError::ProgramDoesNotExist)
    );

    // PeriodDoesNotExist
    let mut input = rnr_input("form2");
    input.period_id = s("nope");
    assert_eq!(
        insert_rnr_form(&mut store, &s("store_a"), &s("user_1"), input, 0),
        Err(InsertRnRFormError::PeriodDoesNotExist)
    );

    // RnRFormAlreadyExistsForPeriod: a second form for the same period.
    assert_eq!(
        insert_rnr_form(&mut store, &s("store_a"), &s("user_1"), rnr_input("form2"), 0),
        Err(InsertRnRFormError::RnRFormAlreadyExistsForPeriod)
    );

    // Every failed attempt left the store untouched.
    assert_eq!(store, before);
}

#[test]
fn insert_rnr_form_requires_a_visible_master_list() {
    let mut store = rnr_store();
    store.master_list_joins.clear();
    assert_eq!(
        insert_rnr_form(&mut store, &s("store_a"), &s("user_1"), rnr_input("form1"), 0),
        Err(InsertRnRFormError::ProgramHasNoMasterList)
    );

    let mut store = rnr_store();
    store.programs[0].master_list_id = None;
    assert_eq!(
        insert_rnr_form(&mut store, &s("store_a"), &s("user_1"), rnr_input("form1"), 0),
        Err(InsertRnRFormError::ProgramHasNoMasterList)
    );
}

#[test]
fn insert_rnr_form_checks_the_period_schedule() {
    let mut store = rnr_store();
    store.program_requisition_settings[0].period_schedule_id = s("other_sched");
    assert_eq!(
        insert_rnr_form(&mut store, &s("store_a"), &s("user_1"), rnr_input("form1"), 0),
        Err(InsertRnRFormError::PeriodNotInProgramSchedule)
    );
}
