//! The status lattice's lookup tables on concrete values.

use invoice_workflow::lattice::{check_editable, check_forward, check_kind_uses, InvoiceStatus, InvoiceType};
use invoice_workflow::invoice_line::StockInType;

#[test]
fn status_index_follows_global_order() {
    assert_eq!(InvoiceStatus::New.index(), 0);
    assert_eq!(InvoiceStatus::Allocated.index(), 1);
    assert_eq!(InvoiceStatus::Picked.index(), 2);
    assert_eq!(InvoiceStatus::Shipped.index(), 3);
    assert_eq!(InvoiceStatus::Delivered.index(), 4);
    assert_eq!(InvoiceStatus::Verified.index(), 5);
}

#[test]
fn outbound_return_sequence_is_new_picked_shipped() {
    assert!(check_kind_uses(InvoiceType::OutboundReturn, InvoiceStatus::New));
    assert!(check_kind_uses(InvoiceType::OutboundReturn, InvoiceStatus::Picked));
    assert!(check_kind_uses(InvoiceType::OutboundReturn, InvoiceStatus::Shipped));
    assert!(!check_kind_uses(InvoiceType::OutboundReturn, InvoiceStatus::Allocated));
    assert!(!check_kind_uses(InvoiceType::OutboundReturn, InvoiceStatus::Delivered));
    assert!(!check_kind_uses(InvoiceType::OutboundReturn, InvoiceStatus::Verified));
}

#[test]
fn forward_transitions_only() {
    assert!(check_forward(InvoiceType::OutboundReturn, InvoiceStatus::New, InvoiceStatus::Picked));
    assert!(check_forward(InvoiceType::OutboundReturn, InvoiceStatus::New, InvoiceStatus::Shipped));
    assert!(check_forward(InvoiceType::OutboundReturn, InvoiceStatus::Picked, InvoiceStatus::Shipped));
    assert!(!check_forward(InvoiceType::OutboundReturn, InvoiceStatus::Shipped, InvoiceStatus::Picked));
    assert!(!check_forward(InvoiceType::OutboundReturn, InvoiceStatus::Picked, InvoiceStatus::Picked));
    assert!(check_forward(InvoiceType::OutboundShipment, InvoiceStatus::New, InvoiceStatus::Verified));
    assert!(!check_forward(InvoiceType::OutboundShipment, InvoiceStatus::Verified, InvoiceStatus::New));
}

#[test]
fn terminal_statuses_are_not_editable() {
    assert!(check_editable(InvoiceType::OutboundReturn, InvoiceStatus::New));
    assert!(check_editable(InvoiceType::OutboundReturn, InvoiceStatus::Picked));
    assert!(!check_editable(InvoiceType::OutboundReturn, InvoiceStatus::Shipped));
    assert!(check_editable(InvoiceType::OutboundShipment, InvoiceStatus::Allocated));
    assert!(!check_editable(InvoiceType::OutboundShipment, InvoiceStatus::Shipped));
    assert!(!check_editable(InvoiceType::CustomerReturn, InvoiceStatus::Verified));
}

#[test]
fn stock_in_type_to_domain_maps_each_kind() {
    assert_eq!(StockInType::CustomerReturn.to_domain(), InvoiceType::CustomerReturn);
    assert_eq!(StockInType::InventoryAddition.to_domain(), InvoiceType::InventoryAddition);
    assert_eq!(StockInType::InboundShipment.to_domain(), InvoiceType::InboundShipment);
    assert_eq!(StockInType::default(), StockInType::CustomerReturn);
}
