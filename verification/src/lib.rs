//! A status-workflow engine for transactional documents (shipments, returns,
//! requisition-driven forms) held in a relational store.
//!
//! Documents move forward through a fixed, per-kind sequence of statuses.
//! Every mutation runs as validate -> generate -> persist: the validator
//! rejects bad requests in a fixed order, the generator is a pure function
//! from the current row and the requested patch to the new rows, and the
//! applier persists everything atomically - on any error the store is left
//! exactly as it was.

pub mod asset;
pub mod catalogue;
pub mod clock;
pub mod common;
pub mod customer_return;
pub mod invoice_line;
pub mod lattice;
pub mod laws;
pub mod model;
pub mod outbound_return;
pub mod outbound_return_delete;
pub mod outbound_shipment;
pub mod program;
pub mod requisition;
pub mod return_lines;
pub mod rnr_form;
pub mod service;
pub mod store;
pub mod update_lines;
pub mod validate;
pub mod vaccine_course;

pub use lattice::InvoiceStatus;
pub use lattice::InvoiceType;
