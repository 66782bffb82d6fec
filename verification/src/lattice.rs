//! The status lattice: the fixed forward-only ordering of statuses per
//! document kind, which statuses a kind uses, which transitions recompute
//! derived stock totals, and in which statuses a document is still editable.
//!
//! Everything here is a pure lookup table with no failure modes.

use vstd::prelude::*;

verus! {

/// The statuses a transactional document can hold, in their global order.
#[derive(Clone, Copy, Debug, PartialEq, Eq, Structural)]
pub enum InvoiceStatus {
    New,
    Allocated,
    Picked,
    Shipped,
    Delivered,
    Verified,
}

/// The document kinds the workflow engine knows.
#[derive(Clone, Copy, Debug, PartialEq, Eq, Structural)]
pub enum InvoiceType {
    OutboundShipment,
    InboundShipment,
    Prescription,
    OutboundReturn,
    CustomerReturn,
    InventoryAddition,
}

/// Position of a status in the global order: `New` comes first, `Verified` last.
pub open spec fn status_index(s: InvoiceStatus) -> int {
    match s {
        InvoiceStatus::New => 0,
        InvoiceStatus::Allocated => 1,
        InvoiceStatus::Picked => 2,
        InvoiceStatus::Shipped => 3,
        InvoiceStatus::Delivered => 4,
        InvoiceStatus::Verified => 5,
    }
}

/// Whether a status belongs to the kind's legal sequence.
pub open spec fn kind_uses(kind: InvoiceType, s: InvoiceStatus) -> bool {
    match kind {
        InvoiceType::OutboundShipment => true,
        InvoiceType::InboundShipment => s is New || s is Delivered || s is Verified,
        InvoiceType::Prescription => s is New || s is Allocated || s is Picked || s is Verified,
        InvoiceType::OutboundReturn => s is New || s is Picked || s is Shipped,
        InvoiceType::CustomerReturn => s is New || s is Delivered || s is Verified,
        InvoiceType::InventoryAddition => s is Verified,
    }
}

/// A strictly forward transition within the kind's sequence.
pub open spec fn is_forward(kind: InvoiceType, from: InvoiceStatus, to: InvoiceStatus) -> bool {
    kind_uses(kind, from) && kind_uses(kind, to) && status_index(from) < status_index(to)
}

/// Whether the transition `from -> to` stamps the timestamp field of status
/// `s`: every status of the kind's sequence strictly after `from`, up to and
/// including `to`, is stamped, so a jump back-fills the skipped steps too.
/// A pair whose endpoints do not both belong to the kind's sequence stamps
/// nothing: such a transition is a deliberate no-op.
pub open spec fn stamps(
    kind: InvoiceType,
    from: InvoiceStatus,
    to: InvoiceStatus,
    s: InvoiceStatus,
) -> bool {
    &&& kind_uses(kind, from)
    &&& kind_uses(kind, to)
    &&& kind_uses(kind, s)
    &&& status_index(from) < status_index(s) <= status_index(to)
}

/// Whether the transition crosses the threshold that requires derived stock
/// totals to be recomputed: a stock-moving document leaving `New` for `Picked`
/// or beyond.
pub open spec fn quantity_affecting(
    kind: InvoiceType,
    from: InvoiceStatus,
    to: InvoiceStatus,
) -> bool {
    &&& (kind is OutboundShipment || kind is OutboundReturn)
    &&& from is New
    &&& status_index(to) >= status_index(InvoiceStatus::Picked)
}

/// Whether a document of this kind may still be mutated while in status `s`.
/// The last status of a kind's sequence is terminal and never editable.
pub open spec fn is_editable(kind: InvoiceType, s: InvoiceStatus) -> bool {
    match kind {
        InvoiceType::OutboundShipment | InvoiceType::OutboundReturn | InvoiceType::Prescription =>
            s is New || s is Allocated || s is Picked,
        InvoiceType::InboundShipment | InvoiceType::CustomerReturn =>
            s is New || s is Shipped || s is Delivered,
        InvoiceType::InventoryAddition => s is New,
    }
}

impl InvoiceStatus {
    /// Position of this status in the global order, as a machine integer.
    pub fn index(&self) -> (r: u8)
        ensures
            r as int == status_index(*self),
    {
        match self {
            InvoiceStatus::New => 0,
            InvoiceStatus::Allocated => 1,
            InvoiceStatus::Picked => 2,
            InvoiceStatus::Shipped => 3,
            InvoiceStatus::Delivered => 4,
            InvoiceStatus::Verified => 5,
        }
    }
}

/// Executable form of [`is_editable`].
pub fn check_editable(kind: InvoiceType, s: InvoiceStatus) -> (r: bool)
    ensures
        r == is_editable(kind, s),
{
    match kind {
        InvoiceType::OutboundShipment | InvoiceType::OutboundReturn | InvoiceType::Prescription => {
            s == InvoiceStatus::New || s == InvoiceStatus::Allocated || s == InvoiceStatus::Picked
        },
        InvoiceType::InboundShipment | InvoiceType::CustomerReturn => {
            s == InvoiceStatus::New || s == InvoiceStatus::Shipped || s == InvoiceStatus::Delivered
        },
        InvoiceType::InventoryAddition => s == InvoiceStatus::New,
    }
}

/// Executable form of [`is_forward`].
pub fn check_forward(kind: InvoiceType, from: InvoiceStatus, to: InvoiceStatus) -> (r: bool)
    ensures
        r == is_forward(kind, from, to),
{
    check_kind_uses(kind, from) && check_kind_uses(kind, to) && from.index() < to.index()
}

/// Executable form of [`kind_uses`].
pub fn check_kind_uses(kind: InvoiceType, s: InvoiceStatus) -> (r: bool)
    ensures
        r == kind_uses(kind, s),
{
    match kind {
        InvoiceType::OutboundShipment => true,
        InvoiceType::InboundShipment => {
            s == InvoiceStatus::New || s == InvoiceStatus::Delivered || s == InvoiceStatus::Verified
        },
        InvoiceType::Prescription => {
            s == InvoiceStatus::New || s == InvoiceStatus::Allocated || s == InvoiceStatus::Picked
                || s == InvoiceStatus::Verified
        },
        InvoiceType::OutboundReturn => {
            s == InvoiceStatus::New || s == InvoiceStatus::Picked || s == InvoiceStatus::Shipped
        },
        InvoiceType::CustomerReturn => {
            s == InvoiceStatus::New || s == InvoiceStatus::Delivered || s == InvoiceStatus::Verified
        },
        InvoiceType::InventoryAddition => s == InvoiceStatus::Verified,
    }
}

} // verus!
