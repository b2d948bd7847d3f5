//! The rejection reasons a transition can surface.

use vstd::prelude::*;

verus! {

/// Why a transition was refused. Failed transitions never change the record.
#[derive(Clone, Debug, PartialEq)]
pub enum ContractError {
    /// The underlying store failed to read or write the record; the host
    /// wiring propagates the store's message verbatim. The verified
    /// transitions never produce this variant themselves.
    Std { msg: String },
    /// A refill was requested with every delta zero.
    RefillInvalidAmount {},
    /// A refill was requested by a caller other than the owner.
    Unauthorized {},
    /// A dispense was requested for an item whose counter is already zero.
    /// Carries the item kind's name.
    OutOfStock { item_type: String },
    /// A refill would push a counter past the largest representable count.
    /// Refusing the request outright is this library's deliberate choice
    /// over letting the addition silently wrap.
    Overflow {},
}

} // verus!
