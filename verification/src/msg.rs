//! Request and response payloads of the ledger's external surface.

use vstd::prelude::*;

verus! {

/// One-time setup request: the starting stock of each item kind.
#[derive(Clone, Copy, Debug, PartialEq, Eq, Structural)]
pub struct InstantiateMsg {
    pub chocolate: u32,
    pub water: u32,
    pub chips: u32,
}

/// The three item kinds the machine stocks.
#[derive(Clone, Copy, Debug, PartialEq, Eq, Structural)]
pub enum ItemType {
    Chocolate,
    Water,
    Chips,
}

/// A state-changing request: dispense one unit of an item, or add stock.
#[derive(Clone, Copy, Debug, PartialEq, Eq, Structural)]
pub enum ExecuteMsg {
    GetItem { item_type: ItemType },
    Refill { chocolate: u32, water: u32, chips: u32 },
}

/// The current stock counts, as the query reports them.
#[derive(Clone, Copy, Debug, PartialEq, Eq, Structural)]
pub struct ItemsResponse {
    pub chocolate: u32,
    pub water: u32,
    pub chips: u32,
}

/// A read-only request.
#[derive(Clone, Copy, Debug, PartialEq, Eq, Structural)]
pub enum QueryMsg {
    ItemsCount {},
}

} // verus!
