//! A verified vending-machine inventory ledger.
//!
//! The ledger is a single record holding an owner identity and three
//! non-negative stock counters (chocolate, water, chips). Three transitions
//! act on it: `instantiate` creates the record, `get_item` dispenses one unit
//! of an item, and `refill` lets the owner add stock. A read-only query
//! reports the current counts. The transition logic is verified; the host
//! runtime that stores the record and decodes requests sits outside it.

pub mod contract;
pub mod error;
pub mod msg;
pub mod response;
pub mod state;
