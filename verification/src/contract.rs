//! The verified inventory state machine.
//!
//! Each transition is a total function from the current record, the caller
//! identity and the request to a new record or a rejection. The host wiring
//! loads the record, runs one transition, and persists the result only on
//! success; failed transitions are proved to leave the record untouched.

use vstd::prelude::*;

use cosmwasm_std::Response;

use crate::error::ContractError;
use crate::msg::{ExecuteMsg, InstantiateMsg, ItemType, ItemsResponse, QueryMsg};
use crate::response::{response_add_attribute, response_attrs, response_new};
use crate::state::{can_dispense, counter, spec_dispense, StateModel, VendingMachineState};

verus! {

/// The vending-machine ledger: one owner, three stock counters, and the
/// transitions of this module acting on them.
pub struct VendingMachineContract;

/// The display name of an item kind, as the out-of-stock error reports it.
pub open spec fn spec_item_name(item: ItemType) -> Seq<char> {
    match item {
        ItemType::Chocolate => "Chocolate"@,
        ItemType::Water => "Water"@,
        ItemType::Chips => "Chips"@,
    }
}

/// The display name of an item kind.
pub fn item_name(item: ItemType) -> (r: &'static str)
    ensures
        r@ == spec_item_name(item),
{
    match item {
        ItemType::Chocolate => "Chocolate",
        ItemType::Water => "Water",
        ItemType::Chips => "Chips",
    }
}

/// A refill request with every delta zero asks for nothing and is refused.
pub open spec fn refill_is_noop(chocolate: u32, water: u32, chips: u32) -> bool {
    chocolate == 0 && water == 0 && chips == 0
}

/// Every counter can take its delta without passing the largest
/// representable count.
pub open spec fn refill_fits(s: StateModel, chocolate: u32, water: u32, chips: u32) -> bool {
    &&& s.chocolate + chocolate <= u32::MAX
    &&& s.water + water <= u32::MAX
    &&& s.chips + chips <= u32::MAX
}

/// The record after a successful refill: each counter grows by exactly its
/// delta; the owner is untouched.
pub open spec fn spec_refill(s: StateModel, chocolate: u32, water: u32, chips: u32) -> StateModel {
    StateModel {
        owner: s.owner,
        chocolate: (s.chocolate + chocolate) as nat,
        water: (s.water + water) as nat,
        chips: (s.chips + chips) as nat,
    }
}

/// Everything `get_item` promises: one unit of `item` is dispensed exactly
/// when its counter was positive, nothing else moves, a failed dispense
/// leaves the record byte-for-byte unchanged and reports which item ran out,
/// and a successful one acknowledges with the `get_item` method attribute.
pub open spec fn get_item_post(
    pre: VendingMachineState,
    post: VendingMachineState,
    item: ItemType,
    r: Result<Response, ContractError>,
) -> bool {
    &&& post@ == spec_dispense(pre@, item)
    &&& (r is Ok <==> can_dispense(pre@, item))
    &&& (r is Err ==> post == pre)
    &&& (r matches Ok(resp) ==> response_attrs(resp) =~= seq![("method"@, "get_item"@)])
    &&& (r matches Err(e) ==> e matches ContractError::OutOfStock { item_type }
        && item_type@ == spec_item_name(item))
}

/// Everything `refill` promises: the request succeeds exactly when it asks
/// for something, comes from the owner and fits; each counter then grows by
/// its delta and the acknowledgement carries the `refill` method attribute.
/// The all-zero check precedes the ownership check, so a non-owner sending an
/// all-zero request is told the amount is invalid, not that it is
/// unauthorized. Any failure leaves the record byte-for-byte unchanged.
pub open spec fn refill_post(
    pre: VendingMachineState,
    post: VendingMachineState,
    sender: Seq<char>,
    chocolate: u32,
    water: u32,
    chips: u32,
    r: Result<Response, ContractError>,
) -> bool {
    &&& (r is Ok <==> !refill_is_noop(chocolate, water, chips) && sender == pre.owner@
        && refill_fits(pre@, chocolate, water, chips))
    &&& (r is Ok ==> post@ == spec_refill(pre@, chocolate, water, chips))
    &&& (r is Err ==> post == pre)
    &&& (refill_is_noop(chocolate, water, chips) ==> r matches Err(
        ContractError::RefillInvalidAmount {  },
    ))
    &&& (!refill_is_noop(chocolate, water, chips) && sender != pre.owner@ ==> r matches Err(
        ContractError::Unauthorized {  },
    ))
    &&& (!refill_is_noop(chocolate, water, chips) && sender == pre.owner@ && !refill_fits(
        pre@,
        chocolate,
        water,
        chips,
    ) ==> r matches Err(ContractError::Overflow {  }))
    &&& (r matches Ok(resp) ==> response_attrs(resp) =~= seq![("method"@, "refill"@)])
}

/// Create the singleton record: the counters equal the supplied starting
/// stock, the owner is the initializing identity, and the acknowledgement
/// names the method and the owner. Always succeeds; the host dispatcher is
/// responsible for invoking it exactly once.
pub fn instantiate(sender: String, msg: InstantiateMsg) -> (r: (VendingMachineState, Response))
    ensures
        r.0.owner@ == sender@,
        r.0.chocolate == msg.chocolate,
        r.0.water == msg.water,
        r.0.chips == msg.chips,
        response_attrs(r.1) =~= seq![("method"@, "instantiate"@), ("owner"@, sender@)],
{
    proof {
        reveal_strlit("method");
        reveal_strlit("owner");
    }
    let resp = response_add_attribute(
        response_add_attribute(response_new(), "method", "instantiate"),
        "owner",
        sender.as_str(),
    );
    let state = VendingMachineState {
        owner: sender,
        chocolate: msg.chocolate,
        water: msg.water,
        chips: msg.chips,
    };
    (state, resp)
}

/// Dispense one unit of `item_type`: decrement its counter if it is
/// positive, otherwise refuse with an out-of-stock error and change nothing.
/// Dispensing is open to any caller.
pub fn get_item(state: &mut VendingMachineState, item_type: ItemType) -> (r: Result<
    Response,
    ContractError,
>)
    ensures
        get_item_post(*old(state), *final(state), item_type, r),
{
    let available = match item_type {
        ItemType::Chocolate => state.chocolate > 0,
        ItemType::Water => state.water > 0,
        ItemType::Chips => state.chips > 0,
    };
    if !available {
        return Err(ContractError::OutOfStock { item_type: item_name(item_type).to_owned() });
    }
    match item_type {
        ItemType::Chocolate => state.chocolate = state.chocolate - 1,
        ItemType::Water => state.water = state.water - 1,
        ItemType::Chips => state.chips = state.chips - 1,
    }
    proof {
        reveal_strlit("method");
        assert(state@ =~= spec_dispense(old(state)@, item_type));
    }
    Ok(response_add_attribute(response_new(), "method", "get_item"))
}

/// Add stock: each delta is added to its counter. Refused when every delta
/// is zero (checked first, whoever the caller is), when the caller is not
/// the owner, or when a counter would pass the largest representable count;
/// a refused request changes nothing.
pub fn refill(
    state: &mut VendingMachineState,
    sender: String,
    chocolate: u32,
    water: u32,
    chips: u32,
) -> (r: Result<Response, ContractError>)
    ensures
        refill_post(*old(state), *final(state), sender@, chocolate, water, chips, r),
{
    if chocolate == 0 && water == 0 && chips == 0 {
        return Err(ContractError::RefillInvalidAmount {});
    }
    if !(sender == state.owner) {
        return Err(ContractError::Unauthorized {});
    }
    if chocolate > u32::MAX - state.chocolate || water > u32::MAX - state.water || chips
        > u32::MAX - state.chips {
        return Err(ContractError::Overflow {});
    }
    state.chocolate = state.chocolate + chocolate;
    state.water = state.water + water;
    state.chips = state.chips + chips;
    proof {
        reveal_strlit("method");
        assert(state@ =~= spec_refill(old(state)@, chocolate, water, chips));
    }
    Ok(response_add_attribute(response_new(), "method", "refill"))
}

/// Run one state-changing request against the record: dispensing is open to
/// anyone, refilling to the owner alone.
pub fn execute(state: &mut VendingMachineState, sender: String, msg: ExecuteMsg) -> (r: Result<
    Response,
    ContractError,
>)
    ensures
        msg matches ExecuteMsg::GetItem { item_type } ==> get_item_post(
            *old(state),
            *final(state),
            item_type,
            r,
        ),
        msg matches ExecuteMsg::Refill { chocolate, water, chips } ==> refill_post(
            *old(state),
            *final(state),
            sender@,
            chocolate,
            water,
            chips,
            r,
        ),
{
    match msg {
        ExecuteMsg::GetItem { item_type } => get_item(state, item_type),
        ExecuteMsg::Refill { chocolate, water, chips } => refill(
            state,
            sender,
            chocolate,
            water,
            chips,
        ),
    }
}

/// Report the current counts: a pure projection of the record, open to any
/// caller and never failing.
pub fn query_items_count(state: &VendingMachineState) -> (r: ItemsResponse)
    ensures
        r.chocolate == state.chocolate,
        r.water == state.water,
        r.chips == state.chips,
{
    ItemsResponse { chocolate: state.chocolate, water: state.water, chips: state.chips }
}

/// Answer a read-only request against the record.
pub fn query(state: &VendingMachineState, msg: QueryMsg) -> (r: ItemsResponse)
    ensures
        r.chocolate == state.chocolate,
        r.water == state.water,
        r.chips == state.chips,
{
    match msg {
        QueryMsg::ItemsCount {  } => query_items_count(state),
    }
}

} // verus!
