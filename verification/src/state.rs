//! The persisted inventory record and its mathematical model.

use vstd::prelude::*;

use crate::msg::ItemType;

verus! {

/// The singleton durable record: the owner identity fixed at creation and
/// one non-negative stock counter per item kind.
#[derive(Clone, Debug, PartialEq)]
pub struct VendingMachineState {
    pub owner: String,
    pub chocolate: u32,
    pub water: u32,
    pub chips: u32,
}

/// Mathematical model of the record: the owner as a character sequence and
/// the counters as unbounded naturals.
#[verifier::ext_equal]
pub ghost struct StateModel {
    pub owner: Seq<char>,
    pub chocolate: nat,
    pub water: nat,
    pub chips: nat,
}

impl View for VendingMachineState {
    type V = StateModel;

    open spec fn view(&self) -> StateModel {
        StateModel {
            owner: self.owner@,
            chocolate: self.chocolate as nat,
            water: self.water as nat,
            chips: self.chips as nat,
        }
    }
}

/// The stock counter of one item kind.
pub open spec fn counter(s: StateModel, item: ItemType) -> nat {
    match item {
        ItemType::Chocolate => s.chocolate,
        ItemType::Water => s.water,
        ItemType::Chips => s.chips,
    }
}

/// The record with the counter of `item` replaced by `n`; everything else,
/// the owner included, is untouched.
pub open spec fn with_counter(s: StateModel, item: ItemType, n: nat) -> StateModel {
    match item {
        ItemType::Chocolate => StateModel { chocolate: n, ..s },
        ItemType::Water => StateModel { water: n, ..s },
        ItemType::Chips => StateModel { chips: n, ..s },
    }
}

/// Dispensing one unit of `item` is possible exactly when its counter is
/// positive.
pub open spec fn can_dispense(s: StateModel, item: ItemType) -> bool {
    counter(s, item) > 0
}

/// One dispense step: decrement the counter of `item` by one when stock is
/// available; leave the record unchanged when it is not.
pub open spec fn spec_dispense(s: StateModel, item: ItemType) -> StateModel {
    if can_dispense(s, item) {
        with_counter(s, item, (counter(s, item) - 1) as nat)
    } else {
        s
    }
}

/// `n` dispense steps of `item` in a row.
pub open spec fn dispense_n(s: StateModel, item: ItemType, n: nat) -> StateModel
    decreases n,
{
    if n == 0 {
        s
    } else {
        spec_dispense(dispense_n(s, item, (n - 1) as nat), item)
    }
}

/// Repeated dispensing drains one unit per step until the counter reaches
/// zero; from then on every further dispense is refused and the record no
/// longer changes at all.
pub proof fn lemma_repeated_dispense(s: StateModel, item: ItemType, n: nat)
    ensures
        counter(dispense_n(s, item, n), item) == if n <= counter(s, item) {
            counter(s, item) - n
        } else {
            0int
        },
        n >= counter(s, item) ==> !can_dispense(dispense_n(s, item, n), item),
        n >= counter(s, item) ==> dispense_n(s, item, n) == dispense_n(
            s,
            item,
            counter(s, item),
        ),
    decreases n,
{
    if n > 0 {
        lemma_repeated_dispense(s, item, (n - 1) as nat);
    }
}

} // verus!
