use vending_machine::contract::{execute, instantiate, query};
use vending_machine::error::ContractError;
use vending_machine::msg::{ExecuteMsg, InstantiateMsg, ItemType, QueryMsg};

#[test]
fn test_initilization() {
    let msg = InstantiateMsg {
        chocolate: 10,
        water: 20,
        chips: 30,
    };
    let (state, res) = instantiate("owner".to_string(), msg);
    assert_eq!(0, res.messages.len());

    assert_eq!(state.chocolate, 10);
    assert_eq!(state.water, 20);
    assert_eq!(state.chips, 30);
    assert_eq!(state.owner.as_str(), "owner");

    assert_eq!(res.attributes.len(), 2);
    assert_eq!(res.attributes[0].key, "method");
    assert_eq!(res.attributes[0].value, "instantiate");
    assert_eq!(res.attributes[1].key, "owner");
    assert_eq!(res.attributes[1].value, "owner");
}

#[test]
fn test_get_item() {
    let msg = InstantiateMsg {
        chocolate: 10,
        water: 20,
        chips: 30,
    };
    let (mut state, _) = instantiate("owner".to_string(), msg);

    let exec_msg = ExecuteMsg::GetItem {
        item_type: ItemType::Chocolate,
    };
    let res = execute(&mut state, "user".to_string(), exec_msg).unwrap();

    assert_eq!(state.chocolate, 9);
    assert_eq!(res.attributes[0].key, "method");
    assert_eq!(res.attributes[0].value, "get_item");
}

#[test]
fn test_get_out_of_stock_item() {
    let msg = InstantiateMsg {
        chocolate: 0,
        water: 0,
        chips: 1,
    };
    let (mut state, _) = instantiate("owner".to_string(), msg);

    let exec_msg = ExecuteMsg::GetItem {
        item_type: ItemType::Chips,
    };
    let res = execute(&mut state, "user".to_string(), exec_msg).unwrap();
    assert_eq!(res.attributes[0].value, "get_item");

    let exec_msg = ExecuteMsg::GetItem {
        item_type: ItemType::Chips,
    };
    let res = execute(&mut state, "user".to_string(), exec_msg);

    match res {
        Err(ContractError::OutOfStock { item_type }) => assert_eq!(item_type, "Chips"),
        _ => panic!("Expected OutOfStock error"),
    }
}

#[test]
fn test_refill() {
    let msg = InstantiateMsg {
        chocolate: 0,
        water: 0,
        chips: 0,
    };
    let (mut state, _) = instantiate("owner".to_string(), msg);

    let exec_msg = ExecuteMsg::Refill {
        chocolate: 10,
        water: 20,
        chips: 30,
    };
    let res = execute(&mut state, "owner".to_string(), exec_msg).unwrap();

    assert_eq!(state.chocolate, 10);
    assert_eq!(state.water, 20);
    assert_eq!(state.chips, 30);

    assert_eq!(res.attributes[0].key, "method");
    assert_eq!(res.attributes[0].value, "refill");
}

#[test]
fn test_refill_non_owner() {
    let msg = InstantiateMsg {
        chocolate: 0,
        water: 0,
        chips: 0,
    };
    let (mut state, _) = instantiate("owner".to_string(), msg);

    let exec_msg = ExecuteMsg::Refill {
        chocolate: 10,
        water: 20,
        chips: 30,
    };
    let res = execute(&mut state, "user".to_string(), exec_msg);

    match res {
        Err(ContractError::Unauthorized {}) => (),
        _ => panic!("Expected Unauthorized error"),
    }
}

#[test]
fn test_refill_with_invalid_amount() {
    let msg = InstantiateMsg {
        chocolate: 10,
        water: 20,
        chips: 30,
    };
    let (mut state, _) = instantiate("owner".to_string(), msg);

    let exec_msg = ExecuteMsg::Refill {
        chocolate: 0,
        water: 0,
        chips: 0,
    };
    let res = execute(&mut state, "owner".to_string(), exec_msg);

    match res {
        Err(ContractError::RefillInvalidAmount {}) => (),
        _ => panic!("Expected Unauthorized error"),
    }
}

#[test]
fn test_query_items_count() {
    let msg = InstantiateMsg {
        chocolate: 10,
        water: 20,
        chips: 30,
    };
    let (state, _) = instantiate("owner".to_string(), msg);

    let items_count = query(&state, QueryMsg::ItemsCount {});

    assert_eq!(items_count.chocolate, 10);
    assert_eq!(items_count.water, 20);
    assert_eq!(items_count.chips, 30);
}
