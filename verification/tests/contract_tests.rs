use counter_contract::contract::handle;
use counter_contract::contract::init;
use counter_contract::contract::query;
use counter_contract::contract::query_count;
use counter_contract::contract::query_owner;
use counter_contract::contract::try_change_owner;
use counter_contract::contract::try_increment;
use counter_contract::contract::try_reset;
use counter_contract::error::ContractError;
use counter_contract::msg::ExecuteMsg;
use counter_contract::msg::InstantiateMsg;
use counter_contract::msg::QueryMsg;
use counter_contract::msg::QueryResponse;
use counter_contract::state::Store;

fn current_count(store: &Store) -> i32 {
    match query_count(store) {
        Ok(resp) => resp.count,
        Err(e) => panic!("expected a count, got {:?}", e),
    }
}

fn current_owner(store: &Store) -> String {
    match query_owner(store) {
        Ok(resp) => resp.owner,
        Err(e) => panic!("expected an owner, got {:?}", e),
    }
}

#[test]
fn init_sets_count_and_owner() {
    let mut store = Store::new();
    let resp = init(&mut store, "alice".to_string(), InstantiateMsg { count: 5 }).unwrap();
    assert_eq!(resp.attributes.len(), 3);
    assert_eq!(resp.attributes[0].key, "method");
    assert_eq!(resp.attributes[0].value, "instantiate");
    assert_eq!(resp.attributes[1].key, "owner");
    assert_eq!(resp.attributes[1].value, "alice");
    assert_eq!(resp.attributes[2].key, "count");
    assert_eq!(resp.attributes[2].value, "5");
    assert_eq!(current_count(&store), 5);
    assert_eq!(current_owner(&store), "alice");
}

#[test]
fn init_with_negative_count() {
    let mut store = Store::new();
    let resp = init(&mut store, "alice".to_string(), InstantiateMsg { count: -7 }).unwrap();
    assert_eq!(resp.attributes[2].value, "-7");
    assert_eq!(current_count(&store), -7);
}

#[test]
fn increments_accumulate() {
    let mut store = Store::new();
    init(&mut store, "alice".to_string(), InstantiateMsg { count: 17 }).unwrap();
    let n: i32 = 3;
    for _ in 0..n {
        let resp = try_increment(&mut store).unwrap();
        assert_eq!(resp.attributes.len(), 1);
        assert_eq!(resp.attributes[0].key, "method");
        assert_eq!(resp.attributes[0].value, "try_increment");
    }
    assert_eq!(current_count(&store), 17 + n);
    assert_eq!(current_owner(&store), "alice");
}

#[test]
fn increment_wraps_at_the_top() {
    let mut store = Store::new();
    init(&mut store, "alice".to_string(), InstantiateMsg { count: i32::MAX }).unwrap();
    try_increment(&mut store).unwrap();
    assert_eq!(current_count(&store), i32::MIN);
}

#[test]
fn reset_by_owner_sets_count() {
    let mut store = Store::new();
    init(&mut store, "alice".to_string(), InstantiateMsg { count: 99 }).unwrap();
    let sender = "alice".to_string();
    let resp = try_reset(&mut store, &sender, 10).unwrap();
    assert_eq!(resp.attributes.len(), 1);
    assert_eq!(resp.attributes[0].key, "method");
    assert_eq!(resp.attributes[0].value, "reset");
    assert_eq!(current_count(&store), 10);
}

#[test]
fn reset_by_non_owner_is_unauthorized() {
    let mut store = Store::new();
    init(&mut store, "alice".to_string(), InstantiateMsg { count: 10 }).unwrap();
    let sender = "bob".to_string();
    let err = try_reset(&mut store, &sender, 1).unwrap_err();
    assert_eq!(err, ContractError::Unauthorized);
    assert_eq!(current_count(&store), 10);
    assert_eq!(current_owner(&store), "alice");
}

#[test]
fn change_owner_moves_authority() {
    let mut store = Store::new();
    init(&mut store, "alice".to_string(), InstantiateMsg { count: 10 }).unwrap();
    let alice = "alice".to_string();
    let bob = "bob".to_string();
    let resp = try_change_owner(&mut store, &alice, "bob".to_string()).unwrap();
    assert_eq!(resp.attributes.len(), 1);
    assert_eq!(resp.attributes[0].key, "method");
    assert_eq!(resp.attributes[0].value, "try_change_owner");
    assert_eq!(current_owner(&store), "bob");
    let err = try_reset(&mut store, &alice, 1).unwrap_err();
    assert_eq!(err, ContractError::Unauthorized);
    assert_eq!(current_count(&store), 10);
    try_reset(&mut store, &bob, 1).unwrap();
    assert_eq!(current_count(&store), 1);
}

#[test]
fn change_owner_by_non_owner_is_unauthorized() {
    let mut store = Store::new();
    init(&mut store, "alice".to_string(), InstantiateMsg { count: 10 }).unwrap();
    let mallory = "mallory".to_string();
    let err = try_change_owner(&mut store, &mallory, "mallory".to_string()).unwrap_err();
    assert_eq!(err, ContractError::Unauthorized);
    assert_eq!(current_owner(&store), "alice");
}

#[test]
fn queries_before_init_fail_with_not_found() {
    let store = Store::new();
    assert_eq!(query_count(&store).unwrap_err(), ContractError::NotFound);
    assert_eq!(query_owner(&store).unwrap_err(), ContractError::NotFound);
    assert_eq!(
        query(&store, QueryMsg::GetCount).unwrap_err(),
        ContractError::NotFound
    );
    assert_eq!(
        query(&store, QueryMsg::GetOwner).unwrap_err(),
        ContractError::NotFound
    );
}

#[test]
fn execute_before_init_fails_with_not_found() {
    let mut store = Store::new();
    let sender = "alice".to_string();
    let err = handle(&mut store, &sender, ExecuteMsg::Increment).unwrap_err();
    assert_eq!(err, ContractError::NotFound);
    let err = handle(&mut store, &sender, ExecuteMsg::Reset { count: 3 }).unwrap_err();
    assert_eq!(err, ContractError::NotFound);
}

#[test]
fn handle_dispatches_each_operation() {
    let mut store = Store::new();
    init(&mut store, "alice".to_string(), InstantiateMsg { count: 0 }).unwrap();
    let alice = "alice".to_string();
    let bob = "bob".to_string();
    let resp = handle(&mut store, &alice, ExecuteMsg::Increment).unwrap();
    assert_eq!(resp.attributes[0].value, "try_increment");
    assert_eq!(current_count(&store), 1);
    let resp = handle(&mut store, &alice, ExecuteMsg::Reset { count: 41 }).unwrap();
    assert_eq!(resp.attributes[0].value, "reset");
    assert_eq!(current_count(&store), 41);
    let resp = handle(
        &mut store,
        &alice,
        ExecuteMsg::ChangeOwner {
            new_owner: "bob".to_string(),
        },
    )
    .unwrap();
    assert_eq!(resp.attributes[0].value, "try_change_owner");
    assert_eq!(current_owner(&store), "bob");
    let err = handle(&mut store, &alice, ExecuteMsg::Reset { count: 0 }).unwrap_err();
    assert_eq!(err, ContractError::Unauthorized);
    handle(&mut store, &bob, ExecuteMsg::Reset { count: 0 }).unwrap();
    assert_eq!(current_count(&store), 0);
}

#[test]
fn query_dispatches_each_question() {
    let mut store = Store::new();
    init(&mut store, "alice".to_string(), InstantiateMsg { count: 5 }).unwrap();
    match query(&store, QueryMsg::GetCount).unwrap() {
        QueryResponse::Count(resp) => assert_eq!(resp.count, 5),
        QueryResponse::Owner(_) => panic!("expected a count"),
    }
    match query(&store, QueryMsg::GetOwner).unwrap() {
        QueryResponse::Owner(resp) => assert_eq!(resp.owner, "alice"),
        QueryResponse::Count(_) => panic!("expected an owner"),
    }
}

#[test]
fn full_scenario() {
    let mut store = Store::new();
    let a = "addr_a".to_string();
    let b = "addr_b".to_string();
    init(&mut store, "addr_a".to_string(), InstantiateMsg { count: 5 }).unwrap();
    assert_eq!(current_count(&store), 5);
    assert_eq!(current_owner(&store), "addr_a");
    try_increment(&mut store).unwrap();
    assert_eq!(current_count(&store), 6);
    try_reset(&mut store, &a, 10).unwrap();
    assert_eq!(current_count(&store), 10);
    let err = try_reset(&mut store, &b, 1).unwrap_err();
    assert_eq!(err, ContractError::Unauthorized);
    assert_eq!(current_count(&store), 10);
    try_change_owner(&mut store, &a, "addr_b".to_string()).unwrap();
    assert_eq!(current_owner(&store), "addr_b");
    try_reset(&mut store, &b, 1).unwrap();
    assert_eq!(current_count(&store), 1);
}

#[test]
fn init_overwrites_an_existing_record() {
    let mut store = Store::new();
    init(&mut store, "alice".to_string(), InstantiateMsg { count: 1 }).unwrap();
    init(&mut store, "bob".to_string(), InstantiateMsg { count: 2 }).unwrap();
    assert_eq!(current_count(&store), 2);
    assert_eq!(current_owner(&store), "bob");
}

#[test]
fn store_record_reflects_contents() {
    let mut store = Store::new();
    assert!(store.record().is_none());
    init(&mut store, "alice".to_string(), InstantiateMsg { count: 4 }).unwrap();
    match store.record() {
        Some(state) => {
            assert_eq!(state.count, 4);
            assert_eq!(state.owner, "alice");
        }
        None => panic!("expected a record"),
    }
}
