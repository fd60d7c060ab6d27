use cosmwasm_std::Api;
use robet::contract::{
    execute, execute_add_whitelisted_token, execute_deposit_token,
    execute_remove_whitelisted_token, execute_update_config, instantiate, query,
};
use robet::error::ContractError;
use robet::msg::{BlockInfo, Env, ExecuteMsg, InstantiateMsg, MessageInfo, QueryMsg, Timestamp};
use robet::response::{Attribute, BankMsg, Coin, CosmosMsg, Event, WasmMsg};
use robet::state::{Config, ConfigStore};

fn env_at(nanos: u64) -> Env {
    Env { block: BlockInfo { time: Timestamp::from_nanos(nanos) } }
}

fn env() -> Env {
    env_at(1_571_797_419_879_305_533)
}

fn caller(sender: &str) -> MessageInfo {
    MessageInfo { sender: sender.to_string(), funds: vec![] }
}

fn caller_with(sender: &str, amount: u128, denom: &str) -> MessageInfo {
    MessageInfo {
        sender: sender.to_string(),
        funds: vec![Coin { denom: denom.to_string(), amount }],
    }
}

fn checked(address: &str) -> Option<String> {
    Some(address.to_string())
}

fn attr(key: &str, value: &str) -> Attribute {
    Attribute { key: key.to_string(), value: value.to_string() }
}

/// A store instantiated by `owner` with `W` as admin wallet.
fn fresh_store() -> ConfigStore {
    let mut store = ConfigStore::new();
    instantiate(
        &mut store,
        env(),
        caller("owner"),
        InstantiateMsg { admin_wallet: "W".to_string() },
        checked("W"),
    )
    .unwrap();
    store
}

fn deposit(
    store: &ConfigStore,
    info: MessageInfo,
    token: &str,
    amount: u128,
) -> Result<robet::response::Response, ContractError> {
    execute_deposit_token(store, env(), info, token.to_string(), amount, checked(token))
}

#[test]
fn test_native_token_detection() {
    println!("testing native token detection with uxion");
    let env = env_at(cosmwasm_std::testing::mock_env().block.time.nanos());

    // Set up contract config
    let config = Config {
        owner: "owner".to_string(),
        admin_wallet: "admin_wallet".to_string(),
        whitelist: vec![],
    };
    let store = ConfigStore { config: Some(config) };

    // Test "uxion" as token_address
    let amount: u128 = 1000;
    let info = MessageInfo {
        sender: "sender".to_string(),
        funds: vec![Coin { denom: "uxion".to_string(), amount: 1000 }],
    };

    let result =
        execute_deposit_token(&store, env, info, "uxion".to_string(), amount, None).unwrap();

    // Verify it was treated as a native token by checking for a bank message
    assert_eq!(result.messages.len(), 1);
    match &result.messages[0] {
        CosmosMsg::Bank(BankMsg::Send { to_address, amount: send_amount }) => {
            assert_eq!(to_address, "admin_wallet");
            assert_eq!(send_amount.len(), 1);
            assert_eq!(send_amount[0].denom, "uxion");
            assert_eq!(send_amount[0].amount, amount);
        }
        _ => panic!("Expected Bank message, got something else"),
    }

    // Check event attributes that indicate it was treated as native
    let deposit_event = result.events.iter().find(|e| e.ty == "deposit_token").unwrap();
    let token_type = deposit_event.attributes.iter().find(|attr| attr.key == "token_type").unwrap();
    assert_eq!(token_type.value, "native");
}

#[test]
fn instantiate_creates_the_config_and_logs_it() {
    let mut store = ConfigStore::new();
    let response = instantiate(
        &mut store,
        env(),
        caller("owner"),
        InstantiateMsg { admin_wallet: "W".to_string() },
        checked("W"),
    )
    .unwrap();
    assert!(response.messages.is_empty());
    assert_eq!(
        response.events,
        vec![Event {
            ty: "instantiate".to_string(),
            attributes: vec![attr("owner", "owner"), attr("admin_wallet", "W")],
        }]
    );
    assert_eq!(
        store.config,
        Some(Config {
            owner: "owner".to_string(),
            admin_wallet: "W".to_string(),
            whitelist: vec![],
        })
    );
}

#[test]
fn instantiate_twice_is_already_initialized() {
    let mut store = fresh_store();
    let before = store.config.clone();
    let second = instantiate(
        &mut store,
        env(),
        caller("intruder"),
        InstantiateMsg { admin_wallet: "V".to_string() },
        checked("V"),
    );
    assert_eq!(second, Err(ContractError::AlreadyInitialized));
    assert_eq!(store.config, before);
}

#[test]
fn instantiate_with_a_rejected_wallet_is_invalid_identity() {
    let mut store = ConfigStore::new();
    let r = instantiate(
        &mut store,
        env(),
        caller("owner"),
        InstantiateMsg { admin_wallet: "??".to_string() },
        None,
    );
    assert_eq!(r, Err(ContractError::InvalidIdentity));
    assert_eq!(store.config, None);
}

#[test]
fn every_call_on_an_empty_store_is_uninitialized() {
    let mut store = ConfigStore::new();
    let add = execute_add_whitelisted_token(
        &mut store,
        caller("owner"),
        "contractX".to_string(),
        checked("contractX"),
    );
    assert_eq!(add, Err(ContractError::Uninitialized));
    let remove = execute_remove_whitelisted_token(
        &mut store,
        caller("owner"),
        "contractX".to_string(),
        checked("contractX"),
    );
    assert_eq!(remove, Err(ContractError::Uninitialized));
    let update =
        execute_update_config(&mut store, caller("owner"), "V".to_string(), checked("V"));
    assert_eq!(update, Err(ContractError::Uninitialized));
    let deposit = deposit(&store, caller_with("sender", 5, "uAAA"), "uAAA", 5);
    assert_eq!(deposit, Err(ContractError::Uninitialized));
    assert_eq!(query(&store, env(), QueryMsg::GetConfig {}), Err(ContractError::Uninitialized));
    assert_eq!(store.config, None);
}

#[test]
fn add_twice_is_add_once() {
    let mut once = fresh_store();
    execute_add_whitelisted_token(
        &mut once,
        caller("owner"),
        "contractX".to_string(),
        checked("contractX"),
    )
    .unwrap();

    let mut twice = fresh_store();
    let first = execute_add_whitelisted_token(
        &mut twice,
        caller("owner"),
        "contractX".to_string(),
        checked("contractX"),
    );
    let second = execute_add_whitelisted_token(
        &mut twice,
        caller("owner"),
        "contractX".to_string(),
        checked("contractX"),
    );
    assert_eq!(second, first);
    assert_eq!(
        second.unwrap().events,
        vec![Event {
            ty: "add_whitelisted_token".to_string(),
            attributes: vec![attr("token_address", "contractX")],
        }]
    );
    assert_eq!(twice, once);
    assert_eq!(twice.config.unwrap().whitelist, vec!["contractX".to_string()]);
}

#[test]
fn remove_of_an_absent_token_succeeds_and_changes_nothing() {
    let mut store = fresh_store();
    execute_add_whitelisted_token(
        &mut store,
        caller("owner"),
        "contractX".to_string(),
        checked("contractX"),
    )
    .unwrap();
    let before = store.config.clone();
    let response = execute_remove_whitelisted_token(
        &mut store,
        caller("owner"),
        "contractY".to_string(),
        checked("contractY"),
    )
    .unwrap();
    assert_eq!(
        response.events,
        vec![Event {
            ty: "remove_whitelisted_token".to_string(),
            attributes: vec![attr("token_address", "contractY")],
        }]
    );
    assert_eq!(store.config, before);
}

#[test]
fn remove_keeps_the_order_of_the_others() {
    let mut store = fresh_store();
    for token in ["a-token", "b-token", "c-token"] {
        execute_add_whitelisted_token(
            &mut store,
            caller("owner"),
            token.to_string(),
            checked(token),
        )
        .unwrap();
    }
    execute_remove_whitelisted_token(
        &mut store,
        caller("owner"),
        "b-token".to_string(),
        checked("b-token"),
    )
    .unwrap();
    assert_eq!(
        store.config.unwrap().whitelist,
        vec!["a-token".to_string(), "c-token".to_string()]
    );
}

#[test]
fn the_whitelist_takes_the_checked_address_and_the_event_the_spelling() {
    let mut store = fresh_store();
    let response = execute_add_whitelisted_token(
        &mut store,
        caller("owner"),
        "as-typed".to_string(),
        checked("as-checked"),
    )
    .unwrap();
    assert_eq!(response.events[0].attributes, vec![attr("token_address", "as-typed")]);
    assert_eq!(store.config.unwrap().whitelist, vec!["as-checked".to_string()]);
}

#[test]
fn a_stranger_is_unauthorized_and_changes_nothing() {
    let mut store = fresh_store();
    execute_add_whitelisted_token(
        &mut store,
        caller("owner"),
        "contractX".to_string(),
        checked("contractX"),
    )
    .unwrap();
    let before = store.config.clone();

    let add = execute_add_whitelisted_token(
        &mut store,
        caller("stranger"),
        "contractY".to_string(),
        checked("contractY"),
    );
    assert_eq!(add, Err(ContractError::Unauthorized));
    let remove = execute_remove_whitelisted_token(
        &mut store,
        caller("stranger"),
        "contractX".to_string(),
        checked("contractX"),
    );
    assert_eq!(remove, Err(ContractError::Unauthorized));
    let update =
        execute_update_config(&mut store, caller("stranger"), "V".to_string(), checked("V"));
    assert_eq!(update, Err(ContractError::Unauthorized));
    assert_eq!(store.config, before);
}

#[test]
fn a_stranger_with_a_rejected_address_is_still_unauthorized() {
    let mut store = fresh_store();
    let add = execute_add_whitelisted_token(
        &mut store,
        caller("stranger"),
        "??".to_string(),
        None,
    );
    assert_eq!(add, Err(ContractError::Unauthorized));
}

#[test]
fn the_owner_cannot_store_a_rejected_address() {
    let mut store = fresh_store();
    let before = store.config.clone();
    let add =
        execute_add_whitelisted_token(&mut store, caller("owner"), "??".to_string(), None);
    assert_eq!(add, Err(ContractError::InvalidIdentity));
    let update = execute_update_config(&mut store, caller("owner"), "??".to_string(), None);
    assert_eq!(update, Err(ContractError::InvalidIdentity));
    assert_eq!(store.config, before);
}

#[test]
fn remove_of_a_rejected_address_succeeds_and_changes_nothing() {
    let mut store = fresh_store();
    execute_add_whitelisted_token(
        &mut store,
        caller("owner"),
        "contractX".to_string(),
        checked("contractX"),
    )
    .unwrap();
    let before = store.config.clone();
    let response =
        execute_remove_whitelisted_token(&mut store, caller("owner"), "??".to_string(), None)
            .unwrap();
    assert!(response.messages.is_empty());
    assert_eq!(
        response.events,
        vec![Event {
            ty: "remove_whitelisted_token".to_string(),
            attributes: vec![attr("token_address", "??")],
        }]
    );
    assert_eq!(store.config, before);

    // the spelling of a listed token does not remove it either: only a checked address does
    let response = execute_remove_whitelisted_token(
        &mut store,
        caller("owner"),
        "contractX".to_string(),
        None,
    );
    assert!(response.is_ok());
    assert_eq!(store.config, before);
}

#[test]
fn remove_by_a_stranger_with_a_rejected_address_is_unauthorized() {
    let mut store = fresh_store();
    let before = store.config.clone();
    let remove =
        execute_remove_whitelisted_token(&mut store, caller("stranger"), "??".to_string(), None);
    assert_eq!(remove, Err(ContractError::Unauthorized));
    assert_eq!(store.config, before);
}

#[test]
fn update_config_replaces_the_admin_wallet_and_logs_both() {
    let mut store = fresh_store();
    let response =
        execute_update_config(&mut store, caller("owner"), "V".to_string(), checked("V"))
            .unwrap();
    assert!(response.messages.is_empty());
    assert_eq!(
        response.events,
        vec![Event {
            ty: "update_config".to_string(),
            attributes: vec![attr("old_admin_wallet", "W"), attr("new_admin_wallet", "V")],
        }]
    );
    let config = store.config.unwrap();
    assert_eq!(config.admin_wallet, "V");
    assert_eq!(config.owner, "owner");
}

#[test]
fn native_deposit_with_other_funds_than_named_is_a_mismatch() {
    let store = fresh_store();
    let under = deposit(&store, caller_with("sender", 999, "uAAA"), "uAAA", 1000);
    assert_eq!(under, Err(ContractError::FundMismatch { sent: 999, requested: 1000 }));
    let over = deposit(&store, caller_with("sender", 1001, "uAAA"), "uAAA", 1000);
    assert_eq!(over, Err(ContractError::FundMismatch { sent: 1001, requested: 1000 }));
    let none = deposit(&store, caller("sender"), "uAAA", 1000);
    assert_eq!(none, Err(ContractError::FundMismatch { sent: 0, requested: 1000 }));
    let other = deposit(&store, caller_with("sender", 1000, "uBBB"), "uAAA", 1000);
    assert_eq!(other, Err(ContractError::FundMismatch { sent: 0, requested: 1000 }));
}

#[test]
fn native_deposit_of_nothing_is_no_funds_sent() {
    let store = fresh_store();
    let nothing = deposit(&store, caller("sender"), "uAAA", 0);
    assert_eq!(nothing, Err(ContractError::NoFundsSent));
    let zero_coin = deposit(&store, caller_with("sender", 0, "uAAA"), "uAAA", 0);
    assert_eq!(zero_coin, Err(ContractError::NoFundsSent));
}

#[test]
fn native_deposit_goes_by_the_first_coin_of_the_denomination() {
    let store = fresh_store();
    let info = MessageInfo {
        sender: "sender".to_string(),
        funds: vec![
            Coin { denom: "uBBB".to_string(), amount: 7 },
            Coin { denom: "uAAA".to_string(), amount: 1000 },
            Coin { denom: "uAAA".to_string(), amount: 5 },
        ],
    };
    assert!(deposit(&store, info.clone(), "uAAA", 1000).is_ok());
    assert_eq!(
        deposit(&store, info, "uAAA", 5),
        Err(ContractError::FundMismatch { sent: 1000, requested: 5 })
    );
}

#[test]
fn native_deposit_needs_no_whitelist_entry_and_no_valid_address() {
    let store = fresh_store();
    let r = execute_deposit_token(
        &store,
        env(),
        caller_with("sender", 3, "ibc/27394FB092D2ECCD"),
        "ibc/27394FB092D2ECCD".to_string(),
        3,
        None,
    )
    .unwrap();
    assert_eq!(
        r.messages,
        vec![CosmosMsg::Bank(BankMsg::Send {
            to_address: "W".to_string(),
            amount: vec![Coin { denom: "ibc/27394FB092D2ECCD".to_string(), amount: 3 }],
        })]
    );
}

#[test]
fn scenario_native_deposit() {
    let store = fresh_store();
    let response = deposit(&store, caller_with("sender", 1000, "uAAA"), "uAAA", 1000).unwrap();
    assert_eq!(
        response.messages,
        vec![CosmosMsg::Bank(BankMsg::Send {
            to_address: "W".to_string(),
            amount: vec![Coin { denom: "uAAA".to_string(), amount: 1000 }],
        })]
    );
    assert_eq!(
        response.events,
        vec![Event {
            ty: "deposit_token".to_string(),
            attributes: vec![
                attr("user", "sender"),
                attr("amount", "1000"),
                attr("token_address", "uAAA"),
                attr("token_type", "native"),
                attr("timestamp", "1571797419"),
                attr("destination", "W"),
            ],
        }]
    );
}

#[test]
fn scenario_token_deposit_needs_the_whitelist() {
    let mut store = fresh_store();
    let refused = deposit(&store, caller("sender"), "contractX", 500);
    assert_eq!(refused, Err(ContractError::NotWhitelisted));

    execute(
        &mut store,
        env(),
        caller("owner"),
        ExecuteMsg::AddWhitelistedToken { token_address: "contractX".to_string() },
        checked("contractX"),
    )
    .unwrap();

    let response = deposit(&store, caller("sender"), "contractX", 500).unwrap();
    assert_eq!(
        response.messages,
        vec![CosmosMsg::Wasm(WasmMsg::Execute {
            contract_addr: "contractX".to_string(),
            msg: br#"{"transfer_from":{"owner":"sender","recipient":"W","amount":"500"}}"#
                .to_vec(),
            funds: vec![],
        })]
    );
    assert_eq!(
        response.events,
        vec![Event {
            ty: "deposit_token".to_string(),
            attributes: vec![
                attr("user", "sender"),
                attr("amount", "500"),
                attr("token_address", "contractX"),
                attr("token_type", "cw20"),
                attr("timestamp", "1571797419"),
                attr("destination", "W"),
            ],
        }]
    );

    execute(
        &mut store,
        env(),
        caller("owner"),
        ExecuteMsg::RemoveWhitelistedToken { token_address: "contractX".to_string() },
        checked("contractX"),
    )
    .unwrap();
    let again = deposit(&store, caller("sender"), "contractX", 500);
    assert_eq!(again, Err(ContractError::NotWhitelisted));
}

#[test]
fn scenario_stranger_cannot_add() {
    let mut store = fresh_store();
    let before = query(&store, env(), QueryMsg::GetConfig {}).unwrap();
    let r = execute(
        &mut store,
        env(),
        caller("stranger"),
        ExecuteMsg::AddWhitelistedToken { token_address: "contractX".to_string() },
        checked("contractX"),
    );
    assert_eq!(r, Err(ContractError::Unauthorized));
    let after = query(&store, env(), QueryMsg::GetConfig {}).unwrap();
    assert_eq!(after, before);
    assert!(after.whitelist.is_empty());
}

#[test]
fn token_deposit_with_a_rejected_address_is_not_whitelisted() {
    let mut store = fresh_store();
    let r = execute_deposit_token(
        &store,
        env(),
        caller("sender"),
        "contractX".to_string(),
        500,
        None,
    );
    assert_eq!(r, Err(ContractError::NotWhitelisted));

    // whatever is listed, and whatever funds came along
    execute_add_whitelisted_token(
        &mut store,
        caller("owner"),
        "contractX".to_string(),
        checked("contractX"),
    )
    .unwrap();
    let before = store.config.clone();
    let r = execute_deposit_token(
        &store,
        env(),
        caller_with("sender", 500, "contractX"),
        "contractX".to_string(),
        500,
        None,
    );
    assert_eq!(r, Err(ContractError::NotWhitelisted));
    assert_eq!(store.config, before);
}

#[test]
fn token_deposit_ignores_attached_funds() {
    let mut store = fresh_store();
    execute_add_whitelisted_token(
        &mut store,
        caller("owner"),
        "contractX".to_string(),
        checked("contractX"),
    )
    .unwrap();
    let r = deposit(&store, caller_with("sender", 9, "uAAA"), "contractX", 500).unwrap();
    match &r.messages[0] {
        CosmosMsg::Wasm(WasmMsg::Execute { funds, .. }) => assert!(funds.is_empty()),
        _ => panic!("expected a call to the token contract"),
    }
}

#[test]
fn a_contract_that_looks_native_is_taken_for_native() {
    let mut store = fresh_store();
    execute_add_whitelisted_token(
        &mut store,
        caller("owner"),
        "usdc-contract".to_string(),
        checked("usdc-contract"),
    )
    .unwrap();
    let r = deposit(&store, caller("sender"), "usdc-contract", 500);
    assert_eq!(r, Err(ContractError::FundMismatch { sent: 0, requested: 500 }));
}

#[test]
fn query_shows_the_net_effect_of_the_calls() {
    let mut store = fresh_store();
    let calls = vec![
        (ExecuteMsg::AddWhitelistedToken { token_address: "t1".to_string() }, "t1"),
        (ExecuteMsg::AddWhitelistedToken { token_address: "t2".to_string() }, "t2"),
        (ExecuteMsg::UpdateConfig { new_admin_wallet: "V1".to_string() }, "V1"),
        (ExecuteMsg::RemoveWhitelistedToken { token_address: "t1".to_string() }, "t1"),
        (ExecuteMsg::AddWhitelistedToken { token_address: "t3".to_string() }, "t3"),
        (ExecuteMsg::AddWhitelistedToken { token_address: "t2".to_string() }, "t2"),
        (ExecuteMsg::UpdateConfig { new_admin_wallet: "V2".to_string() }, "V2"),
        (ExecuteMsg::RemoveWhitelistedToken { token_address: "t9".to_string() }, "t9"),
    ];
    for (msg, address) in calls {
        execute(&mut store, env(), caller("owner"), msg, checked(address)).unwrap();
    }
    // a removal that names a rejected address is accepted and takes nothing away
    execute(
        &mut store,
        env(),
        caller("owner"),
        ExecuteMsg::RemoveWhitelistedToken { token_address: "t2".to_string() },
        None,
    )
    .unwrap();
    let config = query(&store, env(), QueryMsg::GetConfig {}).unwrap();
    assert_eq!(
        config,
        Config {
            owner: "owner".to_string(),
            admin_wallet: "V2".to_string(),
            whitelist: vec!["t2".to_string(), "t3".to_string()],
        }
    );
}

#[test]
fn execute_deposits_like_the_function_it_dispatches_to() {
    let mut store = fresh_store();
    let through = execute(
        &mut store,
        env(),
        caller_with("sender", 12, "uAAA"),
        ExecuteMsg::DepositToken { token_address: "uAAA".to_string(), amount: 12 },
        None,
    );
    let direct = execute_deposit_token(
        &store,
        env(),
        caller_with("sender", 12, "uAAA"),
        "uAAA".to_string(),
        12,
        None,
    );
    assert!(through.is_ok());
    assert_eq!(through, direct);
}

#[test]
fn addresses_checked_by_the_mock_api_drive_the_gate() {
    let api = cosmwasm_std::testing::MockApi::default();
    let check = |address: &str| api.addr_validate(address).ok().map(|a| a.into_string());

    let mut store = ConfigStore::new();
    instantiate(
        &mut store,
        env(),
        caller("owner"),
        InstantiateMsg { admin_wallet: "admin_wallet".to_string() },
        check("admin_wallet"),
    )
    .unwrap();

    // the mock accepts lower case of three characters and more
    let refused = execute_add_whitelisted_token(
        &mut store,
        caller("owner"),
        "contractX".to_string(),
        check("contractX"),
    );
    assert_eq!(refused, Err(ContractError::InvalidIdentity));
    execute_add_whitelisted_token(
        &mut store,
        caller("owner"),
        "tokencontract".to_string(),
        check("tokencontract"),
    )
    .unwrap();
    let r = execute_deposit_token(
        &store,
        env(),
        caller("sender"),
        "tokencontract".to_string(),
        500,
        check("tokencontract"),
    );
    assert!(r.is_ok());
    let r = execute_deposit_token(
        &store,
        env(),
        caller("sender"),
        "contractX".to_string(),
        500,
        check("contractX"),
    );
    assert_eq!(r, Err(ContractError::NotWhitelisted));
}
