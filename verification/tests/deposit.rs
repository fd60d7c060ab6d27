use robet::cw20::transfer_from_payload;
use robet::deposit::{route_cw20, route_native, sent_amount, DepositRecord};
use robet::error::ContractError;
use robet::msg::MessageInfo;
use robet::response::{Attribute, BankMsg, Coin, CosmosMsg, WasmMsg};
use robet::state::Config;
use robet::token::{classify, is_native_denom, TokenType};

fn config_with(whitelist: &[&str]) -> Config {
    Config {
        owner: "owner".to_string(),
        admin_wallet: "W".to_string(),
        whitelist: whitelist.iter().map(|t| t.to_string()).collect(),
    }
}

fn coin(amount: u128, denom: &str) -> Coin {
    Coin { denom: denom.to_string(), amount }
}

#[test]
fn denominations_are_told_by_their_spelling() {
    assert!(is_native_denom("uxion"));
    assert!(is_native_denom("u"));
    assert!(is_native_denom("ibc/27394FB092D2ECCD56123C74F36E4C1F926001CEADA9CA97EA622B25F41E5EB2"));
    assert!(is_native_denom("factory/ibc/x"));
    assert!(is_native_denom("xibc/"));
    assert!(is_native_denom("usdc-contract"));
    assert!(!is_native_denom(""));
    assert!(!is_native_denom("contractX"));
    assert!(!is_native_denom("Uxion"));
    assert!(!is_native_denom("xion"));
    assert!(!is_native_denom("wasm1u"));
    assert!(!is_native_denom("ibc"));
    assert!(!is_native_denom("ib/c/"));
    assert!(!is_native_denom("IBC/ABC"));
}

#[test]
fn denominations_are_told_as_the_standard_library_tells_them() {
    let samples = [
        "", "u", "U", "uxion", "xion", "ibc/", "ibc", "/ibc/", "aibc/b", "ib", "iibc/", "ibibc/",
        "ibc/u", "wasm1abc", "contractX", "ünative", "uü", "ibc-/", "i b c /", "xibc", "c/ibc/",
    ];
    for s in samples {
        assert_eq!(is_native_denom(s), s.starts_with("u") || s.contains("ibc/"), "{s:?}");
    }
}

#[test]
fn classify_names_the_path() {
    assert_eq!(classify("uxion"), TokenType::Native);
    assert_eq!(classify("contractX"), TokenType::Cw20);
    assert_eq!(TokenType::Native.as_str(), "native");
    assert_eq!(TokenType::Cw20.as_str(), "cw20");
}

#[test]
fn sent_amount_is_that_of_the_first_coin_of_the_denomination() {
    let funds = vec![coin(7, "uBBB"), coin(1000, "uAAA"), coin(5, "uAAA")];
    assert_eq!(sent_amount(&funds, &"uAAA".to_string()), 1000);
    assert_eq!(sent_amount(&funds, &"uBBB".to_string()), 7);
    assert_eq!(sent_amount(&funds, &"uCCC".to_string()), 0);
    assert_eq!(sent_amount(&vec![], &"uAAA".to_string()), 0);
    assert_eq!(sent_amount(&vec![coin(u128::MAX, "uAAA")], &"uAAA".to_string()), u128::MAX);
}

#[test]
fn route_native_orders_the_bank_and_writes_the_record() {
    let config = config_with(&[]);
    let info = MessageInfo { sender: "sender".to_string(), funds: vec![coin(1000, "uAAA")] };
    let (msg, record) = route_native(&config, 42, &info, "uAAA".to_string(), 1000).unwrap();
    assert_eq!(
        msg,
        CosmosMsg::Bank(BankMsg::Send {
            to_address: "W".to_string(),
            amount: vec![coin(1000, "uAAA")],
        })
    );
    assert_eq!(
        record,
        DepositRecord {
            sender: "sender".to_string(),
            amount: 1000,
            token_address: "uAAA".to_string(),
            token_type: TokenType::Native,
            timestamp: 42,
            destination: "W".to_string(),
        }
    );
}

#[test]
fn route_native_checks_the_mismatch_before_the_zero() {
    let config = config_with(&[]);
    let nothing = MessageInfo { sender: "sender".to_string(), funds: vec![] };
    assert_eq!(
        route_native(&config, 42, &nothing, "uAAA".to_string(), 1),
        Err(ContractError::FundMismatch { sent: 0, requested: 1 })
    );
    assert_eq!(
        route_native(&config, 42, &nothing, "uAAA".to_string(), 0),
        Err(ContractError::NoFundsSent)
    );
}

#[test]
fn route_cw20_checks_the_whitelist_before_the_payload() {
    let sender = "sender".to_string();
    let unlisted = config_with(&["contractY"]);
    assert_eq!(
        route_cw20(&unlisted, 42, &sender, "contractX".to_string(), 500, None),
        Err(ContractError::NotWhitelisted)
    );
    assert_eq!(
        route_cw20(&unlisted, 42, &sender, "contractX".to_string(), 500, Some(vec![1, 2, 3])),
        Err(ContractError::NotWhitelisted)
    );
    let listed = config_with(&["contractY", "contractX"]);
    assert_eq!(
        route_cw20(&listed, 42, &sender, "contractX".to_string(), 500, None),
        Err(ContractError::Serialization)
    );
}

#[test]
fn route_cw20_calls_the_token_contract_with_the_payload() {
    let sender = "sender".to_string();
    let listed = config_with(&["contractX"]);
    let (msg, record) =
        route_cw20(&listed, 42, &sender, "contractX".to_string(), 500, Some(vec![1, 2, 3]))
            .unwrap();
    assert_eq!(
        msg,
        CosmosMsg::Wasm(WasmMsg::Execute {
            contract_addr: "contractX".to_string(),
            msg: vec![1, 2, 3],
            funds: vec![],
        })
    );
    assert_eq!(
        record,
        DepositRecord {
            sender: "sender".to_string(),
            amount: 500,
            token_address: "contractX".to_string(),
            token_type: TokenType::Cw20,
            timestamp: 42,
            destination: "W".to_string(),
        }
    );
}

#[test]
fn record_is_logged_as_a_deposit_token_event() {
    let record = DepositRecord {
        sender: "sender".to_string(),
        amount: 340_282_366_920_938_463_463_374_607_431_768_211_455,
        token_address: "contractX".to_string(),
        token_type: TokenType::Cw20,
        timestamp: 18_446_744_073_709_551_615,
        destination: "W".to_string(),
    };
    let event = record.to_event();
    assert_eq!(event.ty, "deposit_token");
    let expected = [
        ("user", "sender"),
        ("amount", "340282366920938463463374607431768211455"),
        ("token_address", "contractX"),
        ("token_type", "cw20"),
        ("timestamp", "18446744073709551615"),
        ("destination", "W"),
    ];
    let expected: Vec<Attribute> = expected
        .iter()
        .map(|(k, v)| Attribute { key: k.to_string(), value: v.to_string() })
        .collect();
    assert_eq!(event.attributes, expected);
}

#[test]
fn payload_is_the_json_of_a_transfer_from() {
    let payload = transfer_from_payload("sender", "W", 500).unwrap();
    assert_eq!(
        payload,
        br#"{"transfer_from":{"owner":"sender","recipient":"W","amount":"500"}}"#.to_vec()
    );
}

#[test]
fn payload_is_what_the_token_contract_reads_back() {
    let payload = transfer_from_payload("alice \"a\"", "bob\\b", u128::MAX).unwrap();
    let msg: cw20_base::msg::ExecuteMsg = cosmwasm_std::from_json(&payload).unwrap();
    assert_eq!(
        msg,
        cw20_base::msg::ExecuteMsg::TransferFrom {
            owner: "alice \"a\"".to_string(),
            recipient: "bob\\b".to_string(),
            amount: cosmwasm_std::Uint128::MAX,
        }
    );
}

#[test]
fn payload_depends_on_each_field() {
    let base = transfer_from_payload("sender", "W", 500);
    assert_eq!(base, transfer_from_payload("sender", "W", 500));
    assert_ne!(base, transfer_from_payload("other", "W", 500));
    assert_ne!(base, transfer_from_payload("sender", "V", 500));
    assert_ne!(base, transfer_from_payload("sender", "W", 501));
}
