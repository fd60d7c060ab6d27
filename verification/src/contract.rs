//! The entry points. Each takes the store, what the host knows of the call, and,
//! where the message names an address, what the host's address check made of
//! it: `Some` with the checked address, or `None` if the check turned it down.
//!
//! An address that is to be stored must have passed the check: creating the
//! configuration, adding a token and naming an admin wallet fail with
//! `InvalidIdentity` without it. Removing a token and depositing store
//! nothing; there a rejected address is simply one that is not listed.

use vstd::prelude::*;
use crate::cw20::{transfer_from_json, transfer_from_payload};
use crate::deposit::{
    route_cw20, route_native, spec_route_cw20, spec_route_native, DepositRecordView,
};
use crate::error::ContractError;
use crate::msg::{Env, ExecuteMsg, InstantiateMsg, MessageInfo, QueryMsg};
use crate::response::{coins, CoinView, CosmosMsgView, Event, EventView, Response, ResponseView};
use crate::state::{spec_create, Config, ConfigStore, ConfigView};
use crate::text::opt_text;
use crate::token::{is_native_denom, spec_is_native_denom};

verus! {

/// Where a call leaves the store, and what it answers.
pub struct Outcome {
    pub store: Option<ConfigView>,
    pub result: Result<ResponseView, ContractError>,
}

/// The outcome of a call that left `store` behind and returned `r`.
pub open spec fn outcome(store: Option<ConfigView>, r: Result<Response, ContractError>) -> Outcome {
    Outcome {
        store,
        result: match r {
            Ok(response) => Ok(response@),
            Err(e) => Err(e),
        },
    }
}

/// A call turned down for `reason`: the store stays as it was.
pub open spec fn rejected(store: Option<ConfigView>, reason: ContractError) -> Outcome {
    Outcome { store, result: Err(reason) }
}

/// A call that leaves `config` stored and logs `event`, without messages.
pub open spec fn logged(config: ConfigView, event: EventView) -> Outcome {
    Outcome {
        store: Some(config),
        result: Ok(ResponseView { messages: Seq::empty(), events: seq![event] }),
    }
}

/// An event with a single attribute.
pub open spec fn event_1(ty: Seq<char>, key: Seq<char>, value: Seq<char>) -> EventView {
    EventView { ty, attributes: seq![(key, value)] }
}

/// An event with two attributes.
pub open spec fn event_2(
    ty: Seq<char>,
    key_1: Seq<char>,
    value_1: Seq<char>,
    key_2: Seq<char>,
    value_2: Seq<char>,
) -> EventView {
    EventView { ty, attributes: seq![(key_1, value_1), (key_2, value_2)] }
}

/// What `instantiate` comes to: the configuration is created with the sender as
/// owner, and the event names the owner and the admin wallet as the message
/// spelled it.
pub open spec fn spec_instantiate(
    store: Option<ConfigView>,
    sender: Seq<char>,
    admin_wallet: Seq<char>,
    validated: Option<Seq<char>>,
) -> Outcome {
    match spec_create(store, sender, validated) {
        Err(reason) => rejected(store, reason),
        Ok(config) => logged(
            config,
            event_2("instantiate"@, "owner"@, sender, "admin_wallet"@, admin_wallet),
        ),
    }
}

/// Creates the configuration: the sender becomes the owner, the checked
/// address the admin wallet, and the whitelist starts empty.
pub fn instantiate(
    store: &mut ConfigStore,
    _env: Env,
    info: MessageInfo,
    msg: InstantiateMsg,
    validated: Option<String>,
) -> (r: Result<Response, ContractError>)
    ensures
        outcome(final(store)@, r) == spec_instantiate(
            old(store)@,
            info.sender@,
            msg.admin_wallet@,
            opt_text(validated),
        ),
{
    match store.create(info.sender.clone(), validated) {
        Err(reason) => Err(reason),
        Ok(_) => {
            let event = Event::new("instantiate")
                .add_attribute("owner", info.sender)
                .add_attribute("admin_wallet", msg.admin_wallet);
            assert(event@.attributes =~= seq![
                ("owner"@, info.sender@),
                ("admin_wallet"@, msg.admin_wallet@),
            ]);
            let response = Response::new().add_event(event);
            assert(response@.events =~= seq![event@]);
            Ok(response)
        },
    }
}

/// What adding a token comes to. The event names the token as the message
/// spelled it; the whitelist gets the checked address.
pub open spec fn spec_add_whitelisted_token(
    store: Option<ConfigView>,
    sender: Seq<char>,
    token_address: Seq<char>,
    validated: Option<Seq<char>>,
) -> Outcome {
    match store {
        None => rejected(store, ContractError::Uninitialized),
        Some(config) => if config.owner != sender {
            rejected(store, ContractError::Unauthorized)
        } else {
            match validated {
                None => rejected(store, ContractError::InvalidIdentity),
                Some(token) => logged(
                    config.with_token(token),
                    event_1("add_whitelisted_token"@, "token_address"@, token_address),
                ),
            }
        },
    }
}

/// Puts a token contract on the whitelist, for the owner only. Adding one that
/// is listed succeeds and changes nothing.
pub fn execute_add_whitelisted_token(
    store: &mut ConfigStore,
    info: MessageInfo,
    token_address: String,
    validated: Option<String>,
) -> (r: Result<Response, ContractError>)
    ensures
        outcome(final(store)@, r) == spec_add_whitelisted_token(
            old(store)@,
            info.sender@,
            token_address@,
            opt_text(validated),
        ),
{
    let mut config = match store.load() {
        Ok(config) => config,
        Err(reason) => {
            return Err(reason);
        },
    };
    if config.owner != info.sender {
        return Err(ContractError::Unauthorized);
    }
    let token = match validated {
        Some(token) => token,
        None => {
            return Err(ContractError::InvalidIdentity);
        },
    };
    config.add_to_whitelist(token);
    store.save(config);
    let event = Event::new("add_whitelisted_token").add_attribute("token_address", token_address);
    let response = Response::new().add_event(event);
    assert(response@.events =~= seq![event@]);
    Ok(response)
}

/// What removing a token comes to. Only the owner is asked for; the event
/// names the token as the message spelled it. An address that the host's
/// check turned down was never listed, so removing it is removing an absent
/// entry: accepted, and nothing changes.
pub open spec fn spec_remove_whitelisted_token(
    store: Option<ConfigView>,
    sender: Seq<char>,
    token_address: Seq<char>,
    validated: Option<Seq<char>>,
) -> Outcome {
    match store {
        None => rejected(store, ContractError::Uninitialized),
        Some(config) => if config.owner != sender {
            rejected(store, ContractError::Unauthorized)
        } else {
            logged(
                match validated {
                    None => config,
                    Some(token) => config.without_token(token),
                },
                event_1("remove_whitelisted_token"@, "token_address"@, token_address),
            )
        },
    }
}

/// Takes a token contract off the whitelist, for the owner only. Removing one
/// that is not listed succeeds and changes nothing.
pub fn execute_remove_whitelisted_token(
    store: &mut ConfigStore,
    info: MessageInfo,
    token_address: String,
    validated: Option<String>,
) -> (r: Result<Response, ContractError>)
    ensures
        outcome(final(store)@, r) == spec_remove_whitelisted_token(
            old(store)@,
            info.sender@,
            token_address@,
            opt_text(validated),
        ),
{
    let mut config = match store.load() {
        Ok(config) => config,
        Err(reason) => {
            return Err(reason);
        },
    };
    if config.owner != info.sender {
        return Err(ContractError::Unauthorized);
    }
    match validated {
        Some(token) => {
            config.remove_from_whitelist(&token);
        },
        None => {},
    }
    store.save(config);
    let event = Event::new("remove_whitelisted_token")
        .add_attribute("token_address", token_address);
    let response = Response::new().add_event(event);
    assert(response@.events =~= seq![event@]);
    Ok(response)
}

/// What naming a new admin wallet comes to. The event names the wallet that
/// was stored, and the new one as the message spelled it.
pub open spec fn spec_update_config(
    store: Option<ConfigView>,
    sender: Seq<char>,
    new_admin_wallet: Seq<char>,
    validated: Option<Seq<char>>,
) -> Outcome {
    match store {
        None => rejected(store, ContractError::Uninitialized),
        Some(config) => if config.owner != sender {
            rejected(store, ContractError::Unauthorized)
        } else {
            match validated {
                None => rejected(store, ContractError::InvalidIdentity),
                Some(wallet) => logged(
                    config.with_admin_wallet(wallet),
                    event_2(
                        "update_config"@,
                        "old_admin_wallet"@,
                        config.admin_wallet,
                        "new_admin_wallet"@,
                        new_admin_wallet,
                    ),
                ),
            }
        },
    }
}

/// Names a new admin wallet, for the owner only. The owner stays who it is.
pub fn execute_update_config(
    store: &mut ConfigStore,
    info: MessageInfo,
    new_admin_wallet: String,
    validated: Option<String>,
) -> (r: Result<Response, ContractError>)
    ensures
        outcome(final(store)@, r) == spec_update_config(
            old(store)@,
            info.sender@,
            new_admin_wallet@,
            opt_text(validated),
        ),
{
    let mut config = match store.load() {
        Ok(config) => config,
        Err(reason) => {
            return Err(reason);
        },
    };
    if config.owner != info.sender {
        return Err(ContractError::Unauthorized);
    }
    let wallet = match validated {
        Some(wallet) => wallet,
        None => {
            return Err(ContractError::InvalidIdentity);
        },
    };
    let old_admin = config.admin_wallet.clone();
    config.admin_wallet = wallet;
    store.save(config);
    let event = Event::new("update_config")
        .add_attribute("old_admin_wallet", old_admin)
        .add_attribute("new_admin_wallet", new_admin_wallet);
    assert(event@.attributes =~= seq![
        ("old_admin_wallet"@, old_admin@),
        ("new_admin_wallet"@, new_admin_wallet@),
    ]);
    let response = Response::new().add_event(event);
    assert(response@.events =~= seq![event@]);
    Ok(response)
}

/// The response to an accepted deposit: the transfer order, and the log entry
/// of the audit record.
pub open spec fn deposit_response(
    routed: Result<(CosmosMsgView, DepositRecordView), ContractError>,
) -> Result<ResponseView, ContractError> {
    match routed {
        Ok((msg, record)) => Ok(ResponseView { messages: seq![msg], events: seq![record.event()] }),
        Err(reason) => Err(reason),
    }
}

/// What a deposit comes to. The spelling of `token_address` alone decides the
/// path. A native denomination is checked against the funds attached to the
/// call. Anything else is a token contract, which must be on the whitelist:
/// an address that the host's check turned down is on no whitelist. A listed
/// contract is sent the order that `transfer_from_json` names.
pub open spec fn spec_deposit_token(
    store: Option<ConfigView>,
    now: u64,
    sender: Seq<char>,
    funds: Seq<CoinView>,
    token_address: Seq<char>,
    amount: u128,
    validated: Option<Seq<char>>,
) -> Result<ResponseView, ContractError> {
    match store {
        None => Err(ContractError::Uninitialized),
        Some(config) => if spec_is_native_denom(token_address) {
            deposit_response(spec_route_native(config, now, sender, funds, token_address, amount))
        } else {
            match validated {
                None => Err(ContractError::NotWhitelisted),
                Some(token) => deposit_response(
                    spec_route_cw20(
                        config,
                        now,
                        sender,
                        token,
                        amount,
                        transfer_from_json(sender, config.admin_wallet, amount),
                    ),
                ),
            }
        },
    }
}

/// Deposits `amount` of `token_address` into the admin wallet. The store is
/// only read.
pub fn execute_deposit_token(
    store: &ConfigStore,
    env: Env,
    info: MessageInfo,
    token_address: String,
    amount: u128,
    validated: Option<String>,
) -> (r: Result<Response, ContractError>)
    ensures
        outcome(store@, r).result == spec_deposit_token(
            store@,
            env.block.time.seconds(),
            info.sender@,
            coins(info.funds@),
            token_address@,
            amount,
            opt_text(validated),
        ),
{
    let config = match store.load() {
        Ok(config) => config,
        Err(reason) => {
            return Err(reason);
        },
    };
    let now = env.block.time.seconds();
    let routed = if is_native_denom(token_address.as_str()) {
        route_native(&config, now, &info, token_address, amount)
    } else {
        let token = match validated {
            Some(token) => token,
            None => {
                return Err(ContractError::NotWhitelisted);
            },
        };
        let payload = transfer_from_payload(
            info.sender.as_str(),
            config.admin_wallet.as_str(),
            amount,
        );
        route_cw20(&config, now, &info.sender, token, amount, payload)
    };
    match routed {
        Err(reason) => Err(reason),
        Ok((msg, record)) => {
            let event = record.to_event();
            let response = Response::new().add_message(msg).add_event(event);
            assert(response@.messages =~= seq![msg@]);
            assert(response@.events =~= seq![event@]);
            Ok(response)
        },
    }
}

/// What a message comes to.
pub open spec fn spec_execute(
    store: Option<ConfigView>,
    now: u64,
    sender: Seq<char>,
    funds: Seq<CoinView>,
    msg: ExecuteMsg,
    validated: Option<Seq<char>>,
) -> Outcome {
    match msg {
        ExecuteMsg::AddWhitelistedToken { token_address } => spec_add_whitelisted_token(
            store,
            sender,
            token_address@,
            validated,
        ),
        ExecuteMsg::RemoveWhitelistedToken { token_address } => spec_remove_whitelisted_token(
            store,
            sender,
            token_address@,
            validated,
        ),
        ExecuteMsg::DepositToken { token_address, amount } => Outcome {
            store,
            result: spec_deposit_token(
                store,
                now,
                sender,
                funds,
                token_address@,
                amount,
                validated,
            ),
        },
        ExecuteMsg::UpdateConfig { new_admin_wallet } => spec_update_config(
            store,
            sender,
            new_admin_wallet@,
            validated,
        ),
    }
}

/// Carries out `msg`. `validated` is the host's verdict on the one address
/// that the message names.
pub fn execute(
    store: &mut ConfigStore,
    env: Env,
    info: MessageInfo,
    msg: ExecuteMsg,
    validated: Option<String>,
) -> (r: Result<Response, ContractError>)
    ensures
        outcome(final(store)@, r) == spec_execute(
            old(store)@,
            env.block.time.seconds(),
            info.sender@,
            coins(info.funds@),
            msg,
            opt_text(validated),
        ),
{
    match msg {
        ExecuteMsg::AddWhitelistedToken { token_address } => {
            execute_add_whitelisted_token(store, info, token_address, validated)
        },
        ExecuteMsg::RemoveWhitelistedToken { token_address } => {
            execute_remove_whitelisted_token(store, info, token_address, validated)
        },
        ExecuteMsg::DepositToken { token_address, amount } => {
            execute_deposit_token(store, env, info, token_address, amount, validated)
        },
        ExecuteMsg::UpdateConfig { new_admin_wallet } => {
            execute_update_config(store, info, new_admin_wallet, validated)
        },
    }
}

/// Answers `msg`: a copy of the stored configuration, or `Uninitialized` if
/// there is none.
pub fn query(store: &ConfigStore, _env: Env, msg: QueryMsg) -> (r: Result<Config, ContractError>)
    ensures
        match r {
            Ok(config) => store@ == Some(config@),
            Err(reason) => store@ is None && reason == ContractError::Uninitialized,
        },
{
    match msg {
        QueryMsg::GetConfig {  } => store.load(),
    }
}

} // verus!
