//! What holds of the entry points whatever the calls: stated over the same
//! functions that their contracts use.

use vstd::prelude::*;
use crate::contract::{
    rejected, spec_add_whitelisted_token, spec_deposit_token, spec_execute, spec_instantiate,
    spec_remove_whitelisted_token, spec_update_config,
};
use crate::cw20::transfer_from_json;
use crate::deposit::spec_sent_amount;
use crate::error::ContractError;
use crate::msg::ExecuteMsg;
use crate::response::{CoinView, CosmosMsgView, ResponseView};
use crate::state::ConfigView;
use crate::token::spec_is_native_denom;
use crate::whitelist::{
    lemma_with_inserts, lemma_with_twice, lemma_without_absent, lemma_without_deletes,
};

verus! {

/// Adding a token twice is adding it once: the second call is accepted like the
/// first, logs the same event, and leaves the store as the first left it.
pub proof fn lemma_add_twice_is_add_once(
    store: Option<ConfigView>,
    sender: Seq<char>,
    token_address: Seq<char>,
    validated: Option<Seq<char>>,
)
    ensures
        ({
            let once = spec_add_whitelisted_token(store, sender, token_address, validated);
            let twice = spec_add_whitelisted_token(once.store, sender, token_address, validated);
            twice == once
        }),
{
    if store is Some && validated is Some {
        lemma_with_twice(store->0.whitelist, validated->0);
    }
}

/// Removing a token that is not on the whitelist is accepted and leaves the
/// store as it was, whether the host's check accepted the address or turned
/// it down.
pub proof fn lemma_remove_absent_changes_nothing(
    config: ConfigView,
    token_address: Seq<char>,
    validated: Option<Seq<char>>,
)
    requires
        validated matches Some(token) ==> !config.whitelist.contains(token),
    ensures
        ({
            let after = spec_remove_whitelisted_token(
                Some(config),
                config.owner,
                token_address,
                validated,
            );
            after.store == Some(config) && after.result is Ok
        }),
{
    if validated is Some {
        lemma_without_absent(config.whitelist, validated->0);
    }
}

/// Whoever is not the owner is turned down with `Unauthorized` when adding or
/// removing a token or naming an admin wallet, whatever the address and the
/// host's verdict on it, and the store stays as it was.
pub proof fn lemma_only_the_owner_changes_the_config(
    config: ConfigView,
    sender: Seq<char>,
    address: Seq<char>,
    validated: Option<Seq<char>>,
)
    requires
        sender != config.owner,
    ensures
        spec_add_whitelisted_token(Some(config), sender, address, validated) == rejected(
            Some(config),
            ContractError::Unauthorized,
        ),
        spec_remove_whitelisted_token(Some(config), sender, address, validated) == rejected(
            Some(config),
            ContractError::Unauthorized,
        ),
        spec_update_config(Some(config), sender, address, validated) == rejected(
            Some(config),
            ContractError::Unauthorized,
        ),
{
}

/// A deposit of a native denomination goes by the funds attached in that
/// denomination and by nothing else. If they differ from the amount named,
/// it fails with `FundMismatch`. If both are zero, it fails with
/// `NoFundsSent`. Otherwise it is accepted, with one message: the order to
/// the bank to send exactly that amount of the denomination to the admin
/// wallet.
pub proof fn lemma_native_deposit_is_exact(
    config: ConfigView,
    now: u64,
    sender: Seq<char>,
    funds: Seq<CoinView>,
    denom: Seq<char>,
    amount: u128,
    validated: Option<Seq<char>>,
)
    requires
        spec_is_native_denom(denom),
    ensures
        ({
            let sent = spec_sent_amount(funds, denom);
            let result = spec_deposit_token(
                Some(config),
                now,
                sender,
                funds,
                denom,
                amount,
                validated,
            );
            &&& sent != amount ==> result == Err::<ResponseView, ContractError>(
                ContractError::FundMismatch { sent, requested: amount },
            )
            &&& sent == amount && amount == 0 ==> result == Err::<ResponseView, ContractError>(
                ContractError::NoFundsSent,
            )
            &&& sent == amount && amount != 0 ==> result is Ok && result->Ok_0.messages
                == seq![
                CosmosMsgView::BankSend {
                    to_address: config.admin_wallet,
                    amount: seq![CoinView { denom, amount }],
                },
            ]
        }),
{
}

/// A deposit through a token contract that is not on the whitelist fails with
/// `NotWhitelisted`, whether the host's check accepted the address or turned
/// it down.
pub proof fn lemma_unlisted_token_is_refused(
    config: ConfigView,
    now: u64,
    sender: Seq<char>,
    funds: Seq<CoinView>,
    token_address: Seq<char>,
    amount: u128,
    validated: Option<Seq<char>>,
)
    requires
        !spec_is_native_denom(token_address),
        validated matches Some(token) ==> !config.whitelist.contains(token),
    ensures
        spec_deposit_token(Some(config), now, sender, funds, token_address, amount, validated)
            == Err::<ResponseView, ContractError>(ContractError::NotWhitelisted),
{
}

/// Once the owner has added a token contract, a deposit through it is accepted
/// whenever the transfer order can be encoded, and is not refused for the
/// whitelist in any case; once the owner has removed it, the deposit fails
/// with `NotWhitelisted` again.
pub proof fn lemma_whitelist_opens_and_closes_the_gate(
    config: ConfigView,
    now: u64,
    sender: Seq<char>,
    funds: Seq<CoinView>,
    token_address: Seq<char>,
    amount: u128,
    token: Seq<char>,
)
    requires
        !spec_is_native_denom(token_address),
    ensures
        ({
            let added = spec_add_whitelisted_token(
                Some(config),
                config.owner,
                token_address,
                Some(token),
            ).store;
            let open = spec_deposit_token(
                added,
                now,
                sender,
                funds,
                token_address,
                amount,
                Some(token),
            );
            let removed = spec_remove_whitelisted_token(
                added,
                config.owner,
                token_address,
                Some(token),
            ).store;
            let closed = spec_deposit_token(
                removed,
                now,
                sender,
                funds,
                token_address,
                amount,
                Some(token),
            );
            &&& open is Ok <==> transfer_from_json(sender, config.admin_wallet, amount) is Some
            &&& open != Err::<ResponseView, ContractError>(ContractError::NotWhitelisted)
            &&& closed == Err::<ResponseView, ContractError>(ContractError::NotWhitelisted)
        }),
{
    lemma_with_inserts(config.whitelist, token);
    lemma_without_deletes(config.with_token(token).whitelist, token);
}

/// A native deposit does not look at the whitelist, nor at the host's verdict
/// on the address: two configurations with the same admin wallet give it the
/// same outcome.
pub proof fn lemma_native_deposit_ignores_the_whitelist(
    config: ConfigView,
    other: ConfigView,
    now: u64,
    sender: Seq<char>,
    funds: Seq<CoinView>,
    denom: Seq<char>,
    amount: u128,
    validated: Option<Seq<char>>,
    other_validated: Option<Seq<char>>,
)
    requires
        spec_is_native_denom(denom),
        other.admin_wallet == config.admin_wallet,
    ensures
        spec_deposit_token(Some(config), now, sender, funds, denom, amount, validated)
            == spec_deposit_token(Some(other), now, sender, funds, denom, amount, other_validated),
{
}

/// Until the configuration is created, every message is turned down with
/// `Uninitialized`, and the store stays empty.
pub proof fn lemma_nothing_runs_before_the_config_exists(call: Call)
    ensures
        spec_execute(None, call.now, call.sender, call.funds, call.msg, call.validated)
            == rejected(None, ContractError::Uninitialized),
{
}

/// A call that is turned down leaves the store as it was, be it the creation
/// of the configuration or any message.
pub proof fn lemma_rejected_calls_change_nothing(
    store: Option<ConfigView>,
    admin_wallet: Seq<char>,
    call: Call,
)
    ensures
        ({
            let created = spec_instantiate(store, call.sender, admin_wallet, call.validated);
            let executed = spec_execute(
                store,
                call.now,
                call.sender,
                call.funds,
                call.msg,
                call.validated,
            );
            &&& created.result is Err ==> created.store == store
            &&& executed.result is Err ==> executed.store == store
        }),
{
}

/// One call to `execute`, as the host made it.
pub struct Call {
    pub now: u64,
    pub sender: Seq<char>,
    pub funds: Seq<CoinView>,
    pub msg: ExecuteMsg,
    pub validated: Option<Seq<char>>,
}

/// The store after `calls`, made in order on `store`.
pub open spec fn spec_run(store: Option<ConfigView>, calls: Seq<Call>) -> Option<ConfigView>
    decreases calls.len(),
{
    if calls.len() == 0 {
        store
    } else {
        let call = calls.last();
        spec_execute(
            spec_run(store, calls.drop_last()),
            call.now,
            call.sender,
            call.funds,
            call.msg,
            call.validated,
        ).store
    }
}

/// Whether each of `calls`, made in order on `store`, is accepted.
pub open spec fn spec_all_accepted(store: Option<ConfigView>, calls: Seq<Call>) -> bool
    decreases calls.len(),
{
    calls.len() > 0 ==> {
        let call = calls.last();
        &&& spec_all_accepted(store, calls.drop_last())
        &&& spec_execute(
            spec_run(store, calls.drop_last()),
            call.now,
            call.sender,
            call.funds,
            call.msg,
            call.validated,
        ).result is Ok
    }
}

/// The set of whitelisted tokens that accepted `calls` make of `tokens`: each
/// addition a union with the checked address, each removal a difference by
/// it. A removal whose address the host's check turned down takes nothing
/// away.
pub open spec fn spec_net_tokens(tokens: Set<Seq<char>>, calls: Seq<Call>) -> Set<Seq<char>>
    decreases calls.len(),
{
    if calls.len() == 0 {
        tokens
    } else {
        let before = spec_net_tokens(tokens, calls.drop_last());
        let call = calls.last();
        match call.msg {
            ExecuteMsg::AddWhitelistedToken { .. } => before.insert(call.validated->0),
            ExecuteMsg::RemoveWhitelistedToken { .. } => match call.validated {
                Some(token) => before.remove(token),
                None => before,
            },
            _ => before,
        }
    }
}

/// The admin wallet that accepted `calls` leave in place of `wallet`: the
/// checked address of the last update, if there is one.
pub open spec fn spec_net_admin_wallet(wallet: Seq<char>, calls: Seq<Call>) -> Seq<char>
    decreases calls.len(),
{
    if calls.len() == 0 {
        wallet
    } else {
        let call = calls.last();
        match call.msg {
            ExecuteMsg::UpdateConfig { .. } => call.validated->0,
            _ => spec_net_admin_wallet(wallet, calls.drop_last()),
        }
    }
}

/// One call leaves a configuration in the store, under the same owner, and
/// without repetitions on the whitelist if there were none.
pub proof fn lemma_execute_keeps_the_invariants(config: ConfigView, call: Call)
    ensures
        ({
            let after = spec_execute(
                Some(config),
                call.now,
                call.sender,
                call.funds,
                call.msg,
                call.validated,
            );
            &&& after.store is Some
            &&& after.store->0.owner == config.owner
            &&& config.wf() ==> after.store->0.wf()
            &&& after.result is Err ==> after.store == Some(config)
        }),
{
    if call.validated is Some {
        lemma_with_inserts(config.whitelist, call.validated->0);
        lemma_without_deletes(config.whitelist, call.validated->0);
    }
}

/// After any sequence of accepted calls the stored configuration, which is
/// what `query` returns, shows their net effect: the owner it had, the set of
/// tokens that the additions and removals make in order, and the admin wallet
/// of the last update.
pub proof fn lemma_config_is_the_net_effect(config: ConfigView, calls: Seq<Call>)
    requires
        spec_all_accepted(Some(config), calls),
    ensures
        ({
            let end = spec_run(Some(config), calls);
            &&& end is Some
            &&& end->0.owner == config.owner
            &&& end->0.tokens() == spec_net_tokens(config.tokens(), calls)
            &&& end->0.admin_wallet == spec_net_admin_wallet(config.admin_wallet, calls)
            &&& config.wf() ==> end->0.wf()
        }),
    decreases calls.len(),
{
    if calls.len() > 0 {
        let call = calls.last();
        lemma_config_is_the_net_effect(config, calls.drop_last());
        let before = spec_run(Some(config), calls.drop_last())->0;
        lemma_execute_keeps_the_invariants(before, call);
        if call.validated is Some {
            lemma_with_inserts(before.whitelist, call.validated->0);
            lemma_without_deletes(before.whitelist, call.validated->0);
        }
    }
}

} // verus!
