//! The gateway on a ledger of accounts: identities are 32-byte keys, every
//! token is a mint, and a deposit moves tokens between token accounts.
//!
//! Each instruction takes its accounts as plain values. The host moves the
//! tokens and reads the clock; the instructions decide and record.

use vstd::prelude::*;
use vstd::std_specs::cmp::PartialEqSpecImpl;
use crate::whitelist::{other_than, spec_with, spec_without};

verus! {

/// The key of an account.
#[derive(Clone, Copy, Debug, Eq)]
pub struct Pubkey {
    pub bytes: [u8; 32],
}

impl PartialEq for Pubkey {
    fn eq(&self, other: &Pubkey) -> (same: bool) {
        let mut i: usize = 0;
        while i < 32
            invariant
                i <= 32,
                forall|j: int| 0 <= j < i ==> self.bytes[j] == other.bytes[j],
            decreases 32 - i,
        {
            if self.bytes[i] != other.bytes[i] {
                return false;
            }
            i += 1;
        }
        assert(self.bytes =~= other.bytes);
        true
    }
}

impl PartialEqSpecImpl for Pubkey {
    open spec fn obeys_eq_spec() -> bool {
        true
    }

    open spec fn eq_spec(&self, other: &Pubkey) -> bool {
        *self == *other
    }
}

/// What can go wrong in an instruction.
#[derive(Clone, Copy, Debug, PartialEq, Eq, Structural)]
pub enum CustomError {
    /// The token provided is not whitelisted for deposit.
    TokenNotWhitelisted,
    /// The signer is not the owner named in the configuration.
    Unauthorized,
}

/// The configuration account.
#[derive(Clone, Debug, PartialEq, Eq)]
pub struct Config {
    /// The owner who can manage the whitelist.
    pub owner: Pubkey,
    /// The wallet that receives deposited tokens.
    pub admin_wallet: Pubkey,
    /// The whitelisted token mints.
    pub whitelist: Vec<Pubkey>,
}

impl Config {
    /// The bytes set aside for the account: two keys, the length of the
    /// whitelist, and room for ten mints.
    pub const LEN: usize = 32 + 32 + 4 + 10 * 32;

    /// Whether `token_mint` is on the whitelist.
    pub fn is_whitelisted(&self, token_mint: &Pubkey) -> (listed: bool)
        ensures
            listed == self.whitelist@.contains(*token_mint),
    {
        let mut i: usize = 0;
        while i < self.whitelist.len()
            invariant
                i <= self.whitelist.len(),
                forall|j: int| 0 <= j < i ==> self.whitelist@[j] != *token_mint,
            decreases self.whitelist.len() - i,
        {
            if self.whitelist[i] == *token_mint {
                return true;
            }
            i += 1;
        }
        false
    }
}

/// The accounts of `initialize_config`.
#[derive(Clone, Debug, PartialEq, Eq)]
pub struct InitializeConfig {
    /// The config account to be initialized.
    pub config: Config,
    /// The signer, who pays for the account and becomes the owner.
    pub owner: Pubkey,
}

/// The accounts of `add_whitelisted_token` and `remove_whitelisted_token`.
#[derive(Clone, Debug, PartialEq, Eq)]
pub struct ManageWhitelist {
    /// The config account; its owner must be the signer.
    pub config: Config,
    /// The signer.
    pub owner: Pubkey,
}

/// The accounts of `update_config`.
#[derive(Clone, Debug, PartialEq, Eq)]
pub struct UpdateConfig {
    /// The config account; its owner must be the signer.
    pub config: Config,
    /// The signer.
    pub owner: Pubkey,
}

/// A token mint: its key and the number of decimals of its amounts.
#[derive(Clone, Copy, Debug, PartialEq, Eq)]
pub struct Mint {
    pub key: Pubkey,
    pub decimals: u8,
}

/// The accounts of `deposit_token`.
#[derive(Clone, Debug, PartialEq, Eq)]
pub struct DepositToken {
    /// The user depositing tokens, who signs.
    pub user: Pubkey,
    /// The config account containing the admin wallet and whitelist.
    pub config: Config,
    /// The token mint for the token being deposited.
    pub token_mint: Mint,
    /// The depositor's token account for the given mint.
    pub user_token_account: Pubkey,
    /// The admin wallet's associated token account for the given mint.
    pub admin_token_account: Pubkey,
}

/// The order to the token program: move `amount` of `mint`, which counts in
/// `decimals` decimals, from `from` to `to` on the signature of `authority`.
#[derive(Clone, Copy, Debug, PartialEq, Eq)]
pub struct TransferChecked {
    pub from: Pubkey,
    pub to: Pubkey,
    pub authority: Pubkey,
    pub mint: Pubkey,
    pub amount: u64,
    pub decimals: u8,
}

/// The record of one deposit.
#[derive(Clone, Copy, Debug, PartialEq, Eq)]
pub struct DepositEvent {
    pub config_owner: Pubkey,
    pub user: Pubkey,
    pub amount: u64,
    pub token_mint: Pubkey,
    pub timestamp: u64,
}

/// The verdict on a signer who asks for what only the owner may do.
pub open spec fn spec_owner_only(owner: Pubkey, signer: Pubkey) -> Result<(), CustomError> {
    if owner == signer {
        Ok(())
    } else {
        Err(CustomError::Unauthorized)
    }
}

/// A Unix time as the event holds it: the same 64 bits read as unsigned, so a
/// time before 1970 comes out shifted by 2^64.
pub open spec fn spec_event_time(unix_timestamp: i64) -> u64 {
    if unix_timestamp >= 0 {
        unix_timestamp as u64
    } else {
        (unix_timestamp + 0x1_0000_0000_0000_0000) as u64
    }
}

/// Initializes the config account with the signer as owner, the admin wallet
/// and an empty whitelist. The host creates the account for this instruction
/// and does not create it twice, so what the account held before is dropped
/// unread.
pub fn initialize_config(accounts: &mut InitializeConfig, admin_wallet: Pubkey) -> (r: Result<
    (),
    CustomError,
>)
    ensures
        r is Ok,
        final(accounts).owner == old(accounts).owner,
        final(accounts).config.owner == old(accounts).owner,
        final(accounts).config.admin_wallet == admin_wallet,
        final(accounts).config.whitelist@ == Seq::<Pubkey>::empty(),
{
    accounts.config.owner = accounts.owner;
    accounts.config.admin_wallet = admin_wallet;
    accounts.config.whitelist = Vec::new();
    Ok(())
}

/// Adds a token mint to the whitelist, for the owner only. Adding a mint that
/// is listed changes nothing.
pub fn add_whitelisted_token(accounts: &mut ManageWhitelist, token_mint: Pubkey) -> (r: Result<
    (),
    CustomError,
>)
    ensures
        final(accounts).owner == old(accounts).owner,
        final(accounts).config.owner == old(accounts).config.owner,
        final(accounts).config.admin_wallet == old(accounts).config.admin_wallet,
        r == spec_owner_only(old(accounts).config.owner, old(accounts).owner),
        final(accounts).config.whitelist@ == if r is Ok {
            spec_with(old(accounts).config.whitelist@, token_mint)
        } else {
            old(accounts).config.whitelist@
        },
{
    if accounts.config.owner != accounts.owner {
        return Err(CustomError::Unauthorized);
    }
    if !accounts.config.is_whitelisted(&token_mint) {
        accounts.config.whitelist.push(token_mint);
    }
    Ok(())
}

/// The entries of `whitelist` other than `token_mint`, in their order.
fn mints_without(whitelist: &Vec<Pubkey>, token_mint: Pubkey) -> (kept: Vec<Pubkey>)
    ensures
        kept@ == spec_without(whitelist@, token_mint),
{
    let ghost differs = other_than(token_mint);
    let mut kept: Vec<Pubkey> = Vec::new();
    let mut i: usize = 0;
    proof {
        reveal(Seq::filter);
    }
    while i < whitelist.len()
        invariant
            i <= whitelist.len(),
            differs == other_than(token_mint),
            kept@ == whitelist@.take(i as int).filter(differs),
        decreases whitelist.len() - i,
    {
        proof {
            assert(whitelist@.take(i + 1) == whitelist@.take(i as int).push(whitelist@[i as int]));
            whitelist@.take(i as int).lemma_filter_push(whitelist@[i as int], differs);
        }
        if whitelist[i] != token_mint {
            kept.push(whitelist[i]);
        }
        i += 1;
    }
    assert(whitelist@.take(whitelist@.len() as int) == whitelist@);
    kept
}

/// Removes a token mint from the whitelist, for the owner only. Removing a
/// mint that is not listed changes nothing.
pub fn remove_whitelisted_token(accounts: &mut ManageWhitelist, token_mint: Pubkey) -> (r: Result<
    (),
    CustomError,
>)
    ensures
        final(accounts).owner == old(accounts).owner,
        final(accounts).config.owner == old(accounts).config.owner,
        final(accounts).config.admin_wallet == old(accounts).config.admin_wallet,
        r == spec_owner_only(old(accounts).config.owner, old(accounts).owner),
        final(accounts).config.whitelist@ == if r is Ok {
            spec_without(old(accounts).config.whitelist@, token_mint)
        } else {
            old(accounts).config.whitelist@
        },
{
    if accounts.config.owner != accounts.owner {
        return Err(CustomError::Unauthorized);
    }
    let kept = mints_without(&accounts.config.whitelist, token_mint);
    accounts.config.whitelist = kept;
    Ok(())
}

/// Checks a deposit of `amount` of the mint among the accounts: if the mint is
/// on the whitelist, the order to move the tokens from the user's token
/// account to the admin's, on the user's signature.
pub fn deposit_token(accounts: &DepositToken, amount: u64) -> (r: Result<
    TransferChecked,
    CustomError,
>)
    ensures
        r == if accounts.config.whitelist@.contains(accounts.token_mint.key) {
            Ok::<TransferChecked, CustomError>(
                TransferChecked {
                    from: accounts.user_token_account,
                    to: accounts.admin_token_account,
                    authority: accounts.user,
                    mint: accounts.token_mint.key,
                    amount,
                    decimals: accounts.token_mint.decimals,
                },
            )
        } else {
            Err::<TransferChecked, CustomError>(CustomError::TokenNotWhitelisted)
        },
{
    if !accounts.config.is_whitelisted(&accounts.token_mint.key) {
        return Err(CustomError::TokenNotWhitelisted);
    }
    Ok(
        TransferChecked {
            from: accounts.user_token_account,
            to: accounts.admin_token_account,
            authority: accounts.user,
            mint: accounts.token_mint.key,
            amount,
            decimals: accounts.token_mint.decimals,
        },
    )
}

/// The record of a deposit that went through at Unix time `unix_timestamp`.
pub fn deposit_event(accounts: &DepositToken, amount: u64, unix_timestamp: i64) -> (event:
    DepositEvent)
    ensures
        event == (DepositEvent {
            config_owner: accounts.config.owner,
            user: accounts.user,
            amount,
            token_mint: accounts.token_mint.key,
            timestamp: spec_event_time(unix_timestamp),
        }),
{
    let timestamp: u64 = if unix_timestamp >= 0 {
        unix_timestamp as u64
    } else {
        (unix_timestamp as i128 + 0x1_0000_0000_0000_0000) as u64
    };
    DepositEvent {
        config_owner: accounts.config.owner,
        user: accounts.user,
        amount,
        token_mint: accounts.token_mint.key,
        timestamp,
    }
}

/// Names a new admin wallet, for the owner only.
pub fn update_config(accounts: &mut UpdateConfig, new_admin_wallet: Pubkey) -> (r: Result<
    (),
    CustomError,
>)
    ensures
        final(accounts).owner == old(accounts).owner,
        final(accounts).config.owner == old(accounts).config.owner,
        final(accounts).config.whitelist@ == old(accounts).config.whitelist@,
        r == spec_owner_only(old(accounts).config.owner, old(accounts).owner),
        final(accounts).config.admin_wallet == if r is Ok {
            new_admin_wallet
        } else {
            old(accounts).config.admin_wallet
        },
{
    if accounts.config.owner != accounts.owner {
        return Err(CustomError::Unauthorized);
    }
    accounts.config.admin_wallet = new_admin_wallet;
    Ok(())
}

} // verus!
