//! The messages the gateway accepts, and what the host tells it about a call.

use vstd::prelude::*;
use crate::response::Coin;

verus! {

/// Who called, and the funds that came with the call.
#[derive(Clone, Debug, PartialEq, Eq)]
pub struct MessageInfo {
    pub sender: String,
    pub funds: Vec<Coin>,
}

/// A point in time: nanoseconds since the Unix epoch.
#[derive(Clone, Copy, Debug, PartialEq, Eq, Structural)]
pub struct Timestamp {
    nanos: u64,
}

impl Timestamp {
    /// The whole seconds since the epoch, as a number.
    pub open spec fn spec_seconds(&self) -> u64 {
        (self.spec_nanos() / 1_000_000_000) as u64
    }

    /// The nanoseconds since the epoch, as a number.
    pub closed spec fn spec_nanos(&self) -> u64 {
        self.nanos
    }

    /// The time `nanos` nanoseconds after the epoch.
    pub fn from_nanos(nanos: u64) -> (t: Timestamp)
        ensures
            t.spec_nanos() == nanos,
    {
        Timestamp { nanos }
    }

    /// The nanoseconds since the epoch.
    #[verifier::when_used_as_spec(spec_nanos)]
    pub fn nanos(&self) -> (n: u64)
        ensures
            n == self.spec_nanos(),
    {
        self.nanos
    }

    /// The whole seconds since the epoch; what is left of a second is dropped.
    #[verifier::when_used_as_spec(spec_seconds)]
    pub fn seconds(&self) -> (s: u64)
        ensures
            s == self.spec_seconds(),
    {
        self.nanos / 1_000_000_000
    }
}

/// The block in which a call runs.
#[derive(Clone, Copy, Debug, PartialEq, Eq, Structural)]
pub struct BlockInfo {
    pub time: Timestamp,
}

/// What the host tells a call about its surroundings.
#[derive(Clone, Copy, Debug, PartialEq, Eq, Structural)]
pub struct Env {
    pub block: BlockInfo,
}

/// Creates the configuration. The caller becomes the owner.
#[derive(Clone, Debug, PartialEq, Eq)]
pub struct InstantiateMsg {
    /// The wallet that is to receive deposits.
    pub admin_wallet: String,
}

/// The calls that change or use the configuration.
#[derive(Clone, Debug, PartialEq, Eq)]
pub enum ExecuteMsg {
    /// Puts a token contract on the whitelist. Owner only.
    AddWhitelistedToken { token_address: String },
    /// Takes a token contract off the whitelist. Owner only.
    RemoveWhitelistedToken { token_address: String },
    /// Deposits `amount` of `token_address` into the admin wallet: a native
    /// denomination out of the funds attached to the call, a token contract's
    /// token out of the sender's allowance.
    DepositToken { token_address: String, amount: u128 },
    /// Names a new admin wallet. Owner only.
    UpdateConfig { new_admin_wallet: String },
}

/// The questions the gateway answers.
#[derive(Clone, Copy, Debug, PartialEq, Eq, Structural)]
pub enum QueryMsg {
    /// The stored configuration.
    GetConfig {  },
}

} // verus!
