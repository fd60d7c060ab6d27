//! The reasons for which the gateway turns a call down.

use vstd::prelude::*;

verus! {

/// Why a call was rejected. A rejected call leaves the stored configuration as it
/// was, and none of these is worth retrying unchanged.
#[derive(Clone, Copy, Debug, PartialEq, Eq, Structural)]
pub enum ContractError {
    /// No configuration has been created yet.
    Uninitialized,
    /// A configuration exists already; it is created once.
    AlreadyInitialized,
    /// An address that was to be stored did not pass the host's address check.
    InvalidIdentity,
    /// The caller is not the owner.
    Unauthorized,
    /// The token contract is not on the whitelist.
    NotWhitelisted,
    /// A native deposit of nothing, with nothing attached.
    NoFundsSent,
    /// The funds attached in the requested denomination differ from the amount
    /// the deposit names.
    FundMismatch { sent: u128, requested: u128 },
    /// The transfer order for the token contract could not be encoded.
    Serialization,
}

} // verus!
