//! Classification of a token identifier: native denomination or token contract.

use vstd::prelude::*;
use crate::text::{contains, spec_contains, starts_with};

verus! {

/// How a deposit is carried out, and so how it is authorised.
#[derive(Clone, Copy, Debug, PartialEq, Eq, Structural)]
pub enum TokenType {
    /// A denomination of the chain itself, moved by the bank out of the funds
    /// attached to the call.
    Native,
    /// A token kept by a contract, moved by that contract on the sender's allowance.
    Cw20,
}

impl TokenType {
    /// The name under which the kind is logged.
    pub open spec fn spec_text(self) -> Seq<char> {
        match self {
            TokenType::Native => "native"@,
            TokenType::Cw20 => "cw20"@,
        }
    }

    /// The name under which the kind is logged: `native` or `cw20`.
    pub fn as_str(&self) -> (name: &'static str)
        ensures
            name@ == self.spec_text(),
    {
        match self {
            TokenType::Native => "native",
            TokenType::Cw20 => "cw20",
        }
    }
}

/// A token identifier names a native denomination when it begins with `u`, or
/// when it mentions the `ibc/` namespace anywhere.
pub open spec fn spec_is_native_denom(token_address: Seq<char>) -> bool {
    "u"@.is_prefix_of(token_address) || spec_contains(token_address, "ibc/"@)
}

/// The kind of token that `token_address` names.
pub open spec fn spec_classify(token_address: Seq<char>) -> TokenType {
    if spec_is_native_denom(token_address) {
        TokenType::Native
    } else {
        TokenType::Cw20
    }
}

/// Decides from the text of `token_address` alone whether it is a native
/// denomination. No registry is consulted: an identifier that merely looks like a
/// denomination is taken for one.
pub fn is_native_denom(token_address: &str) -> (native: bool)
    ensures
        native == spec_is_native_denom(token_address@),
{
    starts_with(token_address, "u") || contains(token_address, "ibc/")
}

/// Classifies `token_address`.
pub fn classify(token_address: &str) -> (kind: TokenType)
    ensures
        kind == spec_classify(token_address@),
{
    if is_native_denom(token_address) {
        TokenType::Native
    } else {
        TokenType::Cw20
    }
}

} // verus!
