//! The order that a CW20 token contract takes to move tokens on an allowance.

use vstd::prelude::*;

verus! {

/// The error type of `cosmwasm_std`. Nothing is known of a value of it here.
#[verifier::external_type_specification]
#[verifier::external_body]
pub struct ExStdError(cosmwasm_std::StdError);

/// What `cosmwasm_std::to_json_binary` returns for the CW20 message
/// `TransferFrom { owner, recipient, amount }`: the bytes of its JSON text, or
/// nothing where the encoder fails. The token contract decodes these bytes
/// and moves `amount` from `owner` to `recipient` if the caller's allowance
/// covers it.
pub uninterp spec fn transfer_from_json(
    owner: Seq<char>,
    recipient: Seq<char>,
    amount: u128,
) -> Option<Seq<u8>>;

/// Calls `cosmwasm_std::to_json_binary` on the CW20 message
/// `cw20_base::msg::ExecuteMsg::TransferFrom { owner, recipient, amount }` and
/// hands out the bytes of the `Binary` it returns, or its error.
///
/// Not proved, but taken from the encoder: that the outcome is the one that
/// `transfer_from_json` names for these three values, which is to say that
/// the encoding depends on the message and on nothing else. What the bytes
/// are is not stated here.
#[verifier::external_body]
pub(crate) fn encode_transfer_from(owner: &str, recipient: &str, amount: u128) -> (r: Result<
    Vec<u8>,
    cosmwasm_std::StdError,
>)
    ensures
        transfer_from_json(owner@, recipient@, amount) == match r {
            Ok(bytes) => Some(bytes@),
            Err(_) => None::<Seq<u8>>,
        },
{
    let msg = cw20_base::msg::ExecuteMsg::TransferFrom {
        owner: owner.to_string(),
        recipient: recipient.to_string(),
        amount: cosmwasm_std::Uint128::new(amount),
    };
    cosmwasm_std::to_json_binary(&msg).map(Vec::from)
}

/// The encoded order to move `amount` from `owner` to `recipient`, if the
/// encoder produced one.
pub fn transfer_from_payload(owner: &str, recipient: &str, amount: u128) -> (payload: Option<
    Vec<u8>,
>)
    ensures
        payload_bytes(payload) == transfer_from_json(owner@, recipient@, amount),
{
    match encode_transfer_from(owner, recipient, amount) {
        Ok(bytes) => Some(bytes),
        Err(_) => None,
    }
}

/// The bytes of a payload that may be missing.
pub open spec fn payload_bytes(payload: Option<Vec<u8>>) -> Option<Seq<u8>> {
    match payload {
        Some(bytes) => Some(bytes@),
        None => None,
    }
}

} // verus!
