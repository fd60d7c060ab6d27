//! The deposit router: checks a deposit against the evidence that came with the
//! call and, if it holds, orders the transfer and writes the audit record.

use vstd::prelude::*;
use crate::cw20::payload_bytes;
use crate::error::ContractError;
use crate::msg::MessageInfo;
use crate::response::{
    coins, BankMsg, Coin, CoinView, CosmosMsg, CosmosMsgView, Event, EventView, WasmMsg,
};
use crate::state::{Config, ConfigView};
use crate::text::{decimal, spec_decimal};
use crate::token::TokenType;

verus! {

/// The audit record of one accepted deposit.
#[derive(Clone, Debug, PartialEq, Eq)]
pub struct DepositRecord {
    /// Who deposited.
    pub sender: String,
    /// How much.
    pub amount: u128,
    /// The denomination, or the token contract.
    pub token_address: String,
    /// By which path the deposit travels.
    pub token_type: TokenType,
    /// The block time of the call, in seconds.
    pub timestamp: u64,
    /// The wallet that receives the deposit.
    pub destination: String,
}

/// An audit record as plain values.
pub struct DepositRecordView {
    pub sender: Seq<char>,
    pub amount: u128,
    pub token_address: Seq<char>,
    pub token_type: TokenType,
    pub timestamp: u64,
    pub destination: Seq<char>,
}

impl View for DepositRecord {
    type V = DepositRecordView;

    open spec fn view(&self) -> DepositRecordView {
        DepositRecordView {
            sender: self.sender@,
            amount: self.amount,
            token_address: self.token_address@,
            token_type: self.token_type,
            timestamp: self.timestamp,
            destination: self.destination@,
        }
    }
}

impl DepositRecordView {
    /// The log entry of the record: a `deposit_token` event that names the
    /// user, the amount, the token, its kind, the time and the destination,
    /// numbers in decimal.
    pub open spec fn event(self) -> EventView {
        EventView {
            ty: "deposit_token"@,
            attributes: seq![
                ("user"@, self.sender),
                ("amount"@, spec_decimal(self.amount as nat)),
                ("token_address"@, self.token_address),
                ("token_type"@, self.token_type.spec_text()),
                ("timestamp"@, spec_decimal(self.timestamp as nat)),
                ("destination"@, self.destination),
            ],
        }
    }
}

impl DepositRecord {
    /// The log entry of the record.
    pub fn to_event(&self) -> (event: Event)
        ensures
            event@ == self@.event(),
    {
        let event = Event::new("deposit_token")
            .add_attribute("user", self.sender.clone())
            .add_attribute("amount", decimal(self.amount))
            .add_attribute("token_address", self.token_address.clone())
            .add_attribute("token_type", self.token_type.as_str().to_owned())
            .add_attribute("timestamp", decimal(self.timestamp as u128))
            .add_attribute("destination", self.destination.clone());
        assert(event@.attributes =~= self@.event().attributes);
        event
    }
}

/// The amount that `funds` holds in `denom`: that of the first coin of this
/// denomination, and zero if there is none.
pub open spec fn spec_sent_amount(funds: Seq<CoinView>, denom: Seq<char>) -> u128
    decreases funds.len(),
{
    if funds.len() == 0 {
        0
    } else if funds.first().denom == denom {
        funds.first().amount
    } else {
        spec_sent_amount(funds.drop_first(), denom)
    }
}

/// Looks up what was sent in `denom`.
pub fn sent_amount(funds: &Vec<Coin>, denom: &String) -> (sent: u128)
    ensures
        sent == spec_sent_amount(coins(funds@), denom@),
{
    let mut i: usize = 0;
    assert(coins(funds@).skip(0) =~= coins(funds@));
    while i < funds.len()
        invariant
            i <= funds.len(),
            spec_sent_amount(coins(funds@), denom@) == spec_sent_amount(
                coins(funds@).skip(i as int),
                denom@,
            ),
        decreases funds.len() - i,
    {
        if funds[i].denom == *denom {
            return funds[i].amount;
        }
        proof {
            assert(coins(funds@).skip(i as int).drop_first() =~= coins(funds@).skip(i + 1));
        }
        i += 1;
    }
    0
}

/// What a native deposit comes to. The funds attached in `denom` must equal
/// `amount` exactly, and must not be nothing. The whitelist plays no part:
/// whoever attaches the funds has them.
pub open spec fn spec_route_native(
    config: ConfigView,
    now: u64,
    sender: Seq<char>,
    funds: Seq<CoinView>,
    denom: Seq<char>,
    amount: u128,
) -> Result<(CosmosMsgView, DepositRecordView), ContractError> {
    let sent = spec_sent_amount(funds, denom);
    if sent != amount {
        Err(ContractError::FundMismatch { sent, requested: amount })
    } else if sent == 0 {
        Err(ContractError::NoFundsSent)
    } else {
        Ok(
            (
                CosmosMsgView::BankSend {
                    to_address: config.admin_wallet,
                    amount: seq![CoinView { denom, amount }],
                },
                DepositRecordView {
                    sender,
                    amount,
                    token_address: denom,
                    token_type: TokenType::Native,
                    timestamp: now,
                    destination: config.admin_wallet,
                },
            ),
        )
    }
}

/// Routes a deposit of the native denomination `denom`: on success, the order
/// to the bank to send exactly `amount` of it to the admin wallet, and the
/// audit record.
pub fn route_native(
    config: &Config,
    now: u64,
    info: &MessageInfo,
    denom: String,
    amount: u128,
) -> (r: Result<(CosmosMsg, DepositRecord), ContractError>)
    ensures
        match r {
            Ok((msg, record)) => spec_route_native(
                config@,
                now,
                info.sender@,
                coins(info.funds@),
                denom@,
                amount,
            ) == Ok::<(CosmosMsgView, DepositRecordView), ContractError>((msg@, record@)),
            Err(e) => spec_route_native(
                config@,
                now,
                info.sender@,
                coins(info.funds@),
                denom@,
                amount,
            ) == Err::<(CosmosMsgView, DepositRecordView), ContractError>(e),
        },
{
    let sent = sent_amount(&info.funds, &denom);
    if sent != amount {
        return Err(ContractError::FundMismatch { sent, requested: amount });
    }
    if sent == 0 {
        return Err(ContractError::NoFundsSent);
    }
    let mut sending: Vec<Coin> = Vec::new();
    sending.push(Coin { denom: denom.clone(), amount });
    assert(coins(sending@) =~= seq![CoinView { denom: denom@, amount }]);
    let msg = CosmosMsg::Bank(
        BankMsg::Send { to_address: config.admin_wallet.clone(), amount: sending },
    );
    let record = DepositRecord {
        sender: info.sender.clone(),
        amount,
        token_address: denom,
        token_type: TokenType::Native,
        timestamp: now,
        destination: config.admin_wallet.clone(),
    };
    Ok((msg, record))
}

/// What a deposit through the token contract `token` comes to, given the
/// encoded transfer order. The contract must be on the whitelist; whether the
/// sender's allowance covers the amount is for the token contract to say when
/// the order reaches it.
pub open spec fn spec_route_cw20(
    config: ConfigView,
    now: u64,
    sender: Seq<char>,
    token: Seq<char>,
    amount: u128,
    payload: Option<Seq<u8>>,
) -> Result<(CosmosMsgView, DepositRecordView), ContractError> {
    if !config.whitelist.contains(token) {
        Err(ContractError::NotWhitelisted)
    } else {
        match payload {
            None => Err(ContractError::Serialization),
            Some(bytes) => Ok(
                (
                    CosmosMsgView::WasmExecute {
                        contract_addr: token,
                        msg: bytes,
                        funds: Seq::empty(),
                    },
                    DepositRecordView {
                        sender,
                        amount,
                        token_address: token,
                        token_type: TokenType::Cw20,
                        timestamp: now,
                        destination: config.admin_wallet,
                    },
                ),
            ),
        }
    }
}

/// Routes a deposit through the token contract `token`: on success, the call
/// to that contract with `payload` as its message and no funds, and the audit
/// record. `payload` is the encoded order to move `amount` from the sender to
/// the admin wallet, or nothing if it could not be encoded.
pub fn route_cw20(
    config: &Config,
    now: u64,
    sender: &String,
    token: String,
    amount: u128,
    payload: Option<Vec<u8>>,
) -> (r: Result<(CosmosMsg, DepositRecord), ContractError>)
    ensures
        match r {
            Ok((msg, record)) => spec_route_cw20(
                config@,
                now,
                sender@,
                token@,
                amount,
                payload_bytes(payload),
            ) == Ok::<(CosmosMsgView, DepositRecordView), ContractError>((msg@, record@)),
            Err(e) => spec_route_cw20(
                config@,
                now,
                sender@,
                token@,
                amount,
                payload_bytes(payload),
            ) == Err::<(CosmosMsgView, DepositRecordView), ContractError>(e),
        },
{
    if !config.is_whitelisted(&token) {
        return Err(ContractError::NotWhitelisted);
    }
    match payload {
        None => Err(ContractError::Serialization),
        Some(bytes) => {
            let funds: Vec<Coin> = Vec::new();
            assert(coins(funds@) =~= Seq::empty());
            let msg = CosmosMsg::Wasm(
                WasmMsg::Execute { contract_addr: token.clone(), msg: bytes, funds },
            );
            let record = DepositRecord {
                sender: sender.clone(),
                amount,
                token_address: token,
                token_type: TokenType::Cw20,
                timestamp: now,
                destination: config.admin_wallet.clone(),
            };
            Ok((msg, record))
        },
    }
}

} // verus!
