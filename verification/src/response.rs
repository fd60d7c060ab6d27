//! What an accepted call hands back to the host: the messages to dispatch and
//! the events to log.

use vstd::prelude::*;

verus! {

/// An amount of one denomination.
#[derive(Clone, Debug, PartialEq, Eq)]
pub struct Coin {
    pub denom: String,
    pub amount: u128,
}

/// A coin as plain values.
pub struct CoinView {
    pub denom: Seq<char>,
    pub amount: u128,
}

impl View for Coin {
    type V = CoinView;

    open spec fn view(&self) -> CoinView {
        CoinView { denom: self.denom@, amount: self.amount }
    }
}

/// The coins of a list as plain values, in order.
pub open spec fn coins(list: Seq<Coin>) -> Seq<CoinView> {
    list.map_values(|c: Coin| c@)
}

/// An order to the bank module.
#[derive(Clone, Debug, PartialEq, Eq)]
pub enum BankMsg {
    /// Move `amount` from this contract to `to_address`.
    Send { to_address: String, amount: Vec<Coin> },
}

/// An order to another contract.
#[derive(Clone, Debug, PartialEq, Eq)]
pub enum WasmMsg {
    /// Call `contract_addr` with the JSON message `msg`, passing `funds` along.
    Execute { contract_addr: String, msg: Vec<u8>, funds: Vec<Coin> },
}

/// A message for the host to dispatch once the call has returned.
#[derive(Clone, Debug, PartialEq, Eq)]
pub enum CosmosMsg {
    Bank(BankMsg),
    Wasm(WasmMsg),
}

/// A message as plain values.
pub enum CosmosMsgView {
    BankSend { to_address: Seq<char>, amount: Seq<CoinView> },
    WasmExecute { contract_addr: Seq<char>, msg: Seq<u8>, funds: Seq<CoinView> },
}

impl View for CosmosMsg {
    type V = CosmosMsgView;

    open spec fn view(&self) -> CosmosMsgView {
        match self {
            CosmosMsg::Bank(BankMsg::Send { to_address, amount }) => CosmosMsgView::BankSend {
                to_address: to_address@,
                amount: coins(amount@),
            },
            CosmosMsg::Wasm(WasmMsg::Execute { contract_addr, msg, funds }) => {
                CosmosMsgView::WasmExecute {
                    contract_addr: contract_addr@,
                    msg: msg@,
                    funds: coins(funds@),
                }
            },
        }
    }
}

/// A key and its value, as logged with an event.
#[derive(Clone, Debug, PartialEq, Eq)]
pub struct Attribute {
    pub key: String,
    pub value: String,
}

impl View for Attribute {
    type V = (Seq<char>, Seq<char>);

    open spec fn view(&self) -> (Seq<char>, Seq<char>) {
        (self.key@, self.value@)
    }
}

/// An entry for the host's event log.
#[derive(Clone, Debug, PartialEq, Eq)]
pub struct Event {
    pub ty: String,
    pub attributes: Vec<Attribute>,
}

/// An event as plain values: its type, and its attributes in order.
pub struct EventView {
    pub ty: Seq<char>,
    pub attributes: Seq<(Seq<char>, Seq<char>)>,
}

impl View for Event {
    type V = EventView;

    open spec fn view(&self) -> EventView {
        EventView { ty: self.ty@, attributes: self.attributes@.map_values(|a: Attribute| a@) }
    }
}

impl Event {
    /// An event of type `ty` without attributes.
    pub fn new(ty: &str) -> (event: Event)
        ensures
            event@ == (EventView { ty: ty@, attributes: Seq::empty() }),
    {
        let event = Event { ty: ty.to_owned(), attributes: Vec::new() };
        assert(event@.attributes =~= Seq::empty());
        event
    }

    /// The event with one more attribute at the end.
    pub fn add_attribute(self, key: &str, value: String) -> (event: Event)
        ensures
            event@ == (EventView {
                ty: self@.ty,
                attributes: self@.attributes.push((key@, value@)),
            }),
    {
        let mut event = self;
        event.attributes.push(Attribute { key: key.to_owned(), value });
        assert(event@.attributes =~= self@.attributes.push((key@, value@)));
        event
    }
}

/// The outcome of an accepted call.
#[derive(Clone, Debug, PartialEq, Eq)]
pub struct Response {
    pub messages: Vec<CosmosMsg>,
    pub events: Vec<Event>,
}

/// A response as plain values.
pub struct ResponseView {
    pub messages: Seq<CosmosMsgView>,
    pub events: Seq<EventView>,
}

impl View for Response {
    type V = ResponseView;

    open spec fn view(&self) -> ResponseView {
        ResponseView {
            messages: self.messages@.map_values(|m: CosmosMsg| m@),
            events: self.events@.map_values(|e: Event| e@),
        }
    }
}

impl Response {
    /// A response without messages or events.
    pub fn new() -> (response: Response)
        ensures
            response@ == (ResponseView { messages: Seq::empty(), events: Seq::empty() }),
    {
        let response = Response { messages: Vec::new(), events: Vec::new() };
        assert(response@.messages =~= Seq::empty());
        assert(response@.events =~= Seq::empty());
        response
    }

    /// The response with one more message at the end.
    pub fn add_message(self, msg: CosmosMsg) -> (response: Response)
        ensures
            response@ == (ResponseView { messages: self@.messages.push(msg@), ..self@ }),
    {
        let mut response = self;
        response.messages.push(msg);
        assert(response@.messages =~= self@.messages.push(msg@));
        response
    }

    /// The response with one more event at the end.
    pub fn add_event(self, event: Event) -> (response: Response)
        ensures
            response@ == (ResponseView { events: self@.events.push(event@), ..self@ }),
    {
        let mut response = self;
        response.events.push(event);
        assert(response@.events =~= self@.events.push(event@));
        response
    }
}

} // verus!
