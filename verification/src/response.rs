use vstd::prelude::*;

verus! {

/// An amount of one denomination.
#[derive(Clone, Debug, PartialEq, Eq)]
pub struct Coin {
    pub denom: String,
    pub amount: u128,
}

pub struct CoinView {
    pub denom: Seq<char>,
    pub amount: u128,
}

impl View for Coin {
    type V = CoinView;

    open spec fn view(&self) -> CoinView {
        CoinView { denom: self.denom@, amount: self.amount }
    }
}

pub open spec fn coins_view(coins: Seq<Coin>) -> Seq<CoinView> {
    coins.map_values(|c: Coin| c@)
}

/// A key/value pair that the response reports.
#[derive(Clone, Debug, PartialEq, Eq)]
pub struct Attribute {
    pub key: String,
    pub value: String,
}

/// The body of a contract call: either bytes that are forwarded untouched, or the
/// aggregator's own settlement request, which is encoded as its `assert_and_pay` message.
#[derive(Clone, Debug, PartialEq, Eq)]
pub enum WasmPayload {
    Route(Vec<u8>),
    AssertAndPay { ask_denom: String, minimum_receive: u128, recipient: String, balance_before: u128 },
}

/// A message that the response dispatches, in order, each without a reply.
#[derive(Clone, Debug, PartialEq, Eq)]
pub enum CosmosMsg {
    /// Pays `amount` from the aggregator to `to_address`.
    BankSend { to_address: String, amount: Vec<Coin> },
    /// Calls `contract_addr` with `msg`, attaching `funds`.
    WasmExecute { contract_addr: String, msg: WasmPayload, funds: Vec<Coin> },
}

/// What a handled request gives back to the chain.
#[derive(Clone, Debug, PartialEq, Eq)]
pub struct Response {
    pub messages: Vec<CosmosMsg>,
    pub attributes: Vec<Attribute>,
    pub data: Option<Vec<u8>>,
}

/// The attributes as pairs of character sequences.
pub open spec fn attrs_view(attrs: Seq<Attribute>) -> Seq<(Seq<char>, Seq<char>)> {
    attrs.map_values(|a: Attribute| (a.key@, a.value@))
}

/// `msg` pays exactly one coin of `amount` in `denom` to `to`.
pub open spec fn is_single_payment(msg: CosmosMsg, to: Seq<char>, denom: Seq<char>, amount: u128) -> bool {
    match msg {
        CosmosMsg::BankSend { to_address, amount: coins } => {
            &&& to_address@ == to
            &&& coins_view(coins@) == seq![CoinView { denom, amount }]
        },
        _ => false,
    }
}

/// A response with no messages and no data.
pub open spec fn is_bare(resp: Response) -> bool {
    resp.messages@.len() == 0 && resp.data is None
}

impl Attribute {
    pub fn new(key: &str, value: String) -> (a: Attribute)
        ensures
            a.key@ == key@,
            a.value == value,
    {
        Attribute { key: key.to_string(), value }
    }
}

impl Response {
    /// An empty response.
    pub fn new() -> (r: Response)
        ensures
            r.messages@.len() == 0,
            r.attributes@.len() == 0,
            r.data is None,
    {
        Response { messages: Vec::new(), attributes: Vec::new(), data: None }
    }
}

} // verus!
