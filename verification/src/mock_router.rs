//! A stand-in venue router for exercising the aggregator: on `MockSwap` it pays the caller
//! `return_amount` of `return_denom`, simulating a swap output. It is to be pre-funded with the
//! ask asset. Not part of the aggregator.

use vstd::prelude::*;

use crate::contract::is_bare_with;
use crate::response::{attrs_view, coins_view, is_single_payment, Attribute, Coin, CoinView, CosmosMsg, Response};

verus! {

/// Sets up the router; carries nothing.
#[derive(Clone, Copy, Debug, PartialEq, Eq, Structural)]
pub struct InstantiateMsg {}

/// The router's requests.
#[derive(Clone, Debug, PartialEq, Eq)]
pub enum ExecuteMsg {
    /// Mirrors an aggregator route body: pay the caller `return_amount` of `return_denom`.
    MockSwap { return_denom: String, return_amount: u128 },
}

/// Sets up the router: nothing to store, an empty response.
pub fn instantiate(msg: InstantiateMsg) -> (resp: Response)
    ensures
        is_bare_with(resp, seq![]),
{
    let resp = Response::new();
    proof {
        assert(attrs_view(resp.attributes@) =~= seq![]);
    }
    resp
}

/// Pays the caller the requested output.
pub fn execute(sender: String, msg: ExecuteMsg) -> (resp: Response)
    ensures
        match msg {
            ExecuteMsg::MockSwap { return_denom, return_amount } => {
                &&& resp.messages@.len() == 1
                &&& is_single_payment(resp.messages@[0], sender@, return_denom@, return_amount)
                &&& attrs_view(resp.attributes@) == seq![("action"@, "mock_swap"@)]
                &&& resp.data is None
            },
        },
{
    match msg {
        ExecuteMsg::MockSwap { return_denom, return_amount } => {
            let ghost denom_view = return_denom@;
            let mut amount: Vec<Coin> = Vec::new();
            amount.push(Coin { denom: return_denom, amount: return_amount });
            let mut resp = Response::new();
            resp.messages.push(CosmosMsg::BankSend { to_address: sender, amount });
            resp.attributes.push(Attribute::new("action", "mock_swap".to_string()));
            proof {
                assert(coins_view(amount@) =~= seq![CoinView { denom: denom_view, amount: return_amount }]);
                assert(attrs_view(resp.attributes@) =~= seq![("action"@, "mock_swap"@)]);
            }
            resp
        },
    }
}

/// Answers any query with the encoding of an empty object, `{}`.
pub fn query() -> (bytes: Vec<u8>)
    ensures
        bytes@ == seq![0x7bu8, 0x7du8],
{
    let mut bytes: Vec<u8> = Vec::new();
    bytes.push(0x7bu8);
    bytes.push(0x7du8);
    proof {
        assert(bytes@ =~= seq![0x7bu8, 0x7du8]);
    }
    bytes
}

} // verus!
