use vstd::prelude::*;

use crate::contract::swap_recipient;
use crate::error::StdError;
use crate::msg::ExecuteMsg;
use crate::response::{Coin, Response};
use crate::state::Config;

verus! {

/// The environment a request runs in.
pub struct Env {
    /// The aggregator's own address.
    pub contract_address: String,
}

/// Who sent the request and what it attached.
pub struct MessageInfo {
    pub sender: String,
    pub funds: Vec<Coin>,
}

/// What the chain answered before a request is decided: the stored configuration, its verdict
/// on each address of `addresses_to_check` (in that order), and the aggregator's balance in the
/// denomination of `balance_denom` (looked at only when there is one).
pub struct HostReads {
    pub config: Result<Config, StdError>,
    pub address_checks: Vec<Result<(), StdError>>,
    pub ask_balance: Result<u128, StdError>,
}

/// A decided request: the response, and the configuration to store when there is one.
pub struct Outcome {
    pub response: Response,
    pub config: Option<Config>,
}

/// The single-element sequence of a given value, else the empty one.
pub open spec fn opt_seq(o: Option<String>) -> Seq<String> {
    match o {
        Some(s) => seq![s],
        None => seq![],
    }
}

/// The addresses that a request has the chain validate, in the order in which it looks at them.
pub open spec fn spec_addresses_to_check(msg: ExecuteMsg, sender: String) -> Seq<String> {
    match msg {
        ExecuteMsg::Swap(p) => seq![swap_recipient(p.recipient, sender)],
        ExecuteMsg::InjectiveExec { origin, args, .. } => seq![swap_recipient(args.recipient, origin)],
        ExecuteMsg::AssertAndPay { .. } => seq![],
        ExecuteMsg::UpdateConfig { choice_router, hallswap_router } => opt_seq(choice_router)
            + opt_seq(hallswap_router),
        ExecuteMsg::Withdraw { to, .. } => opt_seq(to),
        ExecuteMsg::ProposeAdmin { new_admin } => seq![new_admin],
        ExecuteMsg::AcceptAdmin {} => seq![],
    }
}

/// The denomination whose balance of the aggregator a request looks at, if any.
pub open spec fn spec_balance_denom(msg: ExecuteMsg) -> Option<String> {
    match msg {
        ExecuteMsg::Swap(p) => Some(p.ask_denom),
        ExecuteMsg::InjectiveExec { args, .. } => Some(args.ask_denom),
        ExecuteMsg::AssertAndPay { ask_denom, .. } => Some(ask_denom),
        _ => None,
    }
}

fn opt_vec(o: &Option<String>) -> (v: Vec<String>)
    ensures
        v@ == opt_seq(*o),
{
    let mut v: Vec<String> = Vec::new();
    if let Some(s) = o {
        v.push(s.clone());
    }
    proof {
        assert(v@ =~= opt_seq(*o));
    }
    v
}

/// The addresses that `msg`, sent by `sender`, has the chain validate.
pub fn addresses_to_check(msg: &ExecuteMsg, sender: &String) -> (v: Vec<String>)
    ensures
        v@ == spec_addresses_to_check(*msg, *sender),
{
    let mut v: Vec<String> = Vec::new();
    match msg {
        ExecuteMsg::Swap(p) => {
            match &p.recipient {
                Some(r) => v.push(r.clone()),
                None => v.push(sender.clone()),
            }
        },
        ExecuteMsg::InjectiveExec { origin, args, .. } => {
            match &args.recipient {
                Some(r) => v.push(r.clone()),
                None => v.push(origin.clone()),
            }
        },
        ExecuteMsg::AssertAndPay { .. } => {},
        ExecuteMsg::UpdateConfig { choice_router, hallswap_router } => {
            let mut c = opt_vec(choice_router);
            let mut h = opt_vec(hallswap_router);
            v.append(&mut c);
            v.append(&mut h);
        },
        ExecuteMsg::Withdraw { to, .. } => {
            v = opt_vec(to);
        },
        ExecuteMsg::ProposeAdmin { new_admin } => v.push(new_admin.clone()),
        ExecuteMsg::AcceptAdmin {} => {},
    }
    proof {
        assert(v@ =~= spec_addresses_to_check(*msg, *sender));
    }
    v
}

/// The denomination whose balance `msg` looks at, if any.
pub fn balance_denom(msg: &ExecuteMsg) -> (d: Option<String>)
    ensures
        d == spec_balance_denom(*msg),
{
    match msg {
        ExecuteMsg::Swap(p) => Some(p.ask_denom.clone()),
        ExecuteMsg::InjectiveExec { args, .. } => Some(args.ask_denom.clone()),
        ExecuteMsg::AssertAndPay { ask_denom, .. } => Some(ask_denom.clone()),
        _ => None,
    }
}

} // verus!
