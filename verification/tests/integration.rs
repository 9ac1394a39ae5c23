//! End-to-end scenarios: a small in-memory chain (bank balances, the aggregator's stored
//! configuration, address validation, and mock venue routers) drives the library's decisions
//! and carries out the messages they emit, reverting everything when any step fails.

use std::collections::HashMap;

use ninjucks::contract::{execute, instantiate, query};
use ninjucks::error::{ContractError, StdError};
use ninjucks::host::{addresses_to_check, balance_denom, Env, HostReads, MessageInfo};
use ninjucks::mock_router;
use ninjucks::msg::{ExecuteMsg, InstantiateMsg, QueryMsg, SwapParams, Venue};
use ninjucks::response::{Coin, CosmosMsg, Response, WasmPayload};
use ninjucks::state::Config;

const OFFER: &str = "uoffer";
const ASK: &str = "inj";

fn addr(name: &str) -> String {
    format!("cosmwasm1{name}")
}

fn coin(amount: u128, denom: &str) -> Coin {
    Coin { denom: denom.to_string(), amount }
}

/// The chain's address validation: well-formed addresses carry the chain prefix.
fn validate(a: &str) -> Result<(), StdError> {
    if a.starts_with("cosmwasm1") && a.chars().all(|c| c.is_ascii_lowercase() || c.is_ascii_digit() || c == '-') {
        Ok(())
    } else {
        Err(StdError::GenericErr { msg: "Error decoding bech32".to_string() })
    }
}

#[derive(Clone)]
struct Chain {
    balances: HashMap<(String, String), u128>,
    ninjucks: String,
    config: Option<Config>,
    routers: Vec<String>,
    routes: HashMap<Vec<u8>, mock_router::ExecuteMsg>,
}

enum Call {
    Ninjucks(ExecuteMsg),
    Router(Vec<u8>),
}

impl Chain {
    fn new() -> Chain {
        Chain {
            balances: HashMap::new(),
            ninjucks: addr("ninjucks"),
            config: None,
            routers: Vec::new(),
            routes: HashMap::new(),
        }
    }

    fn fund(&mut self, who: &str, amount: u128, denom: &str) {
        *self.balances.entry((who.to_string(), denom.to_string())).or_insert(0) += amount;
    }

    fn balance(&self, who: &str, denom: &str) -> u128 {
        *self.balances.get(&(who.to_string(), denom.to_string())).unwrap_or(&0)
    }

    fn transfer(&mut self, from: &str, to: &str, coins: &[Coin]) -> Result<(), String> {
        for c in coins {
            let have = self.balance(from, &c.denom);
            if have < c.amount {
                return Err(format!("insufficient funds: {} has {} {}", from, have, c.denom));
            }
            self.balances.insert((from.to_string(), c.denom.clone()), have - c.amount);
            self.fund(to, c.amount, &c.denom);
        }
        Ok(())
    }

    fn add_router(&mut self, name: &str) -> String {
        let a = addr(name);
        let _ = mock_router::instantiate(mock_router::InstantiateMsg {});
        self.routers.push(a.clone());
        a
    }

    fn instantiate(&mut self, sender: &str, msg: InstantiateMsg) -> Result<Response, ContractError> {
        let admin_check = match &msg.admin {
            Some(a) => validate(a),
            None => Ok(()),
        };
        let choice_check = validate(&msg.choice_router);
        let hallswap_check = validate(&msg.hallswap_router);
        let (cfg, resp) = instantiate(
            sender.to_string(),
            msg,
            admin_check,
            choice_check,
            hallswap_check,
            "0.1.0",
        )?;
        self.config = Some(cfg);
        Ok(resp)
    }

    fn query_config(&self) -> Result<Config, StdError> {
        query(self.loaded(), QueryMsg::Config {})
    }

    fn loaded(&self) -> Result<Config, StdError> {
        self.config.clone().ok_or(StdError::NotFound { kind: "config".to_string() })
    }

    fn route_for(&mut self, return_amount: u128) -> Vec<u8> {
        self.route_in(ASK, return_amount)
    }

    fn route_in(&mut self, denom: &str, return_amount: u128) -> Vec<u8> {
        let bytes = format!(
            "{{\"mock_swap\":{{\"return_denom\":\"{denom}\",\"return_amount\":\"{return_amount}\"}}}}"
        )
        .into_bytes();
        self.routes.insert(
            bytes.clone(),
            mock_router::ExecuteMsg::MockSwap { return_denom: denom.to_string(), return_amount },
        );
        bytes
    }

    /// Runs one transaction: all of it, or none of it.
    fn execute_contract(&mut self, sender: &str, msg: ExecuteMsg, funds: Vec<Coin>) -> Result<Response, String> {
        let snapshot = self.clone();
        let r = self.run_ninjucks(sender, msg, funds);
        if r.is_err() {
            *self = snapshot;
        }
        r
    }

    fn run_ninjucks(&mut self, sender: &str, msg: ExecuteMsg, funds: Vec<Coin>) -> Result<Response, String> {
        let ninjucks = self.ninjucks.clone();
        self.transfer(sender, &ninjucks, &funds)?;
        let sender = sender.to_string();
        let checks = addresses_to_check(&msg, &sender).iter().map(|a| validate(a)).collect();
        let ask_balance = match balance_denom(&msg) {
            Some(d) => Ok(self.balance(&ninjucks, &d)),
            None => Ok(0),
        };
        let reads = HostReads { config: self.loaded(), address_checks: checks, ask_balance };
        let env = Env { contract_address: ninjucks.clone() };
        let outcome = execute(&env, MessageInfo { sender, funds }, msg, reads)
            .map_err(|e| format!("{e:?}"))?;
        if let Some(cfg) = outcome.config {
            self.config = Some(cfg);
        }
        for m in outcome.response.messages.iter() {
            self.dispatch(&ninjucks, m)?;
        }
        Ok(outcome.response)
    }

    fn dispatch(&mut self, from: &str, m: &CosmosMsg) -> Result<(), String> {
        match m {
            CosmosMsg::BankSend { to_address, amount } => self.transfer(from, to_address, amount),
            CosmosMsg::WasmExecute { contract_addr, msg, funds } => {
                let call = match msg {
                    WasmPayload::Route(bytes) => Call::Router(bytes.clone()),
                    WasmPayload::AssertAndPay { ask_denom, minimum_receive, recipient, balance_before } => {
                        Call::Ninjucks(ExecuteMsg::AssertAndPay {
                            ask_denom: ask_denom.clone(),
                            minimum_receive: *minimum_receive,
                            recipient: recipient.clone(),
                            balance_before: *balance_before,
                        })
                    }
                };
                match call {
                    Call::Ninjucks(msg) if *contract_addr == self.ninjucks => {
                        self.run_ninjucks(from, msg, funds.clone()).map(|_| ())
                    }
                    Call::Router(bytes) if self.routers.contains(contract_addr) => {
                        self.transfer(from, contract_addr, funds)?;
                        let rmsg = self.routes.get(&bytes).cloned().ok_or("router cannot parse route")?;
                        let resp = mock_router::execute(from.to_string(), rmsg);
                        for rm in resp.messages.iter() {
                            self.dispatch(contract_addr, rm)?;
                        }
                        Ok(())
                    }
                    _ => Err(format!("no contract at {contract_addr} understands the call")),
                }
            }
        }
    }
}

struct World {
    chain: Chain,
    choice: String,
    hallswap: String,
    user: String,
}

fn setup(router_ask_funding: u128) -> World {
    let mut chain = Chain::new();
    let user = addr("user");
    let admin = addr("admin");
    chain.fund(&user, 1_000_000, OFFER);
    let choice = chain.add_router("choice");
    let hallswap = chain.add_router("hallswap");
    chain.fund(&choice, router_ask_funding, ASK);
    chain.fund(&hallswap, router_ask_funding, ASK);
    chain
        .instantiate(
            &admin,
            InstantiateMsg {
                admin: Some(admin.clone()),
                choice_router: choice.clone(),
                hallswap_router: hallswap.clone(),
            },
        )
        .unwrap();
    World { chain, choice, hallswap, user }
}

fn swap(venue: Venue, route: Vec<u8>, minimum_receive: u128, recipient: Option<String>) -> SwapParams {
    SwapParams { venue, route, ask_denom: ASK.to_string(), minimum_receive, recipient }
}

#[test]
fn public_swap_pays_recipient() {
    let ret = 500_000u128;
    let mut w = setup(10_000_000);
    let recipient = addr("recipient");
    let route = w.chain.route_for(ret);
    w.chain
        .execute_contract(
            &w.user,
            ExecuteMsg::Swap(swap(Venue::Choice, route, 400_000, Some(recipient.clone()))),
            vec![coin(100_000, OFFER)],
        )
        .unwrap();
    // The recipient got exactly the router's delivered amount; the aggregator holds nothing.
    assert_eq!(w.chain.balance(&recipient, ASK), ret);
    assert_eq!(w.chain.balance(&w.chain.ninjucks, ASK), 0);
    // The offer was forwarded to the router, not stuck in the aggregator.
    assert_eq!(w.chain.balance(&w.chain.ninjucks, OFFER), 0);
    assert_eq!(w.chain.balance(&w.choice, OFFER), 100_000);
}

#[test]
fn slippage_reverts_atomically() {
    let ret = 100u128;
    let mut w = setup(10_000_000);
    let recipient = addr("recipient");
    let route = w.chain.route_for(ret);
    let err = w.chain.execute_contract(
        &w.user,
        ExecuteMsg::Swap(swap(Venue::Choice, route, 1_000_000, Some(recipient.clone()))),
        vec![coin(100_000, OFFER)],
    );
    assert!(err.is_err(), "expected slippage revert");
    // Atomic: the recipient got nothing, the user keeps the offer.
    assert_eq!(w.chain.balance(&recipient, ASK), 0);
    assert_eq!(w.chain.balance(&w.user, OFFER), 1_000_000);
}

#[test]
fn injective_exec_pays_origin_by_default() {
    let ret = 250_000u128;
    let mut w = setup(10_000_000);
    let route = w.chain.route_for(ret);
    w.chain
        .execute_contract(
            &w.user.clone(),
            ExecuteMsg::InjectiveExec {
                origin: w.user.clone(),
                name: "swap".to_string(),
                args: swap(Venue::Hallswap, route, 200_000, None),
            },
            vec![coin(100_000, OFFER)],
        )
        .unwrap();
    // The origin received the ask, routed through the HallSwap router specifically.
    assert_eq!(w.chain.balance(&w.user, ASK), ret);
    assert_eq!(w.chain.balance(&w.hallswap, OFFER), 100_000);
    assert_eq!(w.chain.balance(&w.choice, OFFER), 0);
}

#[test]
fn injective_exec_returns_no_action_data() {
    let ret = 300_000u128;
    let mut w = setup(10_000_000);
    let route = w.chain.route_for(ret);
    let resp = w
        .chain
        .execute_contract(
            &w.user.clone(),
            ExecuteMsg::InjectiveExec {
                origin: w.user.clone(),
                name: "anything".to_string(),
                args: swap(Venue::Choice, route, 1, None),
            },
            vec![coin(100_000, OFFER)],
        )
        .unwrap();
    assert!(resp.data.is_none(), "injective_exec must not return response data: {:?}", resp.data);
}

#[test]
fn injective_exec_ignores_name_field() {
    let ret = 300_000u128;
    let mut w = setup(10_000_000);
    for name in ["", "swap", "arbitrary_op_name", "ROUTE"] {
        let before = w.chain.balance(&w.user, ASK);
        let route = w.chain.route_for(ret);
        w.chain
            .execute_contract(
                &w.user.clone(),
                ExecuteMsg::InjectiveExec {
                    origin: w.user.clone(),
                    name: name.to_string(),
                    args: swap(Venue::Hallswap, route, 1, None),
                },
                vec![coin(50_000, OFFER)],
            )
            .unwrap();
        let after = w.chain.balance(&w.user, ASK);
        assert_eq!(after - before, ret, "name={name:?} should still route");
    }
}

#[test]
fn cycle_offer_equals_ask_pays_full_output() {
    // offer = ASK. The user sends 100_000; the router returns 130_000 of the same denom.
    let ret = 130_000u128;
    let mut chain = Chain::new();
    let user = addr("user");
    let admin = addr("admin");
    chain.fund(&user, 1_000_000, ASK);
    let router = chain.add_router("r");
    chain.fund(&router, 10_000_000, ASK);
    chain
        .instantiate(
            &admin,
            InstantiateMsg {
                admin: Some(admin.clone()),
                choice_router: router.clone(),
                hallswap_router: router.clone(),
            },
        )
        .unwrap();
    let before = chain.balance(&user, ASK);
    let route = chain.route_for(ret);
    chain
        .execute_contract(
            &user,
            ExecuteMsg::Swap(swap(Venue::Choice, route, 120_000, Some(user.clone()))),
            vec![coin(100_000, ASK)],
        )
        .unwrap();
    let after = chain.balance(&user, ASK);
    // The payout is the full 130_000 output, not 130_000 - 100_000.
    assert_eq!(after, before - 100_000 + ret);
    // The aggregator holds no residual.
    assert_eq!(chain.balance(&chain.ninjucks, ASK), 0);
}

#[test]
fn assert_and_pay_rejects_external_caller() {
    let mut w = setup(0);
    let err = w.chain.execute_contract(
        &w.user.clone(),
        ExecuteMsg::AssertAndPay {
            ask_denom: ASK.to_string(),
            minimum_receive: 0,
            recipient: w.user.clone(),
            balance_before: 0,
        },
        vec![],
    );
    assert!(err.is_err(), "external AssertAndPay must be rejected");
}

#[test]
fn config_and_admin() {
    let mut w = setup(0);
    let cfg = w.chain.query_config().unwrap();
    assert_eq!(cfg.choice_router, w.choice);
    assert_eq!(cfg.hallswap_router, w.hallswap);
    // A non-admin cannot update.
    let err = w.chain.execute_contract(
        &w.user.clone(),
        ExecuteMsg::UpdateConfig { choice_router: Some(w.user.clone()), hallswap_router: None },
        vec![],
    );
    assert!(err.is_err(), "non-admin update must be rejected");
}

#[test]
fn zero_minimum_receive_rejected() {
    let ret = 500_000u128;
    let mut w = setup(10_000_000);
    let route = w.chain.route_for(ret);
    let err = w.chain.execute_contract(
        &w.user.clone(),
        ExecuteMsg::Swap(swap(Venue::Choice, route, 0, None)),
        vec![coin(100_000, OFFER)],
    );
    assert!(err.is_err(), "minimum_receive == 0 must be rejected");
}

#[test]
fn withdraw_admin_only_recovers_stray_funds() {
    let mut w = setup(0);
    let admin = addr("admin");
    // Strand some offer dust in the aggregator (a router refunding unspent offer).
    let ninjucks = w.chain.ninjucks.clone();
    w.chain.fund(&ninjucks, 777, OFFER);
    // A non-admin is rejected.
    assert!(w
        .chain
        .execute_contract(
            &w.user.clone(),
            ExecuteMsg::Withdraw { denom: OFFER.to_string(), amount: 777, to: None },
            vec![],
        )
        .is_err());
    // The admin recovers to itself.
    w.chain
        .execute_contract(
            &admin,
            ExecuteMsg::Withdraw { denom: OFFER.to_string(), amount: 777, to: None },
            vec![],
        )
        .unwrap();
    assert_eq!(w.chain.balance(&admin, OFFER), 777);
    assert_eq!(w.chain.balance(&ninjucks, OFFER), 0);
}

#[test]
fn two_step_admin_transfer() {
    let mut w = setup(0);
    let admin = addr("admin");
    let next = addr("next-admin");
    // Only the admin can propose.
    assert!(w
        .chain
        .execute_contract(&w.user.clone(), ExecuteMsg::ProposeAdmin { new_admin: next.clone() }, vec![])
        .is_err());
    w.chain
        .execute_contract(&admin, ExecuteMsg::ProposeAdmin { new_admin: next.clone() }, vec![])
        .unwrap();
    // A non-pending party cannot accept.
    assert!(w.chain.execute_contract(&w.user.clone(), ExecuteMsg::AcceptAdmin {}, vec![]).is_err());
    // The pending admin accepts.
    w.chain.execute_contract(&next, ExecuteMsg::AcceptAdmin {}, vec![]).unwrap();
    let cfg = w.chain.query_config().unwrap();
    assert_eq!(cfg.admin, next);
    assert_eq!(cfg.pending_admin, None);
    // The old admin is no longer authorized.
    assert!(w
        .chain
        .execute_contract(
            &admin,
            ExecuteMsg::UpdateConfig { choice_router: Some(w.user.clone()), hallswap_router: None },
            vec![],
        )
        .is_err());
}

#[test]
fn swap_with_invalid_recipient_reverts() {
    let mut w = setup(10_000_000);
    let route = w.chain.route_for(500_000);
    let r = w.chain.execute_contract(
        &w.user.clone(),
        ExecuteMsg::Swap(swap(Venue::Choice, route, 1, Some("not-an-address".to_string()))),
        vec![coin(100_000, OFFER)],
    );
    assert!(r.is_err());
    assert_eq!(w.chain.balance(&w.user, OFFER), 1_000_000);
}

#[test]
fn misrouted_output_reverts_with_nothing_received() {
    // The route pays in a denomination other than the ask: the ask delta is zero.
    let mut w = setup(10_000_000);
    w.chain.fund(&w.choice.clone(), 10_000_000, "other");
    let route = w.chain.route_in("other", 500_000);
    let r = w.chain.execute_contract(
        &w.user.clone(),
        ExecuteMsg::Swap(swap(Venue::Choice, route, 1, None)),
        vec![coin(100_000, OFFER)],
    );
    assert!(r.unwrap_err().contains("NothingReceived"));
    assert_eq!(w.chain.balance(&w.user, OFFER), 1_000_000);
}
