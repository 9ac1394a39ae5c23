use vstd::prelude::*;

use crate::decimal::{decimal_chars, decimal_string};
use crate::error::{checked_sub, ContractError, OverflowError, OverflowOperation, StdError};
use crate::host::{spec_addresses_to_check, Env, HostReads, MessageInfo, Outcome};
use crate::msg::{ExecuteMsg, InstantiateMsg, QueryMsg, SwapParams, Venue};
use crate::response::{
    attrs_view, coins_view, is_bare, is_single_payment, Attribute, Coin, CoinView, CosmosMsg,
    Response, WasmPayload,
};
use crate::state::{opt_str_view, Config, ConfigView};

verus! {

// ---------------------------------------------------------------------------------------------
// The swap accounting, stated on plain values.
// ---------------------------------------------------------------------------------------------

/// The router that a swap through `venue` is sent to.
pub open spec fn router_for(cfg: ConfigView, venue: Venue) -> Seq<char> {
    match venue {
        Venue::Choice => cfg.choice_router,
        Venue::Hallswap => cfg.hallswap_router,
    }
}

/// Where the proceeds of a swap go: the given recipient, else the caller of record.
pub open spec fn swap_recipient(recipient: Option<String>, caller: String) -> String {
    match recipient {
        Some(r) => r,
        None => caller,
    }
}

/// The ask-denom balance that the swap output is measured against: the contract's current
/// ask balance, less the offer when the offer is itself in the ask denom (that offer is about
/// to be spent into the swap). Refused when the offer exceeds the balance that holds it.
pub open spec fn swap_baseline(
    offer_denom: Seq<char>,
    offer_amount: u128,
    ask_denom: Seq<char>,
    ask_balance_now: u128,
) -> Result<u128, OverflowError> {
    if offer_denom == ask_denom {
        if ask_balance_now >= offer_amount {
            Ok((ask_balance_now - offer_amount) as u128)
        } else {
            Err(OverflowError { operation: OverflowOperation::Sub })
        }
    } else {
        Ok(ask_balance_now)
    }
}

/// What settling a swap pays out: the whole ask-denom delta since the baseline, provided that
/// it is positive and reaches the minimum.
pub open spec fn settlement(balance_now: u128, balance_before: u128, minimum: u128) -> Result<
    u128,
    ContractError,
> {
    if balance_now < balance_before {
        Err(ContractError::Overflow(OverflowError { operation: OverflowOperation::Sub }))
    } else if balance_now == balance_before {
        Err(ContractError::NothingReceived)
    } else if balance_now - balance_before < minimum {
        Err(
            ContractError::SlippageExceeded {
                received: (balance_now - balance_before) as u128,
                minimum,
            },
        )
    } else {
        Ok((balance_now - balance_before) as u128)
    }
}

/// The response of a routed swap: first the venue call that forwards the route with the offer,
/// then the self-call that settles against `baseline`; no data.
pub open spec fn is_swap_response(
    resp: Response,
    router: Seq<char>,
    contract: Seq<char>,
    offer: CoinView,
    route: Seq<u8>,
    ask_denom: Seq<char>,
    minimum: u128,
    recipient: Seq<char>,
    baseline: u128,
) -> bool {
    &&& resp.messages@.len() == 2
    &&& match resp.messages@[0] {
        CosmosMsg::WasmExecute { contract_addr, msg: WasmPayload::Route(bytes), funds } => {
            &&& contract_addr@ == router
            &&& bytes@ == route
            &&& coins_view(funds@) == seq![offer]
        },
        _ => false,
    }
    &&& match resp.messages@[1] {
        CosmosMsg::WasmExecute {
            contract_addr,
            msg: WasmPayload::AssertAndPay { ask_denom: d, minimum_receive, recipient: to, balance_before },
            funds,
        } => {
            &&& contract_addr@ == contract
            &&& d@ == ask_denom
            &&& minimum_receive == minimum
            &&& to@ == recipient
            &&& balance_before == baseline
            &&& funds@.len() == 0
        },
        _ => false,
    }
    &&& attrs_view(resp.attributes@) == seq![
        ("action"@, "swap"@),
        ("ask_denom"@, ask_denom),
        ("recipient"@, recipient),
    ]
    &&& resp.data is None
}

/// The response of a settlement: one payment of `received` to the recipient; no data.
pub open spec fn is_payout_response(
    resp: Response,
    recipient: Seq<char>,
    ask_denom: Seq<char>,
    received: u128,
) -> bool {
    &&& resp.messages@.len() == 1
    &&& is_single_payment(resp.messages@[0], recipient, ask_denom, received)
    &&& attrs_view(resp.attributes@) == seq![
        ("action"@, "assert_and_pay"@),
        ("received"@, decimal_chars(received as nat)),
        ("recipient"@, recipient),
    ]
    &&& resp.data is None
}

/// What `do_swap` gives.
pub open spec fn swap_post(
    loaded: Result<Config, StdError>,
    contract_address: String,
    funds: Seq<Coin>,
    caller: String,
    params: SwapParams,
    recipient_check: Result<(), StdError>,
    ask_balance: Result<u128, StdError>,
    r: Result<Response, ContractError>,
) -> bool {
    match loaded {
        Err(e) => r == Err::<Response, ContractError>(ContractError::Std(e)),
        Ok(cfg) => if funds.len() != 1 {
            r == Err::<Response, ContractError>(ContractError::OfferCoinRequired)
        } else if params.minimum_receive == 0 {
            r == Err::<Response, ContractError>(ContractError::ZeroMinimumReceive)
        } else if recipient_check is Err {
            r == Err::<Response, ContractError>(ContractError::Std(recipient_check->Err_0))
        } else if ask_balance is Err {
            r == Err::<Response, ContractError>(ContractError::Std(ask_balance->Err_0))
        } else {
            match swap_baseline(
                funds[0].denom@,
                funds[0].amount,
                params.ask_denom@,
                ask_balance->Ok_0,
            ) {
                Err(o) => r == Err::<Response, ContractError>(ContractError::Overflow(o)),
                Ok(baseline) => {
                    &&& r is Ok
                    &&& is_swap_response(
                        r->Ok_0,
                        router_for(cfg@, params.venue),
                        contract_address@,
                        funds[0]@,
                        params.route@,
                        params.ask_denom@,
                        params.minimum_receive,
                        swap_recipient(params.recipient, caller)@,
                        baseline,
                    )
                },
            }
        },
    }
}

/// Routes one swap: takes the single offer coin, forwards the venue-native `route` to the
/// configured router of `params.venue` with the offer as funds, and queues the self-call that
/// settles the ask-denom delta against the baseline and pays the recipient.
///
/// `loaded` is the stored configuration as read, `recipient_check` the chain's verdict on the
/// recipient address (`params.recipient`, else `caller`), and `ask_balance` the contract's
/// current balance in `params.ask_denom`, the offer already credited.
pub fn do_swap(
    loaded: Result<Config, StdError>,
    contract_address: &String,
    funds: Vec<Coin>,
    caller: String,
    params: SwapParams,
    recipient_check: Result<(), StdError>,
    ask_balance: Result<u128, StdError>,
) -> (r: Result<Response, ContractError>)
    ensures
        swap_post(
            loaded,
            *contract_address,
            funds@,
            caller,
            params,
            recipient_check,
            ask_balance,
            r,
        ),
{
    let cfg = match loaded {
        Ok(c) => c,
        Err(e) => return Err(ContractError::Std(e)),
    };
    // Exactly one offer coin.
    if funds.len() != 1 {
        return Err(ContractError::OfferCoinRequired);
    }
    let mut funds = funds;
    let offer = funds.pop().unwrap();
    // A zero floor would disable the slippage guard.
    if params.minimum_receive == 0 {
        return Err(ContractError::ZeroMinimumReceive);
    }
    let SwapParams { venue, route, ask_denom, minimum_receive, recipient } = params;
    let recipient = match recipient {
        Some(r) => r,
        None => caller,
    };
    match recipient_check {
        Ok(()) => {},
        Err(e) => return Err(ContractError::Std(e)),
    }
    let router = match venue {
        Venue::Choice => cfg.choice_router,
        Venue::Hallswap => cfg.hallswap_router,
    };
    let ask_balance_now = match ask_balance {
        Ok(b) => b,
        Err(e) => return Err(ContractError::Std(e)),
    };
    // The offer in the ask denom is part of the current balance and is about to be spent.
    let balance_before = if offer.denom == ask_denom {
        match checked_sub(ask_balance_now, offer.amount) {
            Ok(b) => b,
            Err(o) => return Err(ContractError::Overflow(o)),
        }
    } else {
        ask_balance_now
    };
    let ghost offer_view = offer@;
    let mut swap_funds: Vec<Coin> = Vec::new();
    swap_funds.push(offer);
    let swap_msg = CosmosMsg::WasmExecute {
        contract_addr: router,
        msg: WasmPayload::Route(route),
        funds: swap_funds,
    };
    let pay_msg = CosmosMsg::WasmExecute {
        contract_addr: contract_address.clone(),
        msg: WasmPayload::AssertAndPay {
            ask_denom: ask_denom.clone(),
            minimum_receive,
            recipient: recipient.clone(),
            balance_before,
        },
        funds: Vec::new(),
    };
    let mut resp = Response::new();
    resp.messages.push(swap_msg);
    resp.messages.push(pay_msg);
    resp.attributes.push(Attribute::new("action", "swap".to_string()));
    resp.attributes.push(Attribute::new("ask_denom", ask_denom));
    resp.attributes.push(Attribute::new("recipient", recipient));
    proof {
        assert(coins_view(swap_funds@) =~= seq![offer_view]);
        assert(attrs_view(resp.attributes@) =~= seq![
            ("action"@, "swap"@),
            ("ask_denom"@, params.ask_denom@),
            ("recipient"@, swap_recipient(params.recipient, caller)@),
        ]);
    }
    Ok(resp)
}

/// What `assert_and_pay` gives.
pub open spec fn settle_post(
    contract_address: String,
    sender: String,
    ask_denom: String,
    minimum_receive: u128,
    recipient: String,
    balance_before: u128,
    balance_now: Result<u128, StdError>,
    r: Result<Response, ContractError>,
) -> bool {
    if sender@ != contract_address@ {
        r == Err::<Response, ContractError>(ContractError::Unauthorized)
    } else {
        match balance_now {
            Err(e) => r == Err::<Response, ContractError>(ContractError::Std(e)),
            Ok(now) => match settlement(now, balance_before, minimum_receive) {
                Err(e) => r == Err::<Response, ContractError>(e),
                Ok(received) => r is Ok && is_payout_response(
                    r->Ok_0,
                    recipient@,
                    ask_denom@,
                    received,
                ),
            },
        }
    }
}

/// Settles a swap: only the contract itself may call this. Pays the whole ask-denom delta
/// `balance_now - balance_before` to `recipient`, refusing a delta that is zero or below
/// `minimum_receive`. `balance_now` is the contract's current balance in `ask_denom`.
pub fn assert_and_pay(
    contract_address: &String,
    sender: &String,
    ask_denom: String,
    minimum_receive: u128,
    recipient: String,
    balance_before: u128,
    balance_now: Result<u128, StdError>,
) -> (r: Result<Response, ContractError>)
    ensures
        settle_post(
            *contract_address,
            *sender,
            ask_denom,
            minimum_receive,
            recipient,
            balance_before,
            balance_now,
            r,
        ),
{
    // Self-only.
    if !(*sender == *contract_address) {
        return Err(ContractError::Unauthorized);
    }
    let balance_now = match balance_now {
        Ok(b) => b,
        Err(e) => return Err(ContractError::Std(e)),
    };
    let received = match checked_sub(balance_now, balance_before) {
        Ok(d) => d,
        Err(o) => return Err(ContractError::Overflow(o)),
    };
    // Fail closed, and never emit a zero-amount payment.
    if received == 0 {
        return Err(ContractError::NothingReceived);
    }
    if received < minimum_receive {
        return Err(ContractError::SlippageExceeded { received, minimum: minimum_receive });
    }
    let mut amount: Vec<Coin> = Vec::new();
    amount.push(Coin { denom: ask_denom, amount: received });
    let pay = CosmosMsg::BankSend { to_address: recipient.clone(), amount };
    let mut resp = Response::new();
    resp.messages.push(pay);
    resp.attributes.push(Attribute::new("action", "assert_and_pay".to_string()));
    resp.attributes.push(Attribute::new("received", decimal_string(received)));
    resp.attributes.push(Attribute::new("recipient", recipient));
    proof {
        assert(coins_view(amount@) =~= seq![CoinView { denom: ask_denom@, amount: received }]);
        assert(attrs_view(resp.attributes@) =~= seq![
            ("action"@, "assert_and_pay"@),
            ("received"@, decimal_chars(received as nat)),
            ("recipient"@, recipient@),
        ]);
    }
    Ok(resp)
}

// ---------------------------------------------------------------------------------------------
// Setup and administration.
// ---------------------------------------------------------------------------------------------

/// The name under which the contract records its version.
pub const CONTRACT_NAME: &'static str = "crates.io:ninjucks";

/// `r` is the `Ok` of a response that carries exactly the attributes `attrs`, no message and no data.
pub open spec fn is_bare_with(resp: Response, attrs: Seq<(Seq<char>, Seq<char>)>) -> bool {
    is_bare(resp) && attrs_view(resp.attributes@) == attrs
}

/// The configuration set up by `instantiate`.
pub open spec fn initial_config(sender: Seq<char>, msg: InstantiateMsg) -> ConfigView {
    ConfigView {
        admin: match msg.admin {
            Some(a) => a@,
            None => sender,
        },
        pending_admin: None,
        choice_router: msg.choice_router@,
        hallswap_router: msg.hallswap_router@,
    }
}

/// Sets up the configuration: the admin is `msg.admin`, else the instantiator, no transfer is
/// pending, and the routers are the given ones. Each `*_check` is the chain's verdict on the
/// corresponding address (`admin_check` is looked at only when `msg.admin` is given).
pub fn instantiate(
    sender: String,
    msg: InstantiateMsg,
    admin_check: Result<(), StdError>,
    choice_check: Result<(), StdError>,
    hallswap_check: Result<(), StdError>,
    version: &str,
) -> (r: Result<(Config, Response), ContractError>)
    ensures
        msg.admin is Some && admin_check is Err ==> r == Err::<(Config, Response), ContractError>(
            ContractError::Std(admin_check->Err_0),
        ),
        !(msg.admin is Some && admin_check is Err) && choice_check is Err ==> r == Err::<
            (Config, Response),
            ContractError,
        >(ContractError::Std(choice_check->Err_0)),
        !(msg.admin is Some && admin_check is Err) && choice_check is Ok && hallswap_check is Err
            ==> r == Err::<(Config, Response), ContractError>(
            ContractError::Std(hallswap_check->Err_0),
        ),
        !(msg.admin is Some && admin_check is Err) && choice_check is Ok && hallswap_check is Ok
            ==> {
            &&& r is Ok
            &&& r->Ok_0.0@ == initial_config(sender@, msg)
            &&& is_bare_with(
                r->Ok_0.1,
                seq![
                    ("action"@, "instantiate"@),
                    ("contract"@, CONTRACT_NAME@),
                    ("version"@, version@),
                ],
            )
        },
{
    let InstantiateMsg { admin, choice_router, hallswap_router } = msg;
    let admin = match admin {
        Some(a) => {
            match admin_check {
                Ok(()) => a,
                Err(e) => return Err(ContractError::Std(e)),
            }
        },
        None => sender,
    };
    match choice_check {
        Ok(()) => {},
        Err(e) => return Err(ContractError::Std(e)),
    }
    match hallswap_check {
        Ok(()) => {},
        Err(e) => return Err(ContractError::Std(e)),
    }
    let cfg = Config { admin, pending_admin: None, choice_router, hallswap_router };
    let mut resp = Response::new();
    resp.attributes.push(Attribute::new("action", "instantiate".to_string()));
    resp.attributes.push(Attribute::new("contract", CONTRACT_NAME.to_string()));
    resp.attributes.push(Attribute::new("version", version.to_string()));
    proof {
        assert(attrs_view(resp.attributes@) =~= seq![
            ("action"@, "instantiate"@),
            ("contract"@, CONTRACT_NAME@),
            ("version"@, version@),
        ]);
    }
    Ok((cfg, resp))
}

/// Acknowledges an in-place upgrade; the chain records `version` for the contract.
pub fn migrate(version: &str) -> (resp: Response)
    ensures
        is_bare_with(resp, seq![("action"@, "migrate"@), ("version"@, version@)]),
{
    let mut resp = Response::new();
    resp.attributes.push(Attribute::new("action", "migrate".to_string()));
    resp.attributes.push(Attribute::new("version", version.to_string()));
    proof {
        assert(attrs_view(resp.attributes@) =~= seq![
            ("action"@, "migrate"@),
            ("version"@, version@),
        ]);
    }
    resp
}

/// The configuration with the routers that are given replaced.
pub open spec fn with_routers(
    cfg: ConfigView,
    choice_router: Option<Seq<char>>,
    hallswap_router: Option<Seq<char>>,
) -> ConfigView {
    ConfigView {
        choice_router: match choice_router {
            Some(c) => c,
            None => cfg.choice_router,
        },
        hallswap_router: match hallswap_router {
            Some(h) => h,
            None => cfg.hallswap_router,
        },
        ..cfg
    }
}

/// What `update_config` gives: the new configuration to store and the response.
pub open spec fn update_config_post(
    loaded: Result<Config, StdError>,
    sender: String,
    choice_router: Option<String>,
    hallswap_router: Option<String>,
    choice_check: Result<(), StdError>,
    hallswap_check: Result<(), StdError>,
    r: Result<(Config, Response), ContractError>,
) -> bool {
    match loaded {
        Err(e) => r == Err::<(Config, Response), ContractError>(ContractError::Std(e)),
        Ok(cfg) => if sender@ != cfg.admin@ {
            r == Err::<(Config, Response), ContractError>(ContractError::Unauthorized)
        } else if choice_router is Some && choice_check is Err {
            r == Err::<(Config, Response), ContractError>(ContractError::Std(choice_check->Err_0))
        } else if hallswap_router is Some && hallswap_check is Err {
            r == Err::<(Config, Response), ContractError>(
                ContractError::Std(hallswap_check->Err_0),
            )
        } else {
            &&& r is Ok
            &&& r->Ok_0.0@ == with_routers(
                cfg@,
                opt_str_view(choice_router),
                opt_str_view(hallswap_router),
            )
            &&& is_bare_with(r->Ok_0.1, seq![("action"@, "update_config"@)])
        },
    }
}

/// Admin-only: replaces the routers that are given. Each `*_check` is the chain's verdict on
/// the corresponding new address, looked at only when that address is given.
pub fn update_config(
    loaded: Result<Config, StdError>,
    sender: &String,
    choice_router: Option<String>,
    hallswap_router: Option<String>,
    choice_check: Result<(), StdError>,
    hallswap_check: Result<(), StdError>,
) -> (r: Result<(Config, Response), ContractError>)
    ensures
        update_config_post(
            loaded,
            *sender,
            choice_router,
            hallswap_router,
            choice_check,
            hallswap_check,
            r,
        ),
{
    let mut cfg = match loaded {
        Ok(c) => c,
        Err(e) => return Err(ContractError::Std(e)),
    };
    if !(*sender == cfg.admin) {
        return Err(ContractError::Unauthorized);
    }
    if let Some(c) = choice_router {
        match choice_check {
            Ok(()) => {},
            Err(e) => return Err(ContractError::Std(e)),
        }
        cfg.choice_router = c;
    }
    if let Some(h) = hallswap_router {
        match hallswap_check {
            Ok(()) => {},
            Err(e) => return Err(ContractError::Std(e)),
        }
        cfg.hallswap_router = h;
    }
    let mut resp = Response::new();
    resp.attributes.push(Attribute::new("action", "update_config".to_string()));
    proof {
        assert(attrs_view(resp.attributes@) =~= seq![("action"@, "update_config"@)]);
    }
    Ok((cfg, resp))
}

/// Where a withdrawal goes: the given address, else the admin.
pub open spec fn withdraw_destination(cfg: ConfigView, to: Option<String>) -> Seq<char> {
    match to {
        Some(t) => t@,
        None => cfg.admin,
    }
}

/// What `withdraw` gives.
pub open spec fn withdraw_post(
    loaded: Result<Config, StdError>,
    sender: String,
    denom: String,
    amount: u128,
    to: Option<String>,
    to_check: Result<(), StdError>,
    r: Result<Response, ContractError>,
) -> bool {
    match loaded {
        Err(e) => r == Err::<Response, ContractError>(ContractError::Std(e)),
        Ok(cfg) => if sender@ != cfg.admin@ {
            r == Err::<Response, ContractError>(ContractError::Unauthorized)
        } else if to is Some && to_check is Err {
            r == Err::<Response, ContractError>(ContractError::Std(to_check->Err_0))
        } else {
            let dest = withdraw_destination(cfg@, to);
            &&& r is Ok
            &&& r->Ok_0.messages@.len() == 1
            &&& is_single_payment(r->Ok_0.messages@[0], dest, denom@, amount)
            &&& attrs_view(r->Ok_0.attributes@) == seq![("action"@, "withdraw"@), ("to"@, dest)]
            &&& r->Ok_0.data is None
        },
    }
}

/// Admin-only recovery of funds that are not part of an in-flight swap: pays `amount` of
/// `denom` to `to`, else to the admin. `to_check` is the chain's verdict on `to`.
pub fn withdraw(
    loaded: Result<Config, StdError>,
    sender: &String,
    denom: String,
    amount: u128,
    to: Option<String>,
    to_check: Result<(), StdError>,
) -> (r: Result<Response, ContractError>)
    ensures
        withdraw_post(loaded, *sender, denom, amount, to, to_check, r),
{
    let cfg = match loaded {
        Ok(c) => c,
        Err(e) => return Err(ContractError::Std(e)),
    };
    if !(*sender == cfg.admin) {
        return Err(ContractError::Unauthorized);
    }
    let dest = match to {
        Some(t) => {
            match to_check {
                Ok(()) => t,
                Err(e) => return Err(ContractError::Std(e)),
            }
        },
        None => cfg.admin,
    };
    let ghost dest_view = dest@;
    let mut coins: Vec<Coin> = Vec::new();
    coins.push(Coin { denom, amount });
    let mut resp = Response::new();
    resp.messages.push(CosmosMsg::BankSend { to_address: dest.clone(), amount: coins });
    resp.attributes.push(Attribute::new("action", "withdraw".to_string()));
    resp.attributes.push(Attribute::new("to", dest));
    proof {
        assert(coins_view(coins@) =~= seq![CoinView { denom: denom@, amount }]);
        assert(attrs_view(resp.attributes@) =~= seq![("action"@, "withdraw"@), ("to"@, dest_view)]);
    }
    Ok(resp)
}

/// The configuration with `new_admin` waiting to accept.
pub open spec fn with_pending(cfg: ConfigView, new_admin: Seq<char>) -> ConfigView {
    ConfigView { pending_admin: Some(new_admin), ..cfg }
}

/// What `propose_admin` gives.
pub open spec fn propose_admin_post(
    loaded: Result<Config, StdError>,
    sender: String,
    new_admin: String,
    new_admin_check: Result<(), StdError>,
    r: Result<(Config, Response), ContractError>,
) -> bool {
    match loaded {
        Err(e) => r == Err::<(Config, Response), ContractError>(ContractError::Std(e)),
        Ok(cfg) => if sender@ != cfg.admin@ {
            r == Err::<(Config, Response), ContractError>(ContractError::Unauthorized)
        } else if new_admin_check is Err {
            r == Err::<(Config, Response), ContractError>(
                ContractError::Std(new_admin_check->Err_0),
            )
        } else {
            &&& r is Ok
            &&& r->Ok_0.0@ == with_pending(cfg@, new_admin@)
            &&& is_bare_with(
                r->Ok_0.1,
                seq![("action"@, "propose_admin"@), ("pending_admin"@, new_admin@)],
            )
        },
    }
}

/// Admin-only: proposes `new_admin`, which takes over only once it accepts. The admin itself
/// is unchanged. `new_admin_check` is the chain's verdict on `new_admin`.
pub fn propose_admin(
    loaded: Result<Config, StdError>,
    sender: &String,
    new_admin: String,
    new_admin_check: Result<(), StdError>,
) -> (r: Result<(Config, Response), ContractError>)
    ensures
        propose_admin_post(loaded, *sender, new_admin, new_admin_check, r),
{
    let mut cfg = match loaded {
        Ok(c) => c,
        Err(e) => return Err(ContractError::Std(e)),
    };
    if !(*sender == cfg.admin) {
        return Err(ContractError::Unauthorized);
    }
    match new_admin_check {
        Ok(()) => {},
        Err(e) => return Err(ContractError::Std(e)),
    }
    cfg.pending_admin = Some(new_admin.clone());
    let mut resp = Response::new();
    resp.attributes.push(Attribute::new("action", "propose_admin".to_string()));
    resp.attributes.push(Attribute::new("pending_admin", new_admin));
    proof {
        assert(attrs_view(resp.attributes@) =~= seq![
            ("action"@, "propose_admin"@),
            ("pending_admin"@, new_admin@),
        ]);
    }
    Ok((cfg, resp))
}

/// The configuration once the pending admin `admin` has taken over.
pub open spec fn with_new_admin(cfg: ConfigView, admin: Seq<char>) -> ConfigView {
    ConfigView { admin, pending_admin: None, ..cfg }
}

/// What `accept_admin` gives.
pub open spec fn accept_admin_post(
    loaded: Result<Config, StdError>,
    sender: String,
    r: Result<(Config, Response), ContractError>,
) -> bool {
    match loaded {
        Err(e) => r == Err::<(Config, Response), ContractError>(ContractError::Std(e)),
        Ok(cfg) => match cfg.pending_admin {
            None => r == Err::<(Config, Response), ContractError>(ContractError::NoPendingAdmin),
            Some(p) => if p@ != sender@ {
                r == Err::<(Config, Response), ContractError>(ContractError::Unauthorized)
            } else {
                &&& r is Ok
                &&& r->Ok_0.0@ == with_new_admin(cfg@, sender@)
                &&& is_bare_with(
                    r->Ok_0.1,
                    seq![("action"@, "accept_admin"@), ("admin"@, sender@)],
                )
            },
        },
    }
}

/// Pending-admin-only: completes the admin transfer.
pub fn accept_admin(loaded: Result<Config, StdError>, sender: String) -> (r: Result<
    (Config, Response),
    ContractError,
>)
    ensures
        accept_admin_post(loaded, sender, r),
{
    let mut cfg = match loaded {
        Ok(c) => c,
        Err(e) => return Err(ContractError::Std(e)),
    };
    match &cfg.pending_admin {
        Some(p) => {
            if !(*p == sender) {
                return Err(ContractError::Unauthorized);
            }
        },
        None => return Err(ContractError::NoPendingAdmin),
    }
    cfg.admin = sender;
    cfg.pending_admin = None;
    let mut resp = Response::new();
    resp.attributes.push(Attribute::new("action", "accept_admin".to_string()));
    resp.attributes.push(Attribute::new("admin", cfg.admin.clone()));
    proof {
        assert(attrs_view(resp.attributes@) =~= seq![
            ("action"@, "accept_admin"@),
            ("admin"@, sender@),
        ]);
    }
    Ok((cfg, resp))
}

/// Answers a query: the stored configuration as read.
pub fn query(loaded: Result<Config, StdError>, msg: QueryMsg) -> (r: Result<Config, StdError>)
    ensures
        r == loaded,
{
    match msg {
        QueryMsg::Config {} => loaded,
    }
}

// ---------------------------------------------------------------------------------------------
// Dispatch.
// ---------------------------------------------------------------------------------------------

/// The chain's verdict on the `i`-th checked address; `Ok` where there is none.
pub open spec fn check_at(checks: Seq<Result<(), StdError>>, i: int) -> Result<(), StdError> {
    if 0 <= i < checks.len() {
        checks[i]
    } else {
        Ok(())
    }
}

/// The response part of a decided request.
pub open spec fn response_part(r: Result<Outcome, ContractError>) -> Result<Response, ContractError> {
    match r {
        Ok(o) => Ok(o.response),
        Err(e) => Err(e),
    }
}

/// A decided request that stores nothing.
pub open spec fn stores_nothing(r: Result<Outcome, ContractError>) -> bool {
    r is Ok ==> r->Ok_0.config is None
}

/// The stored configuration and the response of a decided request that stores one.
pub open spec fn stored_part(r: Result<Outcome, ContractError>) -> Result<(Config, Response), ContractError> {
    match r {
        Ok(o) => Ok((o.config->Some_0, o.response)),
        Err(e) => Err(e),
    }
}

/// A decided request that stores a configuration.
pub open spec fn stores_config(r: Result<Outcome, ContractError>) -> bool {
    r is Ok ==> r->Ok_0.config is Some
}

/// What `execute` gives for each request.
pub open spec fn execute_post(
    env: Env,
    info: MessageInfo,
    msg: ExecuteMsg,
    reads: HostReads,
    r: Result<Outcome, ContractError>,
) -> bool {
    let checks = reads.address_checks@;
    match msg {
        ExecuteMsg::Swap(params) => {
            &&& stores_nothing(r)
            &&& swap_post(
                reads.config,
                env.contract_address,
                info.funds@,
                info.sender,
                params,
                check_at(checks, 0),
                reads.ask_balance,
                response_part(r),
            )
        },
        ExecuteMsg::InjectiveExec { origin, name, args } => {
            &&& stores_nothing(r)
            &&& swap_post(
                reads.config,
                env.contract_address,
                info.funds@,
                origin,
                args,
                check_at(checks, 0),
                reads.ask_balance,
                response_part(r),
            )
        },
        ExecuteMsg::AssertAndPay { ask_denom, minimum_receive, recipient, balance_before } => {
            &&& stores_nothing(r)
            &&& settle_post(
                env.contract_address,
                info.sender,
                ask_denom,
                minimum_receive,
                recipient,
                balance_before,
                reads.ask_balance,
                response_part(r),
            )
        },
        ExecuteMsg::UpdateConfig { choice_router, hallswap_router } => {
            &&& stores_config(r)
            &&& update_config_post(
                reads.config,
                info.sender,
                choice_router,
                hallswap_router,
                check_at(checks, 0),
                check_at(checks, if choice_router is Some { 1 } else { 0 }),
                stored_part(r),
            )
        },
        ExecuteMsg::Withdraw { denom, amount, to } => {
            &&& stores_nothing(r)
            &&& withdraw_post(
                reads.config,
                info.sender,
                denom,
                amount,
                to,
                check_at(checks, 0),
                response_part(r),
            )
        },
        ExecuteMsg::ProposeAdmin { new_admin } => {
            &&& stores_config(r)
            &&& propose_admin_post(
                reads.config,
                info.sender,
                new_admin,
                check_at(checks, 0),
                stored_part(r),
            )
        },
        ExecuteMsg::AcceptAdmin {} => {
            &&& stores_config(r)
            &&& accept_admin_post(reads.config, info.sender, stored_part(r))
        },
    }
}

fn first_check(checks: &mut Vec<Result<(), StdError>>) -> (c: Result<(), StdError>)
    ensures
        c == check_at(old(checks)@, 0),
        final(checks)@ == if old(checks)@.len() > 0 {
            old(checks)@.drop_first()
        } else {
            old(checks)@
        },
{
    if checks.len() > 0 {
        let c = checks.remove(0);
        proof {
            assert(checks@ =~= old(checks)@.drop_first());
        }
        c
    } else {
        Ok(())
    }
}

fn saved(r: Result<(Config, Response), ContractError>) -> (o: Result<Outcome, ContractError>)
    ensures
        stores_config(o),
        stored_part(o) == r,
{
    match r {
        Ok((cfg, response)) => Ok(Outcome { response, config: Some(cfg) }),
        Err(e) => Err(e),
    }
}

fn unsaved(r: Result<Response, ContractError>) -> (o: Result<Outcome, ContractError>)
    ensures
        stores_nothing(o),
        response_part(o) == r,
{
    match r {
        Ok(response) => Ok(Outcome { response, config: None }),
        Err(e) => Err(e),
    }
}

/// Decides one request from the chain's reads. Both swap entrypoints route the same way; on the
/// `injective_exec` envelope the `origin` is the caller of record and `name` is not looked at.
pub fn execute(env: &Env, info: MessageInfo, msg: ExecuteMsg, reads: HostReads) -> (r: Result<
    Outcome,
    ContractError,
>)
    requires
        reads.address_checks@.len() == spec_addresses_to_check(msg, info.sender).len(),
    ensures
        execute_post(*env, info, msg, reads, r),
{
    let HostReads { config, address_checks, ask_balance } = reads;
    let mut checks = address_checks;
    match msg {
        ExecuteMsg::Swap(params) => {
            let c = first_check(&mut checks);
            let caller = info.sender;
            unsaved(
                do_swap(config, &env.contract_address, info.funds, caller, params, c, ask_balance),
            )
        },
        ExecuteMsg::InjectiveExec { origin, name: _, args } => {
            let c = first_check(&mut checks);
            unsaved(
                do_swap(config, &env.contract_address, info.funds, origin, args, c, ask_balance),
            )
        },
        ExecuteMsg::AssertAndPay { ask_denom, minimum_receive, recipient, balance_before } => {
            unsaved(
                assert_and_pay(
                    &env.contract_address,
                    &info.sender,
                    ask_denom,
                    minimum_receive,
                    recipient,
                    balance_before,
                    ask_balance,
                ),
            )
        },
        ExecuteMsg::UpdateConfig { choice_router, hallswap_router } => {
            let choice_check = if choice_router.is_some() {
                first_check(&mut checks)
            } else {
                Ok(())
            };
            let hallswap_check = if hallswap_router.is_some() {
                first_check(&mut checks)
            } else {
                Ok(())
            };
            saved(
                update_config(
                    config,
                    &info.sender,
                    choice_router,
                    hallswap_router,
                    choice_check,
                    hallswap_check,
                ),
            )
        },
        ExecuteMsg::Withdraw { denom, amount, to } => {
            let c = first_check(&mut checks);
            unsaved(withdraw(config, &info.sender, denom, amount, to, c))
        },
        ExecuteMsg::ProposeAdmin { new_admin } => {
            let c = first_check(&mut checks);
            saved(propose_admin(config, &info.sender, new_admin, c))
        },
        ExecuteMsg::AcceptAdmin {} => saved(accept_admin(config, info.sender)),
    }
}

} // verus!
