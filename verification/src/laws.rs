use vstd::prelude::*;

use crate::contract::{
    accept_admin_post, execute_post, is_payout_response, is_swap_response, propose_admin_post,
    router_for, settle_post, settlement, swap_baseline, swap_post, swap_recipient,
    update_config_post, withdraw_destination, withdraw_post, initial_config,
};
use crate::error::{ContractError, StdError};
use crate::host::{spec_addresses_to_check, spec_balance_denom, Env, HostReads, MessageInfo, Outcome};
use crate::msg::{ExecuteMsg, InstantiateMsg, SwapParams, Venue};
use crate::response::{
    attrs_view, coins_view, is_single_payment, Coin, CoinView, CosmosMsg, Response, WasmPayload,
};
use crate::state::{Config, ConfigView};

verus! {

/// A routed swap pays out exactly what the venue delivered. The baseline that the swap hands
/// to its settlement leaves out an offer in the ask denomination (it is spent into the swap),
/// so once the offer has left and the venue has delivered `delivered` of the ask denomination,
/// the settlement pays `delivered` itself, not `delivered` less the offer; it refuses when
/// nothing came back and when the output falls short of the minimum.
pub proof fn lemma_swap_settles_the_venue_output(
    offer_denom: Seq<char>,
    offer_amount: u128,
    ask_denom: Seq<char>,
    ask_balance_at_swap: u128,
    delivered: u128,
    minimum: u128,
    ask_balance_at_settlement: u128,
)
    requires
        swap_baseline(offer_denom, offer_amount, ask_denom, ask_balance_at_swap) is Ok,
        ask_balance_at_settlement == ask_balance_at_swap - (if offer_denom == ask_denom {
            offer_amount as int
        } else {
            0int
        }) + delivered,
    ensures
        settlement(
            ask_balance_at_settlement,
            swap_baseline(offer_denom, offer_amount, ask_denom, ask_balance_at_swap)->Ok_0,
            minimum,
        ) == if delivered == 0 {
            Err::<u128, ContractError>(ContractError::NothingReceived)
        } else if delivered < minimum {
            Err::<u128, ContractError>(ContractError::SlippageExceeded { received: delivered, minimum })
        } else {
            Ok::<u128, ContractError>(delivered)
        },
{
}

/// End to end, a routed swap pays its recipient exactly what the venue delivered: the
/// self-call that a successful swap queues is authorized (it comes from the aggregator), and
/// once the offer has left for the venue and `delivered` of the ask denomination has come back,
/// it pays `delivered` to the swap's recipient, or refuses when nothing came back or the output
/// falls short of the minimum.
pub proof fn lemma_routed_swap_pays_what_the_venue_delivered(
    cfg: Config,
    contract: String,
    funds: Seq<Coin>,
    caller: String,
    params: SwapParams,
    ask_balance_at_swap: u128,
    swap: Result<Response, ContractError>,
    delivered: u128,
    ask_balance_at_settlement: u128,
    settle: Result<Response, ContractError>,
)
    requires
        swap_post(Ok(cfg), contract, funds, caller, params, Ok(()), Ok(ask_balance_at_swap), swap),
        swap is Ok,
        ask_balance_at_settlement == ask_balance_at_swap - (if funds[0].denom@ == params.ask_denom@ {
            funds[0].amount as int
        } else {
            0int
        }) + delivered,
        match swap->Ok_0.messages@[1] {
            CosmosMsg::WasmExecute {
                contract_addr,
                msg: WasmPayload::AssertAndPay { ask_denom, minimum_receive, recipient, balance_before },
                ..
            } => settle_post(
                contract,
                contract_addr,
                ask_denom,
                minimum_receive,
                recipient,
                balance_before,
                Ok(ask_balance_at_settlement),
                settle,
            ),
            _ => false,
        },
    ensures
        delivered == 0 ==> settle == Err::<Response, ContractError>(ContractError::NothingReceived),
        0 < delivered < params.minimum_receive ==> settle == Err::<Response, ContractError>(
            ContractError::SlippageExceeded { received: delivered, minimum: params.minimum_receive },
        ),
        0 < delivered && params.minimum_receive <= delivered ==> settle is Ok && is_payout_response(
            settle->Ok_0,
            swap_recipient(params.recipient, caller)@,
            params.ask_denom@,
            delivered,
        ),
{
    lemma_swap_settles_the_venue_output(
        funds[0].denom@,
        funds[0].amount,
        params.ask_denom@,
        ask_balance_at_swap,
        delivered,
        params.minimum_receive,
        ask_balance_at_settlement,
    );
}

/// Every settlement that goes through pays the whole ask-denomination delta since the
/// baseline, and that delta is positive and at least the minimum.
pub proof fn lemma_settlement_respects_the_floor(
    balance_now: u128,
    balance_before: u128,
    minimum: u128,
)
    ensures
        settlement(balance_now, balance_before, minimum) is Ok ==> {
            let paid = settlement(balance_now, balance_before, minimum)->Ok_0;
            &&& paid == balance_now - balance_before
            &&& paid > 0
            &&& paid >= minimum
        },
        balance_now >= balance_before && balance_now - balance_before < minimum ==> settlement(
            balance_now,
            balance_before,
            minimum,
        ) is Err,
{
}

/// A swap calls nothing but the configured router of its venue, with the offer, and then the
/// aggregator itself.
pub proof fn lemma_swap_calls_only_the_configured_router(
    resp: Response,
    cfg: ConfigView,
    params: SwapParams,
    contract: Seq<char>,
    offer: CoinView,
    recipient: Seq<char>,
    baseline: u128,
)
    requires
        is_swap_response(
            resp,
            router_for(cfg, params.venue),
            contract,
            offer,
            params.route@,
            params.ask_denom@,
            params.minimum_receive,
            recipient,
            baseline,
        ),
    ensures
        resp.messages@.len() == 2,
        forall|i: int|
            0 <= i < 2 ==> #[trigger] resp.messages@[i] is WasmExecute,
        ({
            let target = resp.messages@[0]->WasmExecute_contract_addr@;
            target == cfg.choice_router || target == cfg.hallswap_router
        }),
        resp.messages@[1]->WasmExecute_contract_addr@ == contract,
        resp.messages@[1]->WasmExecute_msg is AssertAndPay,
{
}

/// Only the admin administers: anyone else is refused router updates, withdrawals and admin
/// proposals.
pub proof fn lemma_only_the_admin_administers(
    cfg: Config,
    sender: String,
    choice_router: Option<String>,
    hallswap_router: Option<String>,
    choice_check: Result<(), StdError>,
    hallswap_check: Result<(), StdError>,
    update: Result<(Config, Response), ContractError>,
    denom: String,
    amount: u128,
    to: Option<String>,
    to_check: Result<(), StdError>,
    withdrawal: Result<Response, ContractError>,
    new_admin: String,
    new_admin_check: Result<(), StdError>,
    proposal: Result<(Config, Response), ContractError>,
)
    requires
        sender@ != cfg.admin@,
        update_config_post(
            Ok(cfg),
            sender,
            choice_router,
            hallswap_router,
            choice_check,
            hallswap_check,
            update,
        ),
        withdraw_post(Ok(cfg), sender, denom, amount, to, to_check, withdrawal),
        propose_admin_post(Ok(cfg), sender, new_admin, new_admin_check, proposal),
    ensures
        update == Err::<(Config, Response), ContractError>(ContractError::Unauthorized),
        withdrawal == Err::<Response, ContractError>(ContractError::Unauthorized),
        proposal == Err::<(Config, Response), ContractError>(ContractError::Unauthorized),
{
}

/// The admin transfer takes two steps: a proposal leaves the admin in place; the proposed
/// address, and only it, then takes over, with nothing left pending and the routers unchanged.
pub proof fn lemma_two_step_admin_transfer(
    cfg: Config,
    admin: String,
    new_admin: String,
    proposal: Result<(Config, Response), ContractError>,
    acceptor: String,
    acceptance: Result<(Config, Response), ContractError>,
)
    requires
        admin@ == cfg.admin@,
        propose_admin_post(Ok(cfg), admin, new_admin, Ok(()), proposal),
        proposal is Ok ==> accept_admin_post(Ok(proposal->Ok_0.0), acceptor, acceptance),
    ensures
        proposal is Ok,
        proposal->Ok_0.0@.admin == cfg@.admin,
        proposal->Ok_0.0@.pending_admin == Some(new_admin@),
        proposal->Ok_0.0.choice_router@ == cfg.choice_router@,
        proposal->Ok_0.0.hallswap_router@ == cfg.hallswap_router@,
        acceptor@ == new_admin@ ==> {
            &&& acceptance is Ok
            &&& acceptance->Ok_0.0.admin@ == new_admin@
            &&& acceptance->Ok_0.0.pending_admin is None
            &&& acceptance->Ok_0.0.choice_router@ == cfg.choice_router@
            &&& acceptance->Ok_0.0.hallswap_router@ == cfg.hallswap_router@
        },
        acceptor@ != new_admin@ ==> acceptance == Err::<(Config, Response), ContractError>(
            ContractError::Unauthorized,
        ),
{
}

/// The `injective_exec` envelope's `name` plays no part: any two names give the same outcomes.
pub proof fn lemma_envelope_name_is_ignored(
    env: Env,
    info: MessageInfo,
    origin: String,
    name: String,
    other_name: String,
    args: SwapParams,
    reads: HostReads,
    r: Result<Outcome, ContractError>,
)
    ensures
        execute_post(env, info, ExecuteMsg::InjectiveExec { origin, name, args }, reads, r)
            == execute_post(
            env,
            info,
            ExecuteMsg::InjectiveExec { origin, name: other_name, args },
            reads,
            r,
        ),
{
}

/// Both swap entrypoints route the same way: a `Swap` from a sender decides exactly as an
/// `injective_exec` envelope whose `origin` is that sender, whoever submits the envelope.
pub proof fn lemma_entrypoints_route_alike(
    env: Env,
    sender: String,
    submitter: String,
    funds: Vec<Coin>,
    name: String,
    params: SwapParams,
    reads: HostReads,
    r: Result<Outcome, ContractError>,
)
    ensures
        execute_post(env, MessageInfo { sender, funds }, ExecuteMsg::Swap(params), reads, r)
            == execute_post(
            env,
            MessageInfo { sender: submitter, funds },
            ExecuteMsg::InjectiveExec { origin: sender, name, args: params },
            reads,
            r,
        ),
{
}

/// An admin's router update that goes through stores each router that was given, keeps each
/// one that was not, and leaves the admin and any pending transfer as they were.
pub proof fn lemma_router_update_stores_the_given_routers(
    cfg: Config,
    sender: String,
    choice_router: Option<String>,
    hallswap_router: Option<String>,
    update: Result<(Config, Response), ContractError>,
)
    requires
        sender@ == cfg.admin@,
        update_config_post(Ok(cfg), sender, choice_router, hallswap_router, Ok(()), Ok(()), update),
    ensures
        update is Ok,
        ({
            let stored = update->Ok_0.0;
            &&& choice_router is Some ==> stored.choice_router@ == choice_router->Some_0@
            &&& choice_router is None ==> stored.choice_router@ == cfg.choice_router@
            &&& hallswap_router is Some ==> stored.hallswap_router@ == hallswap_router->Some_0@
            &&& hallswap_router is None ==> stored.hallswap_router@ == cfg.hallswap_router@
            &&& stored.admin@ == cfg.admin@
            &&& stored@.pending_admin == cfg@.pending_admin
        }),
{
}

/// An admin's withdrawal that names no destination pays the whole amount to the current
/// admin, and reports the admin as destination, whatever transfer is pending.
pub proof fn lemma_withdrawal_defaults_to_the_current_admin(
    cfg: Config,
    sender: String,
    denom: String,
    amount: u128,
    to_check: Result<(), StdError>,
    withdrawal: Result<Response, ContractError>,
)
    requires
        sender@ == cfg.admin@,
        withdraw_post(Ok(cfg), sender, denom, amount, None, to_check, withdrawal),
    ensures
        withdrawal is Ok,
        withdrawal->Ok_0.messages@.len() == 1,
        match withdrawal->Ok_0.messages@[0] {
            CosmosMsg::BankSend { to_address, amount: coins } => {
                &&& to_address@ == cfg.admin@
                &&& coins@.len() == 1
                &&& coins@[0].denom@ == denom@
                &&& coins@[0].amount == amount
            },
            _ => false,
        },
        withdrawal->Ok_0.attributes@.len() == 2,
        withdrawal->Ok_0.attributes@[1].value@ == cfg.admin@,
{
    let dest = withdraw_destination(cfg@, None);
    assert(dest == cfg.admin@);
    let m = withdrawal->Ok_0.messages@[0];
    assert(is_single_payment(m, dest, denom@, amount));
    assert(m is BankSend);
    let coins = m->BankSend_amount@;
    assert(coins_view(coins) == seq![CoinView { denom: denom@, amount }]);
    assert(coins_view(coins).len() == coins.len());
    assert(coins_view(coins)[0] == coins[0]@);
    let attrs = withdrawal->Ok_0.attributes@;
    assert(attrs_view(attrs) == seq![("action"@, "withdraw"@), ("to"@, dest)]);
    assert(attrs_view(attrs).len() == attrs.len());
    assert(attrs_view(attrs)[1] == (attrs[1].key@, attrs[1].value@));
}

/// Every swap request, through either entrypoint, has the chain read the aggregator's balance
/// in the request's own ask denomination.
pub proof fn lemma_swaps_read_the_ask_balance(
    origin: String,
    name: String,
    args: SwapParams,
)
    ensures
        spec_balance_denom(ExecuteMsg::Swap(args)) == Some(args.ask_denom),
        spec_balance_denom(ExecuteMsg::InjectiveExec { origin, name, args }) == Some(args.ask_denom),
        spec_balance_denom(
            ExecuteMsg::AssertAndPay {
                ask_denom: args.ask_denom,
                minimum_receive: args.minimum_receive,
                recipient: origin,
                balance_before: 0,
            },
        ) == Some(args.ask_denom),
{
}

/// A swap that goes through sends the route, byte for byte, with the offer coin, to the router
/// configured for the chosen venue, and then queues on the aggregator itself a settlement in the
/// ask denomination, with the requested minimum, paying the named recipient (else the caller),
/// measured from the aggregator's ask balance less an offer in that same denomination.
pub proof fn lemma_swap_sends_the_route_and_queues_its_settlement(
    cfg: Config,
    contract: String,
    funds: Seq<Coin>,
    caller: String,
    params: SwapParams,
    ask_balance: u128,
    swap: Result<Response, ContractError>,
)
    requires
        swap_post(Ok(cfg), contract, funds, caller, params, Ok(()), Ok(ask_balance), swap),
        swap is Ok,
    ensures
        funds.len() == 1,
        params.minimum_receive > 0,
        swap->Ok_0.messages@.len() == 2,
        match swap->Ok_0.messages@[0] {
            CosmosMsg::WasmExecute { contract_addr, msg: WasmPayload::Route(bytes), funds: sent } => {
                &&& params.venue == Venue::Choice ==> contract_addr@ == cfg.choice_router@
                &&& params.venue == Venue::Hallswap ==> contract_addr@ == cfg.hallswap_router@
                &&& bytes@ == params.route@
                &&& sent@.len() == 1
                &&& sent@[0].denom@ == funds[0].denom@
                &&& sent@[0].amount == funds[0].amount
            },
            _ => false,
        },
        match swap->Ok_0.messages@[1] {
            CosmosMsg::WasmExecute {
                contract_addr,
                msg: WasmPayload::AssertAndPay { ask_denom, minimum_receive, recipient, balance_before },
                funds: sent,
            } => {
                &&& contract_addr@ == contract@
                &&& ask_denom@ == params.ask_denom@
                &&& minimum_receive == params.minimum_receive
                &&& params.recipient is Some ==> recipient@ == params.recipient->Some_0@
                &&& params.recipient is None ==> recipient@ == caller@
                &&& funds[0].denom@ == params.ask_denom@ ==> balance_before + funds[0].amount
                    == ask_balance
                &&& funds[0].denom@ != params.ask_denom@ ==> balance_before == ask_balance
                &&& sent@.len() == 0
            },
            _ => false,
        },
        swap->Ok_0.data is None,
{
    let sent = swap->Ok_0.messages@[0]->WasmExecute_funds@;
    assert(coins_view(sent).len() == sent.len());
    assert(coins_view(sent)[0] == sent[0]@);
}

/// A settlement that goes through pays, in one payment, exactly the ask-denomination delta
/// `balance_now - balance_before` to the recipient named in the request.
pub proof fn lemma_settlement_pays_the_delta_to_the_recipient(
    contract: String,
    sender: String,
    ask_denom: String,
    minimum_receive: u128,
    recipient: String,
    balance_before: u128,
    balance_now: u128,
    settle: Result<Response, ContractError>,
)
    requires
        settle_post(
            contract,
            sender,
            ask_denom,
            minimum_receive,
            recipient,
            balance_before,
            Ok(balance_now),
            settle,
        ),
        settle is Ok,
    ensures
        sender@ == contract@,
        balance_now > balance_before,
        balance_now - balance_before >= minimum_receive,
        settle->Ok_0.messages@.len() == 1,
        match settle->Ok_0.messages@[0] {
            CosmosMsg::BankSend { to_address, amount } => {
                &&& to_address@ == recipient@
                &&& amount@.len() == 1
                &&& amount@[0].denom@ == ask_denom@
                &&& amount@[0].amount == balance_now - balance_before
            },
            _ => false,
        },
{
    let m = settle->Ok_0.messages@[0];
    let coins = m->BankSend_amount@;
    assert(coins_view(coins).len() == coins.len());
    assert(coins_view(coins)[0] == coins[0]@);
}

/// Setting up stores the given routers, no pending transfer, and as admin the given one,
/// else whoever set the aggregator up.
pub proof fn lemma_setup_stores_the_given_configuration(
    sender: String,
    msg: InstantiateMsg,
    stored: Config,
)
    requires
        stored@ == initial_config(sender@, msg),
    ensures
        msg.admin is Some ==> stored.admin@ == msg.admin->Some_0@,
        msg.admin is None ==> stored.admin@ == sender@,
        stored.pending_admin is None,
        stored.choice_router@ == msg.choice_router@,
        stored.hallswap_router@ == msg.hallswap_router@,
{
}

/// The chain validates exactly the addresses a request would act on: for a swap, the address
/// that its settlement pays.
pub proof fn lemma_swap_validates_the_address_it_pays(
    cfg: Config,
    contract: String,
    funds: Seq<Coin>,
    sender: String,
    params: SwapParams,
    ask_balance: u128,
    swap: Result<Response, ContractError>,
)
    requires
        swap_post(Ok(cfg), contract, funds, sender, params, Ok(()), Ok(ask_balance), swap),
        swap is Ok,
    ensures
        spec_addresses_to_check(ExecuteMsg::Swap(params), sender).len() == 1,
        spec_addresses_to_check(ExecuteMsg::Swap(params), sender)[0]@
            == swap->Ok_0.messages@[1]->WasmExecute_msg->AssertAndPay_recipient@,
{
}

/// A router update, a withdrawal and an admin proposal have the chain validate exactly the
/// addresses they are given.
pub proof fn lemma_admin_requests_validate_the_given_addresses(
    sender: String,
    choice_router: Option<String>,
    hallswap_router: Option<String>,
    denom: String,
    amount: u128,
    to: Option<String>,
    new_admin: String,
)
    ensures
        ({
            let v = spec_addresses_to_check(ExecuteMsg::UpdateConfig { choice_router, hallswap_router }, sender);
            &&& v.len() == (if choice_router is Some { 1int } else { 0 }) + (if hallswap_router is Some { 1int } else { 0 })
            &&& choice_router is Some ==> v[0] == choice_router->Some_0
            &&& hallswap_router is Some ==> v[v.len() - 1] == hallswap_router->Some_0
        }),
        ({
            let v = spec_addresses_to_check(ExecuteMsg::Withdraw { denom, amount, to }, sender);
            &&& v.len() == (if to is Some { 1int } else { 0 })
            &&& to is Some ==> v[0] == to->Some_0
        }),
        spec_addresses_to_check(ExecuteMsg::ProposeAdmin { new_admin }, sender) == seq![new_admin],
        spec_addresses_to_check(ExecuteMsg::AcceptAdmin {}, sender).len() == 0,
{
    let v = spec_addresses_to_check(ExecuteMsg::UpdateConfig { choice_router, hallswap_router }, sender);
    assert(v.len() == (if choice_router is Some { 1int } else { 0 }) + (if hallswap_router is Some { 1int } else { 0 }));
}

/// Dispatch hands each handler the chain's verdict on the address that handler validates: a
/// router update by the admin naming both routers is refused with the verdict on the Choice
/// router when that one is invalid, else with the verdict on the HallSwap router; a swap that
/// gets past the offer and floor checks is refused with the verdict on its recipient. Swaps,
/// settlements and withdrawals never store a configuration.
pub proof fn lemma_dispatch_uses_the_verdicts(
    env: Env,
    info: MessageInfo,
    msg: ExecuteMsg,
    reads: HostReads,
    r: Result<Outcome, ContractError>,
)
    requires
        execute_post(env, info, msg, reads, r),
        reads.config is Ok,
    ensures
        (msg is Swap || msg is InjectiveExec || msg is AssertAndPay || msg is Withdraw) && r is Ok
            ==> r->Ok_0.config is None,
        ({
            let checks = reads.address_checks@;
            msg matches ExecuteMsg::UpdateConfig { choice_router: Some(c), hallswap_router: Some(h) }
                && info.sender@ == reads.config->Ok_0.admin@ && checks.len() == 2 ==> {
                &&& checks[0] is Err ==> r == Err::<Outcome, ContractError>(
                    ContractError::Std(checks[0]->Err_0),
                )
                &&& checks[0] is Ok && checks[1] is Err ==> r == Err::<Outcome, ContractError>(
                    ContractError::Std(checks[1]->Err_0),
                )
            }
        }),
        ({
            let checks = reads.address_checks@;
            msg matches ExecuteMsg::Swap(p) && info.funds@.len() == 1 && p.minimum_receive > 0
                && checks.len() == 1 && checks[0] is Err ==> r == Err::<Outcome, ContractError>(
                ContractError::Std(checks[0]->Err_0),
            )
        }),
{
}

} // verus!
