use vstd::prelude::*;

verus! {

/// Sets up the aggregator.
#[derive(Clone, Debug, PartialEq, Eq)]
pub struct InstantiateMsg {
    /// Defaults to the instantiator if omitted.
    pub admin: Option<String>,
    pub choice_router: String,
    pub hallswap_router: String,
}

/// The venue whose router a swap goes through.
#[derive(Clone, Copy, Debug, PartialEq, Eq, Structural)]
pub enum Venue {
    Choice,
    Hallswap,
}

/// Parameters shared by both swap entrypoints.
#[derive(Clone, Debug, PartialEq, Eq)]
pub struct SwapParams {
    pub venue: Venue,
    /// The venue-native route body, forwarded verbatim as the sub-router's execute message.
    pub route: Vec<u8>,
    /// Final asset the swap returns, used for the balance-diff payout accounting.
    pub ask_denom: String,
    /// Minimum acceptable output; the transaction reverts if the realized output is less.
    pub minimum_receive: u128,
    /// Where proceeds go. Defaults to the caller (`origin` on the `injective_exec` path).
    pub recipient: Option<String>,
}

/// The requests the aggregator executes.
#[derive(Clone, Debug, PartialEq, Eq)]
pub enum ExecuteMsg {
    /// Public entrypoint. Offer coin supplied as funds.
    Swap(SwapParams),
    /// Envelope of the `injective_exec` call interface: `args` are the swap parameters,
    /// `origin` is the caller of record, `name` is not looked at.
    InjectiveExec { origin: String, name: String, args: SwapParams },
    /// Internal, self-only: runs after the sub-swap settles; asserts `minimum_receive`
    /// against the balance delta and pays the recipient.
    AssertAndPay { ask_denom: String, minimum_receive: u128, recipient: String, balance_before: u128 },
    /// Admin-only: update router addresses.
    UpdateConfig { choice_router: Option<String>, hallswap_router: Option<String> },
    /// Admin-only: recover funds that are not part of any in-flight swap.
    Withdraw { denom: String, amount: u128, to: Option<String> },
    /// Admin-only: propose a new admin, who takes over by accepting.
    ProposeAdmin { new_admin: String },
    /// Pending-admin-only: accept a pending admin transfer.
    AcceptAdmin {},
}

/// Upgrade request; carries nothing.
#[derive(Clone, Copy, Debug, PartialEq, Eq, Structural)]
pub struct MigrateMsg {}

/// The queries the aggregator answers.
#[derive(Clone, Copy, Debug, PartialEq, Eq, Structural)]
pub enum QueryMsg {
    /// The stored configuration.
    Config {},
}

} // verus!
