use vstd::prelude::*;

verus! {

/// The aggregator's stored configuration.
#[derive(Clone, Debug, PartialEq, Eq)]
pub struct Config {
    /// Admin allowed to update routers, withdraw stuck funds, and initiate an admin transfer.
    /// Transfer is two-step (propose + accept) to prevent an accidental one-shot lock-out.
    pub admin: String,
    /// Proposed next admin; becomes `admin` only after it accepts. None when no transfer is pending.
    pub pending_admin: Option<String>,
    /// Choice DEX aggregator router.
    pub choice_router: String,
    /// HallSwap router.
    pub hallswap_router: String,
}

/// The configuration with every address taken as its sequence of characters.
pub struct ConfigView {
    pub admin: Seq<char>,
    pub pending_admin: Option<Seq<char>>,
    pub choice_router: Seq<char>,
    pub hallswap_router: Seq<char>,
}

pub open spec fn opt_str_view(o: Option<String>) -> Option<Seq<char>> {
    match o {
        Some(s) => Some(s@),
        None => None,
    }
}

impl View for Config {
    type V = ConfigView;

    open spec fn view(&self) -> ConfigView {
        ConfigView {
            admin: self.admin@,
            pending_admin: opt_str_view(self.pending_admin),
            choice_router: self.choice_router@,
            hallswap_router: self.hallswap_router@,
        }
    }
}

} // verus!
