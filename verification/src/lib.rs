//! Swap aggregator logic: routes one offer coin through a configured venue router,
//! settles the realized output against a minimum-receive floor, and administers
//! the router configuration with a two-step admin transfer.

pub mod error;
pub mod state;
pub mod msg;
pub mod response;
pub mod decimal;
pub mod host;
pub mod contract;
pub mod mock_router;
pub mod laws;
