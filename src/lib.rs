//! A constant-product bonding-curve market maker for token launches.
//!
//! The library computes how much value moves in a trade and under which
//! conditions; moving it is left to the caller's transfer ledger, which
//! reports back whether the transfers of a trade went through.
pub mod curve;
pub mod errors;
pub mod fees;
pub mod identity;
pub mod laws;
pub mod pricing;
pub mod registry;
pub mod wrapper;

pub use errors::BondingCurveError;
pub use pricing::{calculate_buy_tokens, calculate_sell_sol};
