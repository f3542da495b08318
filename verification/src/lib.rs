//! A fungible-asset ledger: balances, expiring allowances, minting rights,
//! an emergency halt switch and per-identity rate limiting.

pub mod access;
pub mod accounts;
pub mod allowance;
pub mod engine;
pub mod error;
pub mod identity;
pub mod keyed_map;
pub mod laws;
pub mod ledger;
pub mod model;
pub mod rate_limit;
