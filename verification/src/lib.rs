//! Verified core of a pre-order arbitrage bot for 15-minute Up/Down
//! prediction markets.
//!
//! Prices, share counts and money amounts are fixed-point integers in
//! millionths (see [`units`]).

pub mod units;
pub mod config;
pub mod text;
pub mod decimal;
pub mod keyed;
pub mod state;
pub mod models;
pub mod signals;
pub mod risk;
pub mod processor;
pub mod closure;
pub mod discovery;
pub mod hedger;
pub mod oracle;
pub mod ai;
pub mod legacy;
pub mod strategy;
pub mod redeem;
pub mod laws;
