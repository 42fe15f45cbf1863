//! Decision-and-risk core of a prediction-market arbitrage agent.
//!
//! The crate detects binary markets whose outcome prices do not sum to one,
//! simulates fills against an order book, holds every spend to a daily
//! allowance, tracks positions until an exit condition closes them, and guards
//! the trading cycle with a safety state machine.

pub mod api;
pub mod arb;
pub mod config;
pub mod constraint;
pub mod engine;
pub mod execution;
pub mod fee_calibrator;
pub mod fees;
pub mod fills;
pub mod fixed;
pub mod latency;
pub mod lookup;
pub mod metamask;
pub mod positions;
pub mod simulation;
pub mod strategy;
pub mod types;
pub mod wallet;
