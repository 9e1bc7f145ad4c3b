//! Submission and confirmation engine for an eventually-confirmed ledger,
//! together with the staking yield calculation that reports claimable rewards.

pub mod accrual;
pub mod classify;
pub mod engine;
pub mod instruction;
pub mod miner;
pub mod numeric;
pub mod signing;
