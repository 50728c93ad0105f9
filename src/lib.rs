//! A paginated daily fee-distribution engine.
//!
//! Once per day a pool of claimed quote revenue is split among investors in
//! proportion to their still-locked balances, in pages of bounded size; dust
//! below a minimum payout is withheld, and on the final page the rest goes to
//! the creator.
pub mod config;
pub mod day;
pub mod engine;
pub mod error;
pub mod page;
pub mod progress;
pub mod share;
pub mod vesting;
