//! Custody and accounting core of an NFT staking protocol.
//!
//! A stake takes a token into program custody (delegate one unit, then
//! freeze) and records a timestamped stake position, under a per-user cap.
//! The custody primitives live outside this crate: [`stake::Stake`] decides
//! each step and names the custody call to make next; the caller performs it
//! and reports the answer.

pub mod types;
pub mod registry;
pub mod stake;
pub mod laws;
