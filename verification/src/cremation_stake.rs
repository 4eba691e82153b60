//! The staking ledger: one stake per address, tiered lock periods with
//! fixed reward rates, and a reward pool that is never over-promised.

pub mod contract;
pub mod error;
pub mod laws;
pub mod msg;
pub mod state;
