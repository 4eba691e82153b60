//! Ledger-state modules for a family of token contracts: tax-aware transfers,
//! single-flight swap settlement, burn windows and tiered staking, each as a
//! state machine over plain values with machine-checked contracts.

pub mod book;
pub mod burning;
pub mod cremation_lock;
pub mod cremation_stake;
pub mod cremation_token;
pub mod error;
pub mod host;
pub mod lenny_burning;
pub mod lenny_token;
pub mod math;
pub mod proxy_swap;
pub mod text;
