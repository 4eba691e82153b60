//! The time lock: holds tokens for a year from set-up and releases them to
//! its owner afterwards.

pub mod contract;
pub mod error;
pub mod msg;
pub mod state;
