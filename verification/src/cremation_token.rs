//! The taxed token: venue registry, operation classification, tax
//! computation and tax-aware balance movement.

pub mod contract;
pub mod error;
pub mod execute;
pub mod helper;
pub mod laws;
pub mod msg;
pub mod query;
pub mod state;
