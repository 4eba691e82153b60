//! The swap proxy: forwards swaps to a router and, when a swap has settled,
//! passes what was bought on to the buyer, less the buy tax of the token
//! that was bought.

pub mod contract;
pub mod error;
pub mod helpers;
pub mod laws;
pub mod msg;
pub mod state;
