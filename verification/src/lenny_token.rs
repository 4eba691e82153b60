//! The second taxed token: the first one's rules, with a named token that
//! collected tax is meant to be swapped to and with pools that can be taken
//! off the registry again.

pub mod contract;
pub mod laws;
pub mod msg;
pub mod state;
