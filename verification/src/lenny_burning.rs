//! The token burner with refunds: burns tokens sent to it, refunds and
//! rewards a share from its own holdings, and holds burns to a limit per
//! address and overall within a rolling window.

pub mod contract;
pub mod error;
pub mod msg;
pub mod state;
pub mod window;
