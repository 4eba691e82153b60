//! The native-coin burner: burns what it is paid after a development fee, pays
//! whitelisted reward tokens pro rata, and can swap other assets to the
//! native coin first, resuming the burn when the swap has settled.

pub mod contract;
pub mod error;
pub mod execute;
pub mod helpers;
pub mod laws;
pub mod msg;
pub mod query;
pub mod state;
