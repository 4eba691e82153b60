//! What the time lock remembers between messages.

use crate::host::Timestamp;
use vstd::prelude::*;

verus! {

/// The lock's whole state.
#[derive(Debug, PartialEq, Eq, Clone)]
pub struct State {
    /// From when on the tokens may be withdrawn.
    pub unlock_time: Timestamp,
    /// Who receives them.
    pub owner: String,
}

} // verus!
