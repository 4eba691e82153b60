//! Why the staking ledger refuses a message.

use crate::error::StdError;
use vstd::prelude::*;

verus! {

#[derive(Debug, PartialEq, Eq)]
pub enum ContractError {
    StdError(StdError),
    AlreadyStaked {},
    NotStaked {},
    InsufficientRewards {},
    UnsupportedToken {},
    StakingUnavailable {},
    InvalidStakeAmount {},
    InsufficientBalance {},
}

impl ContractError {
    /// Whether this is the host-level overflow error.
    pub open spec fn is_overflow(self) -> bool {
        self == ContractError::StdError(StdError::Overflow {})
    }
}

} // verus!
