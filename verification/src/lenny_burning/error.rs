//! Why the token burner refuses a message.

use crate::error::StdError;
use vstd::prelude::*;

verus! {

#[derive(Debug, PartialEq, Eq)]
pub enum ContractError {
    StdError(StdError),
    Unauthorized {},
    RatioMustBeLessThanOne {},
    AlreadyExists {},
    ZeroAmount {},
    ZeroRatio {},
    ExceedBurnLimit {},
}

impl ContractError {
    /// Whether this is the host-level overflow error.
    pub open spec fn is_overflow(self) -> bool {
        self == ContractError::StdError(StdError::Overflow {})
    }
}

} // verus!
