//! Why the swap proxy refuses a message.

use crate::error::StdError;
use vstd::prelude::*;

verus! {

#[derive(Debug, PartialEq, Eq)]
pub enum ContractError {
    StdError(StdError),
    Unauthorized {},
    InvalidReplyMsg {},
    Locked {},
    AlreadyUnlocked {},
    ExpectOnlyOneCoin {},
    ZeroAmount {},
}

impl ContractError {
    /// Whether this is the generic error with the text `msg`.
    pub open spec fn is_generic(self, msg: Seq<char>) -> bool {
        self matches ContractError::StdError(s) && s.is_generic(msg)
    }
}

} // verus!
