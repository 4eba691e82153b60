//! Why the token refuses a message. The kinds are those of the base token
//! module, which the taxed token shares.

use crate::error::StdError;
use vstd::prelude::*;

verus! {

#[derive(Debug, PartialEq, Eq)]
pub enum ContractError {
    Std(StdError),
    Unauthorized {},
    CannotSetOwnAccount {},
    InvalidZeroAmount {},
    Expired {},
    NoAllowance {},
    CannotExceedCap {},
    LogoTooBig {},
    InvalidXmlPreamble {},
    InvalidPngHeader {},
    InvalidExpiration {},
    DuplicateInitialBalanceAddresses {},
}

impl ContractError {
    /// Whether this is the host-level overflow error.
    pub open spec fn is_overflow(self) -> bool {
        self == ContractError::Std(StdError::Overflow {})
    }

    /// Whether this says that the record named `kind` is missing.
    pub open spec fn is_not_found(self, kind: Seq<char>) -> bool {
        self matches ContractError::Std(StdError::NotFound { kind: k }) && k@ == kind
    }

    /// Whether this is the generic error with the text `msg`.
    pub open spec fn is_generic(self, msg: Seq<char>) -> bool {
        self matches ContractError::Std(s) && s.is_generic(msg)
    }
}

} // verus!
