//! Why the time lock refuses a message.

use crate::error::StdError;
use vstd::prelude::*;

verus! {

#[derive(Debug, PartialEq, Eq)]
pub enum ContractError {
    StdError(StdError),
    Unauthorized {},
    Locked {},
}

} // verus!
