//! The host-level error that every contract error can carry.

use vstd::prelude::*;

verus! {

/// Failures that do not belong to one contract's own rules: a generic
/// message, an amount that would leave its range, or a missing record.
#[derive(Debug, PartialEq, Eq)]
pub enum StdError {
    GenericErr { msg: String },
    Overflow {},
    NotFound { kind: String },
}

impl Clone for StdError {
    fn clone(&self) -> (e: StdError)
        ensures
            e == *self,
    {
        match self {
            StdError::GenericErr { msg } => StdError::GenericErr { msg: msg.clone() },
            StdError::Overflow {} => StdError::Overflow {},
            StdError::NotFound { kind } => StdError::NotFound { kind: kind.clone() },
        }
    }
}

impl StdError {
    pub fn generic_err(msg: &str) -> (e: StdError)
        ensures
            e matches StdError::GenericErr { msg: m } && m@ == msg@,
    {
        StdError::GenericErr { msg: msg.to_owned() }
    }

    pub fn overflow() -> (e: StdError)
        ensures
            e == (StdError::Overflow {}),
    {
        StdError::Overflow {}
    }

    pub fn not_found(kind: &str) -> (e: StdError)
        ensures
            e matches StdError::NotFound { kind: k } && k@ == kind@,
    {
        StdError::NotFound { kind: kind.to_owned() }
    }

    /// Whether this is the generic error with exactly the text `msg`.
    pub open spec fn is_generic(self, msg: Seq<char>) -> bool {
        self matches StdError::GenericErr { msg: m } && m@ == msg
    }
}

} // verus!
