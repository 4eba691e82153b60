//! Messages of the time lock.

use crate::host::Timestamp;
use vstd::prelude::*;

verus! {

#[derive(Debug, PartialEq, Eq, Clone)]
pub struct InstantiateMsg {
    pub owner: String,
}

#[derive(Debug, PartialEq, Eq, Clone)]
pub enum ExecuteMsg {
    UpdateOwner { new_owner: String },
    Withdraw { token_address: String },
}

#[derive(Debug, PartialEq, Eq, Clone)]
pub enum QueryMsg {
    LockedTokenAmount { token_address: String },
    Owner {},
    UnlockTime {},
}

#[derive(Debug, PartialEq, Eq, Clone)]
pub struct LockedTokenListResponse {
    pub locked_token_list: Vec<String>,
}

#[derive(Debug, PartialEq, Eq, Clone, Copy)]
pub struct LockedTokenAmountResponse {
    pub amount: u128,
}

#[derive(Debug, PartialEq, Eq, Clone)]
pub struct OwnerResponse {
    pub owner: String,
}

#[derive(Debug, PartialEq, Eq, Clone, Copy)]
pub struct UnlockTimeResponse {
    pub unlock_time: Timestamp,
}

/// The answer to a query, one variant per question.
#[derive(Debug, PartialEq, Eq, Clone)]
pub enum QueryResponse {
    LockedTokenAmount(LockedTokenAmountResponse),
    Owner(OwnerResponse),
    UnlockTime(UnlockTimeResponse),
}

} // verus!
