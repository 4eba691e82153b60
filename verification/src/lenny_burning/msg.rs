//! Messages of the token burner.

use crate::host::Cw20ReceiveMsg;
use crate::math::Decimal;
use vstd::prelude::*;

verus! {

#[derive(Debug, PartialEq, Eq, Clone, Copy)]
pub struct MigrateMsg {}

#[derive(Debug, PartialEq, Eq, Clone)]
pub struct InstantiateMsg {
    pub owner: String,
    pub reward_address: String,
    pub reward_info: RewardInfo,
    pub burn_limit: BurnLimit,
}

/// What may ride along with tokens sent to the burner.
#[derive(Debug, PartialEq, Eq, Clone, Copy)]
pub enum Cw20HookMsg {
    Burn {},
}

/// The share of a burn that goes back to the burner, and the share that
/// goes to the reward address.
#[derive(Debug, PartialEq, Eq, Clone, Copy)]
pub struct RewardInfo {
    pub refund_ratio: Decimal,
    pub reward_ratio: Decimal,
}

/// How much may be burned within one window, overall and by one address,
/// and how long a window lasts, in seconds.
#[derive(Debug, PartialEq, Eq, Clone, Copy)]
pub struct BurnLimit {
    pub total: u128,
    pub per_address: u128,
    pub duration: u64,
}

/// A burn window: what has been burned in it, and the second it began.
#[derive(Debug, PartialEq, Eq, Clone, Copy)]
pub struct BurnedToday {
    pub amount: u128,
    pub latest_burned: u64,
}

#[derive(Debug, PartialEq, Eq)]
pub enum ExecuteMsg {
    UpdateOwner { owner: String },
    UpdateRewardAddress { address: String },
    UpdateRewardInfo { refund_ratio: Option<Decimal>, reward_ratio: Option<Decimal> },
    UpdateBurnLimit { total: Option<u128>, per_address: Option<u128>, duration: Option<u64> },
    Receive(Cw20ReceiveMsg<Cw20HookMsg>),
}

#[derive(Debug, PartialEq, Eq, Clone)]
pub enum QueryMsg {
    Owner {},
    RewardAddress {},
    RewardInfo {},
    BurnLimit {},
    TotalBurnedToday {},
    BurnedTodayByAddress { address: String },
    BurnedAmount {},
}

#[derive(Debug, PartialEq, Eq, Clone)]
pub struct OwnerResponse {
    pub owner: String,
}

#[derive(Debug, PartialEq, Eq, Clone)]
pub struct RewardAddressResponse {
    pub address: String,
}

#[derive(Debug, PartialEq, Eq, Clone, Copy)]
pub struct RewardInfoResponse(pub RewardInfo);

#[derive(Debug, PartialEq, Eq, Clone, Copy)]
pub struct BurnLimitResponse(pub BurnLimit);

#[derive(Debug, PartialEq, Eq, Clone, Copy)]
pub struct TotalBurnedTodayResponse {
    pub amount: u128,
}

#[derive(Debug, PartialEq, Eq, Clone, Copy)]
pub struct BurnedTodayByAddressResponse {
    pub amount: u128,
}

#[derive(Debug, PartialEq, Eq, Clone, Copy)]
pub struct BurnedAmountResponse {
    pub burned_amount: u128,
}

/// The answer to a query, one variant per question.
#[derive(Debug, PartialEq, Eq, Clone)]
pub enum QueryResponse {
    Owner(OwnerResponse),
    RewardAddress(RewardAddressResponse),
    RewardInfo(RewardInfoResponse),
    BurnLimit(BurnLimitResponse),
    TotalBurnedToday(TotalBurnedTodayResponse),
    BurnedTodayByAddress(BurnedTodayByAddressResponse),
    BurnedAmount(BurnedAmountResponse),
}

} // verus!
