//! Messages of the staking ledger.

use crate::host::Cw20ReceiveMsg;
use crate::math::Decimal;
use vstd::prelude::*;

verus! {

/// The three lock periods a staker chooses from.
#[derive(Debug, PartialEq, Eq, Clone, Copy)]
pub enum StakingPeriod {
    Short,
    Medium,
    Long,
}

/// A tier: a lock period, its length in days, and the reward rate it earns.
#[derive(Debug, PartialEq, Eq, Clone, Copy)]
pub struct RewardInfoItem {
    pub staking_period: StakingPeriod,
    pub staking_days: u64,
    pub reward_rate: Decimal,
}

#[derive(Debug, PartialEq, Eq, Clone)]
pub struct InstantiateMsg {
    pub token_address: String,
}

#[derive(Debug, PartialEq, Eq)]
pub enum ExecuteMsg {
    Receive(Cw20ReceiveMsg<Cw20HookMsg>),
    Unstake {},
}

/// What may ride along with tokens sent to the staking ledger.
#[derive(Debug, PartialEq, Eq, Clone, Copy)]
pub enum Cw20HookMsg {
    Stake { staking_period: StakingPeriod },
}

#[derive(Debug, PartialEq, Eq, Clone)]
pub enum QueryMsg {
    TotalStaked {},
    Staked { address: String },
    RewardInfo {},
    CanStake {},
    RemainingRewards {},
    TotalPendingRewards {},
}

#[derive(Debug, PartialEq, Eq, Clone, Copy)]
pub struct TotalStakedResponse {
    pub total_staked_amount: u128,
}

#[derive(Debug, PartialEq, Eq, Clone, Copy)]
pub struct StakedResponse {
    pub staked_amount: u128,
    pub pending_reward: u128,
    /// Seconds since the epoch.
    pub claim_reward_at: u64,
}

#[derive(Debug, PartialEq, Eq, Clone)]
pub struct RewardInfoResponse {
    pub token_reward: String,
    pub reward_info: [RewardInfoItem; 3],
}

#[derive(Debug, PartialEq, Eq, Clone, Copy)]
pub struct CanStakeResponse {
    pub can_stake: bool,
}

#[derive(Debug, PartialEq, Eq, Clone, Copy)]
pub struct RemainingRewardsResponse {
    pub remaining_rewards: u128,
}

#[derive(Debug, PartialEq, Eq, Clone, Copy)]
pub struct TotalPendingRewardsResponse {
    pub total_pending_rewards: u128,
}

/// The answer to a query, one variant per question.
#[derive(Debug, PartialEq, Eq, Clone)]
pub enum QueryResponse {
    TotalStaked(TotalStakedResponse),
    Staked(StakedResponse),
    RewardInfo(RewardInfoResponse),
    CanStake(CanStakeResponse),
    RemainingRewards(RemainingRewardsResponse),
    TotalPendingRewards(TotalPendingRewardsResponse),
}

} // verus!
