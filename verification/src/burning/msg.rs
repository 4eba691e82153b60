//! Messages of the burner.

use crate::cremation_token::msg::AssetInfo;
use crate::host::Cw20ReceiveMsg;
use crate::math::Decimal;
use vstd::prelude::*;

verus! {

/// A reward token and the share of each burn that is paid out in it.
#[derive(Debug, PartialEq, Eq, Clone)]
pub struct RewardInfo {
    pub token: String,
    pub reward_ratio: Decimal,
}

/// What may ride along with tokens sent to the burner.
#[derive(Debug, PartialEq, Eq, Clone)]
pub enum Cw20HookMsg {
    SwapAndBurn { swap_paths: Vec<AssetInfo> },
}

/// Who receives the development fee, and how large it is.
#[derive(Debug, PartialEq, Eq, Clone)]
pub struct DevelopmentConfig {
    pub beneficiary: String,
    pub fee_ratio: Decimal,
}

#[derive(Debug, PartialEq, Eq, Clone, Copy)]
pub struct MigrateMsg {}

#[derive(Debug, PartialEq, Eq, Clone)]
pub struct InstantiateMsg {
    pub owner: String,
    pub development_config: DevelopmentConfig,
}

#[derive(Debug, PartialEq, Eq)]
pub enum ExecuteMsg {
    UpdateDevelopmentConfig { beneficiary: Option<String>, fee_ratio: Option<Decimal> },
    AddToRewardWhitelist { reward_info: RewardInfo },
    RemoveFromRewardWhitelist { token: String },
    UpdateRewardInfo { reward_info: RewardInfo },
    Burn {},
    SetSwapRouter { router: String },
    SwapAndBurn { denom: String, swap_paths: Vec<AssetInfo> },
    Receive(Cw20ReceiveMsg<Cw20HookMsg>),
}

#[derive(Debug, PartialEq, Eq, Clone, Copy)]
pub enum QueryMsg {
    Owner {},
    DevelopmentConfig {},
    RewardWhitelist {},
    BurnedAmount {},
    SwapRouter {},
}

#[derive(Debug, PartialEq, Eq, Clone)]
pub struct OwnerResponse {
    pub owner: String,
}

#[derive(Debug, PartialEq, Eq, Clone)]
pub struct DevelopmentConfigResponse(pub DevelopmentConfig);

#[derive(Debug, PartialEq, Eq, Clone)]
pub struct RewardWhitelistResponse {
    pub reward_whitelist: Vec<RewardInfo>,
}

#[derive(Debug, PartialEq, Eq, Clone, Copy)]
pub struct BurnedAmountResponse {
    pub burned_amount: u128,
}

#[derive(Debug, PartialEq, Eq, Clone)]
pub struct SwapRouterResponse {
    pub swap_router: Option<String>,
}

/// The answer to a query, one variant per question.
#[derive(Debug, PartialEq, Eq, Clone)]
pub enum QueryResponse {
    Owner(OwnerResponse),
    DevelopmentConfig(DevelopmentConfigResponse),
    RewardWhitelist(RewardWhitelistResponse),
    BurnedAmount(BurnedAmountResponse),
    SwapRouter(SwapRouterResponse),
}

} // verus!
