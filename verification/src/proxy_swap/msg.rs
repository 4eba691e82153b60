//! Messages of the swap proxy.

use crate::cremation_token::msg::AssetInfo;
use crate::cremation_token::state::FractionFormat;
use crate::host::Cw20ReceiveMsg;
use vstd::prelude::*;

verus! {

#[derive(Debug, PartialEq, Eq, Clone, Copy)]
pub struct MigrateMsg {}

/// What may ride along with tokens sent to the proxy.
#[derive(Debug, PartialEq, Eq, Clone)]
pub enum Cw20HookMsg {
    Swap { ask_asset: AssetInfo, swap_paths: Vec<AssetInfo> },
}

#[derive(Debug, PartialEq, Eq, Clone)]
pub struct InstantiateMsg {
    pub owner: String,
    pub swap_router: String,
}

#[derive(Debug, PartialEq, Eq)]
pub enum ExecuteMsg {
    UpdateOwner { new_owner: String },
    UpdateSwapRouter { router: String },
    SetTokenBuyTax { token_address: String, buy_tax: FractionFormat },
    Receive(Cw20ReceiveMsg<Cw20HookMsg>),
    Swap { ask_asset: AssetInfo, swap_paths: Vec<AssetInfo> },
}

#[derive(Debug, PartialEq, Eq, Clone)]
pub enum QueryMsg {
    Owner {},
    TokenTaxInfo { token_address: String },
    SwapRouter {},
}

#[derive(Debug, PartialEq, Eq, Clone)]
pub struct OwnerResponse {
    pub owner: String,
}

#[derive(Debug, PartialEq, Eq, Clone)]
pub struct TokenBuyTaxResponse {
    pub token_address: String,
    pub buy_tax: FractionFormat,
}

#[derive(Debug, PartialEq, Eq, Clone)]
pub struct SwapRouterResponse {
    pub router: String,
}

/// The answer to a query, one variant per question.
#[derive(Debug, PartialEq, Eq, Clone)]
pub enum QueryResponse {
    Owner(OwnerResponse),
    TokenTaxInfo(TokenBuyTaxResponse),
    SwapRouter(SwapRouterResponse),
}

} // verus!
