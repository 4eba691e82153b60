//! Messages of the taxed token and of the swap router it talks to.

use crate::cremation_token::state::{FractionFormat, TaxInfo};
use crate::math::Decimal;
use vstd::prelude::*;

verus! {

/// What the data migration needs to know of the second venue.
#[derive(Debug, PartialEq, Eq, Clone)]
pub struct MigrateMsg {
    pub terraport_router: String,
    pub terraport_pairs: Vec<String>,
}

/// The trading venues whose pools and routers the token knows.
#[derive(Debug, PartialEq, Eq, Clone, Copy)]
pub enum Dex {
    Terraswap,
    Terraport,
}

/// What is offered or asked in one swap step: a contract-managed token or a
/// native denomination.
#[derive(Debug, PartialEq, Eq)]
pub enum AssetInfo {
    Token { contract_addr: String },
    NativeToken { denom: String },
}

impl Clone for AssetInfo {
    fn clone(&self) -> (a: AssetInfo)
        ensures
            a == *self,
    {
        match self {
            AssetInfo::Token { contract_addr } => AssetInfo::Token {
                contract_addr: contract_addr.clone(),
            },
            AssetInfo::NativeToken { denom } => AssetInfo::NativeToken { denom: denom.clone() },
        }
    }
}

impl AssetInfo {
    /// Whether this is the native denomination with the given name.
    pub open spec fn is_native(self, denom: Seq<char>) -> bool {
        self matches AssetInfo::NativeToken { denom: d } && d@ == denom
    }

    /// Whether this is the token managed by the given contract.
    pub open spec fn is_token(self, contract_addr: Seq<char>) -> bool {
        self matches AssetInfo::Token { contract_addr: c } && c@ == contract_addr
    }
}

/// One hop of a routed swap, tagged with the venue that executes it.
#[derive(Debug, PartialEq, Eq, Clone)]
pub enum SwapOperation {
    NativeSwap { offer_denom: String, ask_denom: String },
    TerraSwap { offer_asset_info: AssetInfo, ask_asset_info: AssetInfo },
    TerraPort { offer_asset_info: AssetInfo, ask_asset_info: AssetInfo },
    Loop { offer_asset_info: AssetInfo, ask_asset_info: AssetInfo },
    Astroport { offer_asset_info: AssetInfo, ask_asset_info: AssetInfo },
}

/// The request a swap router accepts.
#[derive(Debug, PartialEq, Eq, Clone)]
pub enum RouterExecuteMsg {
    ExecuteSwapOperations {
        operations: Vec<SwapOperation>,
        minimum_receive: Option<u128>,
        to: Option<String>,
        deadline: Option<u64>,
    },
}

impl RouterExecuteMsg {
    /// The hops of the request.
    pub open spec fn operations(self) -> Seq<SwapOperation> {
        match self {
            RouterExecuteMsg::ExecuteSwapOperations { operations, .. } => operations@,
        }
    }

    /// Whether the request names no recipient, floor or deadline.
    pub open spec fn is_plain(self) -> bool {
        match self {
            RouterExecuteMsg::ExecuteSwapOperations { minimum_receive, to, deadline, .. } => {
                minimum_receive is None && to is None && deadline is None
            },
        }
    }
}

#[derive(Debug, PartialEq, Eq, Clone)]
pub struct InstantiateMsg {
    pub owner: String,
    pub tax_info: TaxInfo,
}

/// The messages the token handles itself. Those of the base token module
/// that move no taxed balance (minting, burning, allowances, marketing) are
/// not among them.
#[derive(Debug, PartialEq, Eq, Clone)]
pub enum ExecuteMsg {
    SetDexConfigs {
        terraswap_router: String,
        terraswap_pairs: Vec<String>,
        terraport_router: String,
        terraport_pairs: Vec<String>,
    },
    UpdateOwner { new_owner: String },
    AddNewPairs { dex: Dex, pair_addresses: Vec<String> },
    UpdateCollectTaxAddress { new_collect_tax_addr: String },
    UpdateTaxInfo {
        buy_tax: Option<FractionFormat>,
        sell_tax: Option<FractionFormat>,
        transfer_tax: Option<FractionFormat>,
    },
    SetTaxFreeAddress { address: String, tax_free: bool },
    Transfer { recipient: String, amount: u128 },
    Send { contract: String, amount: u128, msg: Vec<u8> },
    TransferFrom { owner: String, recipient: String, amount: u128 },
    SendFrom { owner: String, contract: String, amount: u128, msg: Vec<u8> },
}

#[derive(Debug, PartialEq, Eq, Clone)]
pub enum QueryMsg {
    DexConfigs {},
    Owner {},
    CollectTaxAddress {},
    TaxInfo {},
    TaxFreeAddress { address: String },
    Balance { address: String },
}

#[derive(Debug, PartialEq, Eq, Clone)]
pub struct DexConfigsResponse {
    pub terraswap_router: String,
    pub terraswap_pairs: Vec<String>,
    pub terraport_router: String,
    pub terraport_pairs: Vec<String>,
}

#[derive(Debug, PartialEq, Eq, Clone, Copy)]
pub struct TaxInfoResponse {
    pub buy_tax: Decimal,
    pub sell_tax: Decimal,
    pub transfer_tax: Decimal,
}

#[derive(Debug, PartialEq, Eq, Clone)]
pub struct OwnerResponse {
    pub owner: String,
}

#[derive(Debug, PartialEq, Eq, Clone)]
pub struct CollectTaxAddressResponse {
    pub collect_tax_address: String,
}

#[derive(Debug, PartialEq, Eq, Clone, Copy)]
pub struct TaxFreeAddressResponse {
    pub tax_free: bool,
}

#[derive(Debug, PartialEq, Eq, Clone, Copy)]
pub struct BalanceResponse {
    pub balance: u128,
}

/// The answer to a query, one variant per question.
#[derive(Debug, PartialEq, Eq, Clone)]
pub enum QueryResponse {
    DexConfigs(DexConfigsResponse),
    Owner(OwnerResponse),
    CollectTaxAddress(CollectTaxAddressResponse),
    TaxInfo(TaxInfoResponse),
    TaxFreeAddress(TaxFreeAddressResponse),
    Balance(BalanceResponse),
}

} // verus!
