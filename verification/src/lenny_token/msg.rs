//! Messages of the second taxed token.

use crate::cremation_token::msg::Dex;
use crate::cremation_token::state::{FractionFormat, TaxInfo};
use vstd::prelude::*;

verus! {

#[derive(Debug, PartialEq, Eq, Clone, Copy)]
pub struct MigrateMsg {}

#[derive(Debug, PartialEq, Eq, Clone)]
pub struct InstantiateMsg {
    pub owner: String,
    pub tax_info: TaxInfo,
    pub swap_tax_to_token: String,
}

/// The messages the token handles itself. Those of the base token module
/// that move no taxed balance are not among them.
#[derive(Debug, PartialEq, Eq, Clone)]
pub enum ExecuteMsg {
    SetDexConfigs {
        terraswap_router: String,
        terraswap_pairs: Vec<String>,
        terraport_router: String,
        terraport_pairs: Vec<String>,
    },
    UpdateOwner { new_owner: String },
    AddNewPairs { dex: Dex, pair_addresses: Vec<String> },
    RemovePair { dex: Dex, pair_address: String },
    UpdateCollectTaxAddress { new_collect_tax_addr: String },
    UpdateTaxInfo {
        buy_tax: Option<FractionFormat>,
        sell_tax: Option<FractionFormat>,
        transfer_tax: Option<FractionFormat>,
    },
    SetTaxFreeAddress { address: String, tax_free: bool },
    Transfer { recipient: String, amount: u128 },
    Send { contract: String, amount: u128, msg: Vec<u8> },
    TransferFrom { owner: String, recipient: String, amount: u128 },
    SendFrom { owner: String, contract: String, amount: u128, msg: Vec<u8> },
}

} // verus!
