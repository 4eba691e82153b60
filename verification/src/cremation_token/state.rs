//! What the taxed token remembers between messages.

use crate::book::{AddrMap, Ledger};
use vstd::prelude::*;

verus! {

/// The venue registry in its first shape: one pool and one router.
#[derive(Debug, PartialEq, Eq, Clone)]
pub struct Config {
    pub terraswap_pair: String,
    pub terraswap_router: String,
}

/// The venue registry: for each of the two venues a router and any number
/// of pools.
#[derive(Debug, PartialEq, Eq, Clone)]
pub struct DexConfigs {
    pub terraswap_router: String,
    pub terraswap_pairs: Vec<String>,
    pub terraport_router: String,
    pub terraport_pairs: Vec<String>,
}

/// A tax rate as an exact fraction.
#[derive(Debug, PartialEq, Eq, Clone, Copy)]
pub struct FractionFormat {
    pub numerator: u128,
    pub denominator: u128,
}

impl FractionFormat {
    /// Whether the fraction is a proper rate: a positive denominator and a
    /// numerator that does not exceed it.
    pub open spec fn valid(self) -> bool {
        self.denominator > 0 && self.numerator <= self.denominator
    }

    /// Whether the fraction is a proper rate.
    pub fn is_valid(&self) -> (b: bool)
        ensures
            b == self.valid(),
    {
        self.denominator > 0 && self.numerator <= self.denominator
    }
}

/// The tax rates by direction; a direction without a rate is untaxed.
#[derive(Debug, PartialEq, Eq, Clone, Copy)]
pub struct TaxInfo {
    pub buy_tax: Option<FractionFormat>,
    pub sell_tax: Option<FractionFormat>,
    pub transfer_tax: Option<FractionFormat>,
}

/// Whether a rate, where there is one, is a proper rate.
pub open spec fn valid_rate(tax: Option<FractionFormat>) -> bool {
    tax matches Some(f) ==> f.valid()
}

/// Whether a rate, where there is one, is a proper rate.
pub fn is_valid_rate(tax: &Option<FractionFormat>) -> (b: bool)
    ensures
        b == valid_rate(*tax),
{
    match tax {
        Some(f) => f.is_valid(),
        None => true,
    }
}

impl TaxInfo {
    /// Whether every rate that is set is a proper rate.
    pub open spec fn valid(self) -> bool {
        valid_rate(self.buy_tax) && valid_rate(self.sell_tax) && valid_rate(self.transfer_tax)
    }

    /// Whether every rate that is set is a proper rate.
    pub fn is_valid(&self) -> (b: bool)
        ensures
            b == self.valid(),
    {
        is_valid_rate(&self.buy_tax) && is_valid_rate(&self.sell_tax) && is_valid_rate(
            &self.transfer_tax,
        )
    }
}

/// The token's whole state.
#[derive(Debug)]
pub struct State {
    /// The registry in its first shape, where an old deployment still has it.
    pub config: Option<Config>,
    /// The venue registry, once it has been wired.
    pub dex_configs: Option<DexConfigs>,
    /// The tax rates.
    pub tax_info: TaxInfo,
    /// The account that tax is credited to.
    pub collect_tax_address: String,
    /// The exemption flags: an address flagged `true` neither pays nor
    /// triggers tax.
    pub tax_free_addresses: AddrMap<bool>,
    /// Who may change the configuration.
    pub owner: String,
    /// Who deployed the token and may wire the registry, once.
    pub creator: String,
    /// The account balances.
    pub balances: Ledger,
    /// What the token contract itself may spend out of each account.
    pub self_allowances: AddrMap<u128>,
}

impl State {
    /// Whether the state is one that the token's own functions produce:
    /// its stores are well formed and its tax rates are proper rates.
    pub open spec fn wf(self) -> bool {
        &&& self.tax_free_addresses.wf()
        &&& self.balances.wf()
        &&& self.self_allowances.wf()
        &&& self.tax_info.valid()
    }

    /// Whether `addr` is exempt from tax.
    pub open spec fn exempt(self, addr: Seq<char>) -> bool {
        self.tax_free_addresses.model().contains_key(addr) && self.tax_free_addresses.model()[addr]
    }
}

} // verus!
