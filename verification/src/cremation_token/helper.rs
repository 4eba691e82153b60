//! Classifying a movement of tokens against the venue registry, and
//! checking the shape of a tax rate.

use crate::cremation_token::error::ContractError;
use crate::cremation_token::state::{valid_rate, DexConfigs, FractionFormat};
use crate::error::StdError;
use vstd::prelude::*;

verus! {

/// Whether `addr` is one of `list`.
pub open spec fn listed(list: Seq<String>, addr: Seq<char>) -> bool {
    exists|i: int| 0 <= i < list.len() && (#[trigger] list[i])@ == addr
}

/// Whether `addr` is one of `list`.
pub fn contains(list: &Vec<String>, addr: &String) -> (b: bool)
    ensures
        b == listed(list@, addr@),
{
    let mut i: usize = 0;
    while i < list.len()
        invariant
            i <= list@.len(),
            forall|j: int| 0 <= j < i ==> (#[trigger] list@[j])@ != addr@,
        decreases list@.len() - i,
    {
        if list[i] == *addr {
            return true;
        }
        i += 1;
    }
    false
}

impl DexConfigs {
    /// Whether `addr` is a pool of either venue.
    pub open spec fn is_pool(self, addr: Seq<char>) -> bool {
        listed(self.terraswap_pairs@, addr) || listed(self.terraport_pairs@, addr)
    }

    /// Whether `addr` is the router of either venue.
    pub open spec fn is_router(self, addr: Seq<char>) -> bool {
        addr == self.terraswap_router@ || addr == self.terraport_router@
    }

    /// Whether `addr` is a pool or the router of either venue.
    pub open spec fn is_venue(self, addr: Seq<char>) -> bool {
        self.is_pool(addr) || self.is_router(addr)
    }
}

/// Whether a movement from `from` to `to` is a buy: tokens leave a pool of
/// some venue for anyone but that venue's router.
pub open spec fn is_buy(dex: DexConfigs, from: Seq<char>, to: Seq<char>) -> bool {
    from != to && ((listed(dex.terraswap_pairs@, from) && to != dex.terraswap_router@) || (listed(
        dex.terraport_pairs@,
        from,
    ) && to != dex.terraport_router@))
}

/// Whether a movement from `from` to `to` is a sell: tokens reach a pool or
/// router of some venue from an address that is itself neither.
pub open spec fn is_sell(dex: DexConfigs, from: Seq<char>, to: Seq<char>) -> bool {
    from != to && dex.is_venue(to) && !dex.is_venue(from)
}

/// The three kinds of movement.
#[derive(Debug, PartialEq, Eq, Clone, Copy)]
pub enum Operation {
    Buy,
    Sell,
    Transfer,
}

/// The kind of a movement from `from` to `to`.
pub open spec fn classified(dex: DexConfigs, from: Seq<char>, to: Seq<char>) -> Operation {
    if is_buy(dex, from, to) {
        Operation::Buy
    } else if is_sell(dex, from, to) {
        Operation::Sell
    } else {
        Operation::Transfer
    }
}

/// No movement is both a buy and a sell: a buy starts at a pool, a sell
/// never does. So the kind of a movement does not depend on which of the
/// two is asked first.
pub proof fn lemma_buy_excludes_sell(dex: DexConfigs, from: Seq<char>, to: Seq<char>)
    ensures
        !(is_buy(dex, from, to) && is_sell(dex, from, to)),
        classified(dex, from, to) == Operation::Buy <==> is_buy(dex, from, to),
        classified(dex, from, to) == Operation::Sell <==> is_sell(dex, from, to),
        classified(dex, from, to) == Operation::Transfer <==> !is_buy(dex, from, to) && !is_sell(
            dex,
            from,
            to,
        ),
{
}

/// Whether tokens are received from a pool of either venue.
pub fn is_buy_operation(dex_configs: &DexConfigs, from: &String, to: &String) -> (b: bool)
    ensures
        b == is_buy(*dex_configs, from@, to@),
{
    let buy_from_terraswap = *from != *to && contains(&dex_configs.terraswap_pairs, from) && *to
        != dex_configs.terraswap_router;
    let buy_from_terraport = *from != *to && contains(&dex_configs.terraport_pairs, from) && *to
        != dex_configs.terraport_router;
    buy_from_terraswap || buy_from_terraport
}

/// Whether tokens are sent to a pool or router of either venue by an
/// address that is none of them.
pub fn is_sell_operation(dex_configs: &DexConfigs, from: &String, to: &String) -> (b: bool)
    ensures
        b == is_sell(*dex_configs, from@, to@),
{
    let to_venue = contains(&dex_configs.terraswap_pairs, to) || contains(
        &dex_configs.terraport_pairs,
        to,
    ) || *to == dex_configs.terraswap_router || *to == dex_configs.terraport_router;
    let from_venue = contains(&dex_configs.terraswap_pairs, from) || contains(
        &dex_configs.terraport_pairs,
        from,
    ) || *from == dex_configs.terraswap_router || *from == dex_configs.terraport_router;
    *from != *to && to_venue && !from_venue
}

/// The kind of a movement from `from` to `to`: exactly one of buy, sell and
/// transfer, fixed by the two addresses and the registry alone.
pub fn classify(dex_configs: &DexConfigs, from: &String, to: &String) -> (op: Operation)
    ensures
        op == classified(*dex_configs, from@, to@),
{
    if is_buy_operation(dex_configs, from, to) {
        Operation::Buy
    } else if is_sell_operation(dex_configs, from, to) {
        Operation::Sell
    } else {
        Operation::Transfer
    }
}

/// Whether `e` is the refusal of a malformed rate.
pub open spec fn is_invalid_fraction(e: ContractError) -> bool {
    e matches ContractError::Std(s) && s.is_generic("Invalid fraction format"@)
}

/// Accepts an absent rate and a proper one; refuses a rate with a zero
/// denominator or a numerator above the denominator.
pub fn validate_tax_format(tax: &Option<FractionFormat>) -> (r: Result<(), ContractError>)
    ensures
        r is Ok <==> valid_rate(*tax),
        r matches Err(e) ==> is_invalid_fraction(e),
{
    match tax {
        Some(tax) => {
            if tax.denominator == 0 || tax.numerator > tax.denominator {
                return Err(ContractError::Std(StdError::generic_err("Invalid fraction format")));
            }
        },
        None => {},
    }
    Ok(())
}

} // verus!
