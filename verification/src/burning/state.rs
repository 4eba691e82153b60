//! What the burner remembers between messages.

use crate::book::AddrMap;
use crate::burning::error::ContractError;
use crate::math::Decimal;
use vstd::prelude::*;

verus! {

/// The settlement lock: whether a swap is in flight, and for whom the burn
/// that follows it will be made.
#[derive(Debug, PartialEq, Eq, Clone)]
pub struct CachedData {
    pub locked: bool,
    pub burner: String,
}

impl CachedData {
    /// Begins a settlement: takes the lock and records `burner` as the actor
    /// the settlement is for. While the lock is held this fails and changes
    /// nothing: settlements never queue and never overwrite one another.
    pub fn begin(&mut self, burner: String) -> (r: Result<(), ContractError>)
        ensures
            old(self).locked ==> r == Err::<(), ContractError>(ContractError::Locked {})
                && *final(self) == *old(self),
            !old(self).locked ==> r is Ok && *final(self) == (CachedData { locked: true, burner }),
    {
        if self.locked {
            return Err(ContractError::Locked {});
        }
        self.locked = true;
        self.burner = burner;
        Ok(())
    }

    /// Completes the settlement in flight: releases the lock and hands back
    /// the actor it recorded. While the lock is free this fails and changes
    /// nothing.
    pub fn complete(&mut self) -> (r: Result<String, ContractError>)
        ensures
            !old(self).locked ==> r == Err::<String, ContractError>(
                ContractError::AlreadyUnlocked {},
            ) && *final(self) == *old(self),
            old(self).locked ==> r == Ok::<String, ContractError>(old(self).burner)
                && *final(self) == (CachedData { locked: false, burner: old(self).burner }),
    {
        if !self.locked {
            return Err(ContractError::AlreadyUnlocked {});
        }
        self.locked = false;
        Ok(self.burner.clone())
    }
}

/// The burner's whole state.
#[derive(Debug)]
pub struct State {
    /// Who may change the configuration.
    pub owner: String,
    /// Reward tokens and the share of a burn paid out in each.
    pub reward_whitelist: AddrMap<Decimal>,
    /// Everything burned so far.
    pub burned_amount: u128,
    /// The share of each burn that goes to development.
    pub development_fee_ratio: Decimal,
    /// Who receives that share.
    pub development_fee_beneficiary: String,
    /// The router that swaps other assets to the native coin, once set.
    pub swap_router: Option<String>,
    /// The settlement lock.
    pub cache: CachedData,
}

impl State {
    /// Whether the state is one that the burner's own functions produce.
    pub open spec fn wf(self) -> bool {
        self.reward_whitelist.wf()
    }
}

} // verus!
