//! What the swap proxy remembers between messages.

use crate::book::AddrMap;
use crate::cremation_token::state::FractionFormat;
use crate::proxy_swap::error::ContractError;
use vstd::prelude::*;

verus! {

/// The settlement lock: whether a swap is in flight, who began it, and
/// which token it buys.
#[derive(Debug, PartialEq, Eq, Clone)]
pub struct CacheData {
    pub locked: bool,
    pub buyer: String,
    pub token_address: String,
}

impl CacheData {
    /// Begins a settlement: takes the lock and records the buyer and the
    /// token to be bought. While the lock is held this fails and changes
    /// nothing: settlements never queue and never overwrite one another.
    pub fn begin(&mut self, buyer: String, token_address: String) -> (r: Result<
        (),
        ContractError,
    >)
        ensures
            old(self).locked ==> r == Err::<(), ContractError>(ContractError::Locked {})
                && *final(self) == *old(self),
            !old(self).locked ==> r is Ok && *final(self) == (CacheData {
                locked: true,
                buyer,
                token_address,
            }),
    {
        if self.locked {
            return Err(ContractError::Locked {});
        }
        self.locked = true;
        self.buyer = buyer;
        self.token_address = token_address;
        Ok(())
    }

    /// Completes the settlement in flight: releases the lock and hands back
    /// the buyer and the token it recorded. While the lock is free this
    /// fails and changes nothing.
    pub fn complete(&mut self) -> (r: Result<(String, String), ContractError>)
        ensures
            !old(self).locked ==> r == Err::<(String, String), ContractError>(
                ContractError::AlreadyUnlocked {},
            ) && *final(self) == *old(self),
            old(self).locked ==> r == Ok::<(String, String), ContractError>(
                (old(self).buyer, old(self).token_address),
            ) && *final(self) == (CacheData { locked: false, ..*old(self) }),
    {
        if !self.locked {
            return Err(ContractError::AlreadyUnlocked {});
        }
        self.locked = false;
        Ok((self.buyer.clone(), self.token_address.clone()))
    }
}

/// The proxy's whole state.
#[derive(Debug)]
pub struct State {
    /// Who may change the configuration.
    pub owner: String,
    /// The router that swaps are sent to.
    pub swap_router: String,
    /// The buy tax of each token that has one.
    pub token_buy_tax: AddrMap<FractionFormat>,
    /// The settlement lock.
    pub cache: CacheData,
}

impl State {
    /// Whether the state is one that the proxy's own functions produce: its
    /// store is well formed and every buy tax in it is a proper rate.
    pub open spec fn wf(self) -> bool {
        &&& self.token_buy_tax.wf()
        &&& forall|k: Seq<char>| #[trigger]
            self.token_buy_tax.model().contains_key(k) ==> self.token_buy_tax.model()[k].valid()
    }

    /// The buy tax set for `token`, if any.
    pub open spec fn buy_tax_of(self, token: Seq<char>) -> Option<FractionFormat> {
        if self.token_buy_tax.model().contains_key(token) {
            Some(self.token_buy_tax.model()[token])
        } else {
            None
        }
    }
}

} // verus!
