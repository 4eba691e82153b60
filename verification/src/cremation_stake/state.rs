//! What the staking ledger remembers between messages.

use crate::book::{sum_by, AddrMap};
use crate::cremation_stake::msg::{RewardInfoItem, StakingPeriod};
use crate::host::Timestamp;
use crate::math::{decimal_share, lemma_share_bounded, mul_decimal, Decimal};
use vstd::prelude::*;

verus! {

/// One stake: how much, since when, and for which period.
#[derive(Debug, PartialEq, Eq, Clone, Copy)]
pub struct Staked {
    pub staked_amount: u128,
    pub start_time: Timestamp,
    pub period: StakingPeriod,
}

/// The length of a period in days.
pub open spec fn days_of(period: StakingPeriod) -> u64 {
    match period {
        StakingPeriod::Short => 30,
        StakingPeriod::Medium => 90,
        StakingPeriod::Long => 180,
    }
}

/// The reward rate of a period, in atomics of a [`Decimal`]: 3 %, 10 % and
/// 22.5 %.
pub open spec fn rate_of(period: StakingPeriod) -> u128 {
    match period {
        StakingPeriod::Short => 30_000_000_000_000_000,
        StakingPeriod::Medium => 100_000_000_000_000_000,
        StakingPeriod::Long => 225_000_000_000_000_000,
    }
}

/// The tier of a period.
pub fn tier(period: StakingPeriod) -> (item: RewardInfoItem)
    ensures
        item.staking_period == period,
        item.staking_days == days_of(period),
        item.reward_rate.atomics == rate_of(period),
{
    match period {
        StakingPeriod::Short => RewardInfoItem {
            staking_period: StakingPeriod::Short,
            staking_days: 30,
            reward_rate: Decimal::raw(30_000_000_000_000_000),
        },
        StakingPeriod::Medium => RewardInfoItem {
            staking_period: StakingPeriod::Medium,
            staking_days: 90,
            reward_rate: Decimal::raw(100_000_000_000_000_000),
        },
        StakingPeriod::Long => RewardInfoItem {
            staking_period: StakingPeriod::Long,
            staking_days: 180,
            reward_rate: Decimal::raw(225_000_000_000_000_000),
        },
    }
}

/// The reward that `amount` staked for `period` earns.
pub open spec fn reward_of(amount: u128, period: StakingPeriod) -> nat {
    decimal_share(amount, Decimal { atomics: rate_of(period) }) as nat
}

/// A reward is never more than the stake it is earned on.
pub proof fn lemma_reward_bounded(amount: u128, period: StakingPeriod)
    ensures
        reward_of(amount, period) <= amount,
        reward_of(amount, period) == decimal_share(amount, Decimal { atomics: rate_of(period) }),
{
    lemma_share_bounded(amount, Decimal { atomics: rate_of(period) });
}

/// The reward that `amount` staked for `period` earns.
pub fn reward(amount: u128, period: StakingPeriod) -> (r: u128)
    ensures
        r == reward_of(amount, period),
        r <= amount,
{
    proof {
        lemma_reward_bounded(amount, period);
    }
    mul_decimal(amount, tier(period).reward_rate)
}

/// The reward a stake earns.
pub open spec fn stake_reward(s: Staked) -> nat {
    reward_of(s.staked_amount, s.period)
}

/// The amount of a stake.
pub open spec fn stake_amount(s: Staked) -> nat {
    s.staked_amount as nat
}

/// The staking ledger's whole state.
#[derive(Debug)]
pub struct State {
    /// The token that is staked and paid out.
    pub token_address: String,
    /// All stakes together.
    pub total_staked_amount: u128,
    /// What may still be minted as reward.
    pub remaining_rewards: u128,
    /// The rewards promised to the present stakes.
    pub total_pending_rewards: u128,
    /// The stakes, at most one per address.
    pub stake: AddrMap<Staked>,
}

impl State {
    /// Whether the state is one that the ledger's own functions produce:
    /// the two totals are the sums over the stakes on file, and the pool
    /// covers every reward it has promised.
    pub open spec fn wf(self) -> bool {
        &&& self.stake.wf()
        &&& self.total_staked_amount == self.stake.sum(|s: Staked| stake_amount(s))
        &&& self.total_pending_rewards == self.stake.sum(|s: Staked| stake_reward(s))
        &&& self.total_pending_rewards <= self.remaining_rewards
    }

    /// The state with the stakes `stake` on file and `remaining_rewards` in
    /// the pool, its totals counted from the stakes; nothing where a total
    /// leaves its range or the pool does not cover what the stakes are
    /// promised.
    pub fn assemble(token_address: String, remaining_rewards: u128, stake: AddrMap<Staked>) -> (r:
        Option<State>)
        requires
            stake.wf(),
        ensures
            r is Some <==> stake.sum(|s: Staked| stake_amount(s)) <= u128::MAX && stake.sum(
                |s: Staked| stake_reward(s),
            ) <= remaining_rewards,
            r matches Some(state) ==> state.wf() && state.token_address == token_address
                && state.remaining_rewards == remaining_rewards && state.stake == stake,
    {
        let ghost amounts = |s: Staked| stake_amount(s);
        let ghost rewards = |s: Staked| stake_reward(s);
        let n = stake.len();
        let mut staked: u128 = 0;
        let mut promised: u128 = 0;
        let mut i: usize = 0;
        proof {
            stake.lemma_sum_stepwise(amounts, 0);
            stake.lemma_sum_stepwise(rewards, 0);
        }
        while i < n
            invariant
                n == stake.entries().len(),
                i <= n,
                amounts == |s: Staked| stake_amount(s),
                rewards == |s: Staked| stake_reward(s),
                staked == sum_by(stake.entries().subrange(0, i as int), amounts),
                promised == sum_by(stake.entries().subrange(0, i as int), rewards),
            decreases n - i,
        {
            let entry = stake.entry(i);
            proof {
                stake.lemma_sum_stepwise(amounts, i as int);
                stake.lemma_sum_stepwise(rewards, i as int);
                stake.lemma_sum_stepwise(amounts, i + 1);
                stake.lemma_sum_stepwise(rewards, i + 1);
            }
            staked = match staked.checked_add(entry.value.staked_amount) {
                Some(sum) => sum,
                None => {
                    return None;
                },
            };
            promised = match promised.checked_add(
                reward(entry.value.staked_amount, entry.value.period),
            ) {
                Some(sum) => sum,
                None => {
                    proof {
                        lemma_reward_bounded(entry.value.staked_amount, entry.value.period);
                    }
                    return None;
                },
            };
            i += 1;
        }
        proof {
            stake.lemma_sum_stepwise(amounts, n as int);
            stake.lemma_sum_stepwise(rewards, n as int);
        }
        if promised > remaining_rewards {
            return None;
        }
        Some(
            State {
                token_address,
                total_staked_amount: staked,
                remaining_rewards,
                total_pending_rewards: promised,
                stake,
            },
        )
    }

    /// The stake of `addr`, if it has one.
    pub open spec fn stake_of(self, addr: Seq<char>) -> Option<Staked> {
        if self.stake.model().contains_key(addr) {
            Some(self.stake.model()[addr])
        } else {
            None
        }
    }
}

} // verus!
