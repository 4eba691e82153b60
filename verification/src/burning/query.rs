//! The burner's read-only answers.

use crate::book::{ascending, Entry};
use crate::burning::msg::{
    BurnedAmountResponse, DevelopmentConfig, DevelopmentConfigResponse, OwnerResponse,
    RewardInfo, RewardWhitelistResponse, SwapRouterResponse,
};
use crate::burning::state::State;
use crate::error::StdError;
use crate::math::Decimal;
use vstd::prelude::*;

verus! {

/// Who owns the burner.
pub fn owner(state: &State) -> (r: Result<OwnerResponse, StdError>)
    ensures
        r == Ok::<OwnerResponse, StdError>(OwnerResponse { owner: state.owner }),
{
    Ok(OwnerResponse { owner: state.owner.clone() })
}

/// The development fee and who receives it.
pub fn development_config(state: &State) -> (r: Result<DevelopmentConfigResponse, StdError>)
    ensures
        r == Ok::<DevelopmentConfigResponse, StdError>(
            DevelopmentConfigResponse(
                DevelopmentConfig {
                    beneficiary: state.development_fee_beneficiary,
                    fee_ratio: state.development_fee_ratio,
                },
            ),
        ),
{
    Ok(
        DevelopmentConfigResponse(
            DevelopmentConfig {
                fee_ratio: state.development_fee_ratio,
                beneficiary: state.development_fee_beneficiary.clone(),
            },
        ),
    )
}

/// Whether `list` shows the whitelist entries one for one, in their order,
/// which is the ascending order of the token addresses.
pub open spec fn lists_whitelist(list: Seq<RewardInfo>, entries: Seq<Entry<Decimal>>) -> bool {
    &&& ascending(entries)
    &&& list.len() == entries.len()
    &&& forall|i: int|
        0 <= i < list.len() ==> (#[trigger] list[i]).token == entries[i].key
            && list[i].reward_ratio == entries[i].value
}

/// The reward tokens with their ratios, in address order.
pub fn reward_whitelist(state: &State) -> (r: Result<RewardWhitelistResponse, StdError>)
    requires
        state.wf(),
    ensures
        r matches Ok(res) && lists_whitelist(
            res.reward_whitelist@,
            state.reward_whitelist.entries(),
        ),
{
    proof {
        state.reward_whitelist.lemma_entries_ascending();
    }
    let mut list: Vec<RewardInfo> = Vec::new();
    let n = state.reward_whitelist.len();
    let mut i: usize = 0;
    while i < n
        invariant
            n == state.reward_whitelist.entries().len(),
            i <= n,
            list@.len() == i,
            forall|j: int|
                0 <= j < i ==> (#[trigger] list@[j]).token == state.reward_whitelist.entries()[j].key
                    && list@[j].reward_ratio == state.reward_whitelist.entries()[j].value,
        decreases n - i,
    {
        let entry = state.reward_whitelist.entry(i);
        list.push(RewardInfo { token: entry.key.clone(), reward_ratio: entry.value });
        i += 1;
    }
    Ok(RewardWhitelistResponse { reward_whitelist: list })
}

/// Everything burned so far.
pub fn burned_amount(state: &State) -> (r: Result<BurnedAmountResponse, StdError>)
    ensures
        r == Ok::<BurnedAmountResponse, StdError>(
            BurnedAmountResponse { burned_amount: state.burned_amount },
        ),
{
    Ok(BurnedAmountResponse { burned_amount: state.burned_amount })
}

/// The swap router, if one has been set.
pub fn swap_router(state: &State) -> (r: Result<SwapRouterResponse, StdError>)
    ensures
        r == Ok::<SwapRouterResponse, StdError>(
            SwapRouterResponse { swap_router: state.swap_router },
        ),
{
    let swap_router = match &state.swap_router {
        Some(router) => Some(router.clone()),
        None => None,
    };
    Ok(SwapRouterResponse { swap_router })
}

} // verus!
