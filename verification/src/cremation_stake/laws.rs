//! What holds of the staking ledger whatever messages arrive.

use crate::cremation_stake::contract::{execute_post, matured, unstake_post};
use crate::cremation_stake::error::ContractError;
use crate::cremation_stake::msg::ExecuteMsg;
use crate::cremation_stake::state::{stake_reward, Staked, State};
use crate::host::{Api, Env, MessageInfo, Response};
use vstd::prelude::*;

verus! {

/// Solvency: from a state in which the pool covers what it has promised,
/// no message leads to one in which it does not. What is left in the pool
/// is never driven below what is promised, so it is never driven below zero.
pub proof fn lemma_pool_stays_solvent(
    pre: State,
    env: Env,
    info: MessageInfo,
    msg: ExecuteMsg,
    api: Api,
    post: State,
    r: Result<Response, ContractError>,
)
    requires
        pre.wf(),
        execute_post(pre, env, info, msg, api, post, r),
    ensures
        post.total_pending_rewards <= post.remaining_rewards,
        post.remaining_rewards <= pre.remaining_rewards,
{
    match msg {
        ExecuteMsg::Unstake {  } => {
            pre.stake.lemma_part_bounded(info.sender@, |s: Staked| stake_reward(s));
        },
        ExecuteMsg::Receive(_) => {},
    }
}

/// Early unstake: a stake that is taken back before its period is over
/// leaves the pool exactly as it was; only the promise is released.
pub proof fn lemma_early_unstake_keeps_pool(
    pre: State,
    env: Env,
    info: MessageInfo,
    post: State,
    r: Result<Response, ContractError>,
)
    requires
        pre.wf(),
        unstake_post(pre, env, info, post, r),
        pre.stake_of(info.sender@) matches Some(s) && !matured(
            env.block.time,
            s.start_time,
            s.period,
        ),
    ensures
        r is Ok,
        post.remaining_rewards == pre.remaining_rewards,
        post.total_pending_rewards == pre.total_pending_rewards - stake_reward(
            pre.stake_of(info.sender@).unwrap(),
        ),
{
    pre.stake.lemma_part_bounded(info.sender@, |s: Staked| stake_reward(s));
}

} // verus!
