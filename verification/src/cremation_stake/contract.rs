//! The staking ledger's entry points and handlers.

use crate::book::AddrMap;
use crate::cremation_stake::error::ContractError;
use crate::cremation_stake::msg::{
    CanStakeResponse, Cw20HookMsg, ExecuteMsg, InstantiateMsg, QueryMsg, QueryResponse,
    RemainingRewardsResponse, RewardInfoItem, RewardInfoResponse, StakedResponse,
    StakingPeriod,
    TotalPendingRewardsResponse, TotalStakedResponse,
};
use crate::cremation_stake::state::{
    days_of, rate_of, reward, reward_of, stake_amount, stake_reward, tier,
    Staked, State,
};
use crate::error::StdError;
use crate::host::{
    Api, attr, cw20_mint, cw20_transfer, Attribute, Cw20ReceiveMsg, Env, MessageInfo, Response, SubMsg,
    Timestamp, NANOS_PER_SECOND,
};
use crate::math::{amount_to_string, count_to_string, shows_amount, shows_count};
use vstd::prelude::*;

verus! {

/// What [`instantiate`] guarantees. The pool is what the token may still
/// mint: its cap less its present supply. A token that does not answer, has
/// no cap, or has outgrown its cap is refused.
pub open spec fn instantiate_post(
    msg: InstantiateMsg,
    cap: Result<Option<u128>, StdError>,
    total_supply: Result<u128, StdError>,
    r: Result<State, StdError>,
) -> bool {
    if cap is Err {
        cap matches Err(e) && r == Err::<State, StdError>(e)
    } else if total_supply is Err {
        total_supply matches Err(e) && r == Err::<State, StdError>(e)
    } else if cap.unwrap() is None {
        r matches Err(StdError::NotFound { kind }) && kind@ == "cap"@
    } else if cap.unwrap().unwrap() < total_supply.unwrap() {
        r == Err::<State, StdError>(StdError::Overflow {})
    } else {
        r matches Ok(state) && {
            &&& state.wf()
            &&& state.stake.model() == Map::<Seq<char>, Staked>::empty()
            &&& state == State {
                token_address: msg.token_address,
                total_staked_amount: 0,
                remaining_rewards: (cap.unwrap().unwrap() - total_supply.unwrap()) as u128,
                total_pending_rewards: 0,
                stake: state.stake,
            }
        }
    }
}

/// Sets the ledger up for the token named in `msg`. `cap` is what that
/// token answered when asked for its minting cap, `total_supply` what it
/// answered when asked for its supply.
pub fn instantiate(
    _env: Env,
    _info: MessageInfo,
    msg: InstantiateMsg,
    cap: Result<Option<u128>, StdError>,
    total_supply: Result<u128, StdError>,
) -> (r: Result<State, StdError>)
    ensures
        instantiate_post(msg, cap, total_supply, r),
{
    let cap = match cap {
        Ok(c) => c,
        Err(e) => {
            return Err(e);
        },
    };
    let current_supply: u128 = match total_supply {
        Ok(s) => s,
        Err(e) => {
            return Err(e);
        },
    };
    let maximum_supply: u128 = match cap {
        Some(c) => c,
        None => {
            return Err(StdError::not_found("cap"));
        },
    };
    if maximum_supply < current_supply {
        return Err(StdError::overflow());
    }
    let stake: AddrMap<Staked> = AddrMap::new();
    proof {
        stake.lemma_sum_empty(|s: Staked| stake_amount(s));
        stake.lemma_sum_empty(|s: Staked| stake_reward(s));
    }
    Ok(
        State {
            token_address: msg.token_address,
            total_staked_amount: 0,
            remaining_rewards: maximum_supply - current_supply,
            total_pending_rewards: 0,
            stake,
        },
    )
}

/// Whether `post` is `pre` with the stake `staked` filed for `staker` and
/// the totals raised by it.
pub open spec fn staked_into(pre: State, staker: Seq<char>, staked: Staked, post: State) -> bool {
    &&& post == State {
        total_staked_amount: (pre.total_staked_amount + staked.staked_amount) as u128,
        total_pending_rewards: (pre.total_pending_rewards + stake_reward(staked)) as u128,
        stake: post.stake,
        ..pre
    }
    &&& post.stake.model() == pre.stake.model().insert(staker, staked)
}

/// What [`receive_cw20`] guarantees. The checks come in this order: the
/// token, the staker's address, the amount, the hook message, an earlier
/// stake, the pool, the range of the staked total. A refusal changes nothing; in particular a
/// stake whose reward the pool could not cover on top of what it has
/// promised already is never accepted, in part or in whole.
pub open spec fn receive_cw20_post(
    pre: State,
    env: Env,
    info: MessageInfo,
    cw20_msg: Cw20ReceiveMsg<Cw20HookMsg>,
    api: Api,
    post: State,
    r: Result<Response, ContractError>,
) -> bool {
    let staker = cw20_msg.sender@;
    let amount = cw20_msg.amount;
    if info.sender@ != pre.token_address@ {
        post == pre && r == Err::<Response, ContractError>(ContractError::UnsupportedToken {})
    } else if api.verdict(staker) is Some {
        post == pre && r == Err::<Response, ContractError>(
            ContractError::StdError(api.verdict(staker).unwrap()),
        )
    } else if amount == 0 {
        post == pre && r == Err::<Response, ContractError>(ContractError::InvalidStakeAmount {})
    } else {
        match cw20_msg.msg {
            Err(e) => post == pre && r == Err::<Response, ContractError>(
                ContractError::StdError(e),
            ),
            Ok(Cw20HookMsg::Stake { staking_period }) => if pre.stake_of(staker) is Some {
                post == pre && r == Err::<Response, ContractError>(
                    ContractError::AlreadyStaked {},
                )
            } else if pre.remaining_rewards < pre.total_pending_rewards + reward_of(
                amount,
                staking_period,
            ) {
                post == pre && r == Err::<Response, ContractError>(
                    ContractError::InsufficientRewards {},
                )
            } else if pre.total_staked_amount + amount > u128::MAX {
                post == pre && (r matches Err(e) && e.is_overflow())
            } else {
                &&& staked_into(
                    pre,
                    staker,
                    Staked {
                        staked_amount: amount,
                        start_time: env.block.time,
                        period: staking_period,
                    },
                    post,
                )
                &&& r matches Ok(res) && res.messages@.len() == 0 && res.attributes@.len() == 4
                    && res.attributes@[0]@ == ("action"@, "stake"@) && res.attributes@[1]@ == (
                    "staker"@,
                    staker,
                ) && res.attributes@[2].key@ == "staked_amount"@ && shows_amount(
                    res.attributes@[2].value,
                    amount,
                ) && res.attributes@[3].key@ == "period"@ && shows_count(
                    res.attributes@[3].value,
                    days_of(staking_period),
                )
            },
        }
    }
}

/// Takes a stake: the tokens that the staked token reports as sent by
/// `cw20_msg.sender`, locked from now for the period the hook message
/// names.
pub fn receive_cw20(
    state: &mut State,
    env: Env,
    info: MessageInfo,
    cw20_msg: Cw20ReceiveMsg<Cw20HookMsg>,
    api: &Api,
) -> (r: Result<Response, ContractError>)
    requires
        old(state).wf(),
        api.wf(),
    ensures
        final(state).wf(),
        receive_cw20_post(*old(state), env, info, cw20_msg, *api, *final(state), r),
{
    if info.sender != state.token_address {
        return Err(ContractError::UnsupportedToken {});
    }
    match api.addr_validate(&cw20_msg.sender) {
        Ok(_) => {},
        Err(e) => {
            return Err(ContractError::StdError(e));
        },
    }
    let sender = cw20_msg.sender;
    let amount: u128 = cw20_msg.amount;
    if amount == 0 {
        return Err(ContractError::InvalidStakeAmount {});
    }
    match cw20_msg.msg {
        Ok(Cw20HookMsg::Stake { staking_period }) => {
            if state.stake.has(&sender) {
                return Err(ContractError::AlreadyStaked {});
            }
            let reward_info = tier(staking_period);
            let pending_reward: u128 = reward(amount, staking_period);
            let promised: u128 = match state.total_pending_rewards.checked_add(pending_reward) {
                Some(p) => p,
                None => {
                    return Err(ContractError::InsufficientRewards {});
                },
            };
            if state.remaining_rewards < promised {
                return Err(ContractError::InsufficientRewards {});
            }
            let total: u128 = match state.total_staked_amount.checked_add(amount) {
                Some(t) => t,
                None => {
                    return Err(ContractError::StdError(StdError::overflow()));
                },
            };
            let staked = Staked {
                staked_amount: amount,
                start_time: env.block.time,
                period: staking_period,
            };
            state.total_pending_rewards = promised;
            state.stake.insert(sender.clone(), staked);
            state.total_staked_amount = total;
            let mut attributes: Vec<Attribute> = Vec::new();
            attributes.push(attr("action", "stake".to_owned()));
            attributes.push(attr("staker", sender));
            attributes.push(attr("staked_amount", amount_to_string(amount)));
            attributes.push(attr("period", count_to_string(reward_info.staking_days)));
            Ok(Response { messages: Vec::new(), attributes })
        },
        Err(e) => Err(ContractError::StdError(e)),
    }
}

/// Whether a stake begun at `start` for `period` has run its course at
/// `now`.
pub open spec fn matured(now: Timestamp, start: Timestamp, period: StakingPeriod) -> bool {
    now.nanos >= start.nanos_after_days(days_of(period))
}

/// What [`unstake`] guarantees. Without a stake the call is refused and
/// nothing changes. Otherwise the stake is taken off file and its principal
/// sent back; its reward is no longer promised; and if the stake has run
/// its course the reward is minted and leaves the pool, while before that
/// the pool stays as it is and nothing is minted.
pub open spec fn unstake_post(
    pre: State,
    env: Env,
    info: MessageInfo,
    post: State,
    r: Result<Response, ContractError>,
) -> bool {
    let staker = info.sender@;
    match pre.stake_of(staker) {
        None => post == pre && r == Err::<Response, ContractError>(ContractError::NotStaked {}),
        Some(staked) => {
            let due = stake_reward(staked);
            let paid = matured(env.block.time, staked.start_time, staked.period);
            &&& post == State {
                total_staked_amount: (pre.total_staked_amount - staked.staked_amount) as u128,
                total_pending_rewards: (pre.total_pending_rewards - due) as u128,
                remaining_rewards: if paid {
                    (pre.remaining_rewards - due) as u128
                } else {
                    pre.remaining_rewards
                },
                stake: post.stake,
                ..pre
            }
            &&& post.stake.model() == pre.stake.model().remove(staker)
            &&& r matches Ok(res) && {
                &&& res.messages@.len() == if paid {
                    2nat
                } else {
                    1nat
                }
                &&& forall|k: int|
                    0 <= k < res.messages@.len() ==> (#[trigger] res.messages@[k]).is_plain()
                &&& res.messages@[0].msg.is_cw20_transfer(
                    pre.token_address@,
                    staker,
                    staked.staked_amount,
                )
                &&& paid ==> res.messages@[1].msg.is_cw20_mint(
                    pre.token_address@,
                    staker,
                    due as u128,
                )
                &&& res.attributes@.len() == if paid {
                    4nat
                } else {
                    3nat
                }
                &&& res.attributes@[0]@ == ("action"@, "unstake"@)
                &&& res.attributes@[1]@ == ("staker"@, staker)
                &&& res.attributes@[2].key@ == "unstaked_amount"@
                &&& shows_amount(res.attributes@[2].value, staked.staked_amount)
                &&& paid ==> res.attributes@[3].key@ == "reward"@ && shows_amount(
                    res.attributes@[3].value,
                    due as u128,
                )
            }
        },
    }
}

/// Gives the sender's stake back, with its reward if the period is over
/// and without it, silently, if not.
pub fn unstake(state: &mut State, env: Env, info: MessageInfo) -> (r: Result<
    Response,
    ContractError,
>)
    requires
        old(state).wf(),
    ensures
        final(state).wf(),
        unstake_post(*old(state), env, info, *final(state), r),
{
    let sender = info.sender;
    let staked = match state.stake.get(&sender) {
        Some(s) => *s,
        None => {
            return Err(ContractError::NotStaked {});
        },
    };
    proof {
        state.stake.lemma_part_bounded(sender@, |s: Staked| stake_amount(s));
        state.stake.lemma_part_bounded(sender@, |s: Staked| stake_reward(s));
    }
    let reward_info = tier(staked.period);
    let due: u128 = reward(staked.staked_amount, staked.period);
    state.total_pending_rewards = state.total_pending_rewards - due;
    state.stake.remove(&sender);
    state.total_staked_amount = state.total_staked_amount - staked.staked_amount;

    let mut messages: Vec<SubMsg> = Vec::new();
    messages.push(SubMsg::new(cw20_transfer(&state.token_address, &sender, staked.staked_amount)));
    let mut attributes: Vec<Attribute> = Vec::new();
    attributes.push(attr("action", "unstake".to_owned()));
    attributes.push(attr("staker", sender.clone()));
    attributes.push(attr("unstaked_amount", amount_to_string(staked.staked_amount)));

    if env.block.time.reached(&staked.start_time, reward_info.staking_days) {
        state.remaining_rewards = state.remaining_rewards - due;
        messages.push(SubMsg::new(cw20_mint(&state.token_address, &sender, due)));
        attributes.push(attr("reward", amount_to_string(due)));
    }
    Ok(Response { messages, attributes })
}

/// What [`execute`] guarantees: for each kind of message, what the handler
/// of that kind guarantees.
pub open spec fn execute_post(
    pre: State,
    env: Env,
    info: MessageInfo,
    msg: ExecuteMsg,
    api: Api,
    post: State,
    r: Result<Response, ContractError>,
) -> bool {
    match msg {
        ExecuteMsg::Receive(cw20_msg) => receive_cw20_post(pre, env, info, cw20_msg, api, post, r),
        ExecuteMsg::Unstake {  } => unstake_post(pre, env, info, post, r),
    }
}

/// Handles one message. `api` is what the host makes of the addresses in
/// the message.
pub fn execute(
    state: &mut State,
    env: Env,
    info: MessageInfo,
    msg: ExecuteMsg,
    api: &Api,
) -> (r: Result<Response, ContractError>)
    requires
        old(state).wf(),
        api.wf(),
    ensures
        final(state).wf(),
        execute_post(*old(state), env, info, msg, *api, *final(state), r),
{
    match msg {
        ExecuteMsg::Receive(msg) => receive_cw20(state, env, info, msg, api),
        ExecuteMsg::Unstake {  } => unstake(state, env, info),
    }
}

/// All stakes together.
pub fn total_staked(state: &State) -> (r: Result<TotalStakedResponse, StdError>)
    ensures
        r == Ok::<TotalStakedResponse, StdError>(
            TotalStakedResponse { total_staked_amount: state.total_staked_amount },
        ),
{
    Ok(TotalStakedResponse { total_staked_amount: state.total_staked_amount })
}

/// The second at which a stake begun at `start` for `period` has run its
/// course.
pub open spec fn claim_second(start: Timestamp, period: StakingPeriod) -> int {
    (start.nanos_after_days(days_of(period)) as int) / (NANOS_PER_SECOND as int)
}

/// What [`staked`] answers for `address`: its stake, the reward the stake
/// earns and the second from which the reward is paid; all zero where the
/// address has no stake.
pub open spec fn staked_answer(state: State, address: Seq<char>) -> StakedResponse {
    match state.stake_of(address) {
        Some(s) => StakedResponse {
            staked_amount: s.staked_amount,
            pending_reward: stake_reward(s) as u128,
            claim_reward_at: claim_second(s.start_time, s.period) as u64,
        },
        None => StakedResponse { staked_amount: 0, pending_reward: 0, claim_reward_at: 0 },
    }
}

/// The stake of `address`.
pub fn staked(state: &State, address: String) -> (r: Result<StakedResponse, StdError>)
    requires
        state.wf(),
    ensures
        r == Ok::<StakedResponse, StdError>(staked_answer(*state, address@)),
{
    match state.stake.get(&address) {
        Some(info) => {
            let reward_info = tier(info.period);
            let pending_reward: u128 = reward(info.staked_amount, info.period);
            assert(reward_info.staking_days * 86_400 * 1_000_000_000 == reward_info.staking_days
                * 86_400_000_000_000) by (nonlinear_arith);
            let later: u128 = info.start_time.nanos as u128 + reward_info.staking_days as u128
                * 86_400_000_000_000u128;
            let second: u128 = later / 1_000_000_000u128;
            Ok(
                StakedResponse {
                    staked_amount: info.staked_amount,
                    pending_reward,
                    claim_reward_at: second as u64,
                },
            )
        },
        None => Ok(StakedResponse { staked_amount: 0, pending_reward: 0, claim_reward_at: 0 }),
    }
}

/// Whether `table` is the table of the three tiers: short, medium and
/// long, each with its days and its rate.
pub open spec fn is_tier_table(table: Seq<RewardInfoItem>) -> bool {
    &&& table.len() == 3
    &&& table[0].staking_period == StakingPeriod::Short
    &&& table[1].staking_period == StakingPeriod::Medium
    &&& table[2].staking_period == StakingPeriod::Long
    &&& forall|i: int|
        0 <= i < 3 ==> (#[trigger] table[i]).staking_days == days_of(table[i].staking_period)
            && table[i].reward_rate.atomics == rate_of(table[i].staking_period)
}

/// The token that rewards are paid in, and the three tiers.
pub fn reward_info(state: &State) -> (r: Result<RewardInfoResponse, StdError>)
    ensures
        r matches Ok(res) && res.token_reward == state.token_address && is_tier_table(
            res.reward_info@,
        ),
{
    Ok(
        RewardInfoResponse {
            token_reward: state.token_address.clone(),
            reward_info: [
                tier(StakingPeriod::Short),
                tier(StakingPeriod::Medium),
                tier(StakingPeriod::Long),
            ],
        },
    )
}

/// Whether the pool holds more than it has promised.
pub fn can_stake(state: &State) -> (r: Result<CanStakeResponse, StdError>)
    ensures
        r == Ok::<CanStakeResponse, StdError>(
            CanStakeResponse { can_stake: state.remaining_rewards > state.total_pending_rewards },
        ),
{
    Ok(CanStakeResponse { can_stake: state.remaining_rewards > state.total_pending_rewards })
}

/// What may still be minted as reward.
pub fn remaining_rewards(state: &State) -> (r: Result<RemainingRewardsResponse, StdError>)
    ensures
        r == Ok::<RemainingRewardsResponse, StdError>(
            RemainingRewardsResponse { remaining_rewards: state.remaining_rewards },
        ),
{
    Ok(RemainingRewardsResponse { remaining_rewards: state.remaining_rewards })
}

/// The rewards promised to the present stakes.
pub fn total_pending_rewards(state: &State) -> (r: Result<TotalPendingRewardsResponse, StdError>)
    ensures
        r == Ok::<TotalPendingRewardsResponse, StdError>(
            TotalPendingRewardsResponse { total_pending_rewards: state.total_pending_rewards },
        ),
{
    Ok(TotalPendingRewardsResponse { total_pending_rewards: state.total_pending_rewards })
}

/// Answers one query.
pub fn query(state: &State, _env: Env, msg: QueryMsg) -> (r: Result<QueryResponse, StdError>)
    requires
        state.wf(),
    ensures
        r is Ok,
        match msg {
            QueryMsg::TotalStaked {  } => r == Ok::<QueryResponse, StdError>(
                QueryResponse::TotalStaked(
                    TotalStakedResponse { total_staked_amount: state.total_staked_amount },
                ),
            ),
            QueryMsg::Staked { address } => r == Ok::<QueryResponse, StdError>(
                QueryResponse::Staked(staked_answer(*state, address@)),
            ),
            QueryMsg::RewardInfo {  } => r matches Ok(QueryResponse::RewardInfo(res))
                && res.token_reward == state.token_address && is_tier_table(res.reward_info@),
            QueryMsg::CanStake {  } => r == Ok::<QueryResponse, StdError>(
                QueryResponse::CanStake(
                    CanStakeResponse {
                        can_stake: state.remaining_rewards > state.total_pending_rewards,
                    },
                ),
            ),
            QueryMsg::RemainingRewards {  } => r == Ok::<QueryResponse, StdError>(
                QueryResponse::RemainingRewards(
                    RemainingRewardsResponse { remaining_rewards: state.remaining_rewards },
                ),
            ),
            QueryMsg::TotalPendingRewards {  } => r == Ok::<QueryResponse, StdError>(
                QueryResponse::TotalPendingRewards(
                    TotalPendingRewardsResponse {
                        total_pending_rewards: state.total_pending_rewards,
                    },
                ),
            ),
        },
{
    match msg {
        QueryMsg::TotalStaked {  } => match total_staked(state) {
            Ok(res) => Ok(QueryResponse::TotalStaked(res)),
            Err(e) => Err(e),
        },
        QueryMsg::Staked { address } => match staked(state, address) {
            Ok(res) => Ok(QueryResponse::Staked(res)),
            Err(e) => Err(e),
        },
        QueryMsg::RewardInfo {  } => match reward_info(state) {
            Ok(res) => Ok(QueryResponse::RewardInfo(res)),
            Err(e) => Err(e),
        },
        QueryMsg::CanStake {  } => match can_stake(state) {
            Ok(res) => Ok(QueryResponse::CanStake(res)),
            Err(e) => Err(e),
        },
        QueryMsg::RemainingRewards {  } => match remaining_rewards(state) {
            Ok(res) => Ok(QueryResponse::RemainingRewards(res)),
            Err(e) => Err(e),
        },
        QueryMsg::TotalPendingRewards {  } => match total_pending_rewards(state) {
            Ok(res) => Ok(QueryResponse::TotalPendingRewards(res)),
            Err(e) => Err(e),
        },
    }
}

} // verus!
