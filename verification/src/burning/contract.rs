//! The burner's entry points: set-up, message dispatch, the continuation
//! after a swap, and queries.

use crate::book::AddrMap;
use crate::burning::error::ContractError;
use crate::burning::execute::{
    add_to_reward_whitelist, add_to_reward_whitelist_post, burn, burn_error, burn_post,
    burn_succeeds, is_burn_response, actual_burn, receive_cw20, receive_cw20_post,
    remove_from_reward_whitelist, remove_from_reward_whitelist_post, set_swap_router,
    set_swap_router_post, swap_and_burn, swap_and_burn_post, update_development_config,
    update_development_config_post, update_reward_info, update_reward_info_post, Answers,
    SWAP_REPLY_ID,
};
use crate::burning::msg::{ExecuteMsg, InstantiateMsg, QueryMsg, QueryResponse};
use crate::burning::query::{
    burned_amount, development_config, lists_whitelist, owner, reward_whitelist, swap_router,
};
use crate::burning::msg::{
    BurnedAmountResponse, DevelopmentConfig, DevelopmentConfigResponse, OwnerResponse,
    SwapRouterResponse,
};
use crate::burning::state::{CachedData, State};
use crate::error::StdError;
use crate::host::{amount_of, funds_in, Api, Env, MessageInfo, Reply, Response};
use crate::math::{Decimal, DECIMAL_FRACTIONAL};
use vstd::prelude::*;

verus! {

/// Why setting the burner up is refused, if it is. The checks come in this
/// order: the owner's address, the development fee, the beneficiary's
/// address.
pub open spec fn instantiate_fault(msg: InstantiateMsg, api: Api) -> Option<ContractError> {
    if api.verdict(msg.owner@) is Some {
        Some(ContractError::StdError(api.verdict(msg.owner@).unwrap()))
    } else if msg.development_config.fee_ratio.atomics >= DECIMAL_FRACTIONAL {
        Some(ContractError::FeeRatioMustBeLessThanOne {})
    } else if api.verdict(msg.development_config.beneficiary@) is Some {
        Some(ContractError::StdError(api.verdict(msg.development_config.beneficiary@).unwrap()))
    } else {
        None
    }
}

/// Sets the burner up: nothing burned, nothing whitelisted, no router, the
/// lock free. Refuses a development fee of one or more, and addresses the
/// host does not accept.
pub fn instantiate(env: Env, _info: MessageInfo, msg: InstantiateMsg, api: &Api) -> (r: Result<
    State,
    ContractError,
>)
    requires
        api.wf(),
    ensures
        r is Ok <==> instantiate_fault(msg, *api) is None,
        match r {
            Ok(state) => {
                &&& state.wf()
                &&& state.reward_whitelist.model() == Map::<Seq<char>, Decimal>::empty()
                &&& state == State {
                    owner: msg.owner,
                    reward_whitelist: state.reward_whitelist,
                    burned_amount: 0,
                    development_fee_ratio: msg.development_config.fee_ratio,
                    development_fee_beneficiary: msg.development_config.beneficiary,
                    swap_router: None,
                    cache: CachedData { locked: false, burner: env.contract.address },
                }
            },
            Err(e) => Some(e) == instantiate_fault(msg, *api),
        },
{
    match api.addr_validate(&msg.owner) {
        Ok(_) => {},
        Err(e) => {
            return Err(ContractError::StdError(e));
        },
    }
    let fee_ratio = msg.development_config.fee_ratio;
    if fee_ratio.atomics >= DECIMAL_FRACTIONAL {
        return Err(ContractError::FeeRatioMustBeLessThanOne {});
    }
    match api.addr_validate(&msg.development_config.beneficiary) {
        Ok(_) => {},
        Err(e) => {
            return Err(ContractError::StdError(e));
        },
    }
    Ok(
        State {
            owner: msg.owner,
            reward_whitelist: AddrMap::new(),
            burned_amount: 0,
            development_fee_ratio: fee_ratio,
            development_fee_beneficiary: msg.development_config.beneficiary,
            swap_router: None,
            cache: CachedData { locked: false, burner: env.contract.address },
        },
    )
}

/// What [`execute`] guarantees: for each kind of message, what the handler
/// of that kind guarantees. A plain burn burns the first `uluna` coin that
/// came with the message, for the sender.
pub open spec fn execute_post(
    pre: State,
    info: MessageInfo,
    msg: ExecuteMsg,
    held: Map<Seq<char>, Result<u128, StdError>>,
    api: Api,
    post: State,
    r: Result<Response, ContractError>,
) -> bool {
    match msg {
        ExecuteMsg::UpdateDevelopmentConfig { fee_ratio, beneficiary } => {
            update_development_config_post(pre, info, fee_ratio, beneficiary, api, post, r)
        },
        ExecuteMsg::AddToRewardWhitelist { reward_info } => add_to_reward_whitelist_post(
            pre,
            info,
            reward_info,
            api,
            post,
            r,
        ),
        ExecuteMsg::RemoveFromRewardWhitelist { token } => remove_from_reward_whitelist_post(
            pre,
            info,
            token,
            api,
            post,
            r,
        ),
        ExecuteMsg::UpdateRewardInfo { reward_info } => update_reward_info_post(
            pre,
            info,
            reward_info,
            api,
            post,
            r,
        ),
        ExecuteMsg::Burn {  } => burn_post(
            pre,
            info.sender@,
            amount_of(info.funds@, "uluna"@),
            held,
            post,
            r,
        ),
        ExecuteMsg::SetSwapRouter { router } => set_swap_router_post(
            pre,
            info,
            router,
            api,
            post,
            r,
        ),
        ExecuteMsg::SwapAndBurn { denom, swap_paths } => swap_and_burn_post(
            pre,
            info,
            denom,
            swap_paths,
            post,
            r,
        ),
        ExecuteMsg::Receive(cw20_msg) => receive_cw20_post(pre, info, cw20_msg, api, post, r),
    }
}

/// Handles one message. `held` is what the reward tokens answered when
/// asked for the burner's balances; only a burn reads it. `api` is what the
/// host makes of the addresses in the message.
pub fn execute(
    state: &mut State,
    env: Env,
    info: MessageInfo,
    msg: ExecuteMsg,
    held: &Answers,
    api: &Api,
) -> (r: Result<Response, ContractError>)
    requires
        old(state).wf(),
        held.wf(),
        api.wf(),
    ensures
        final(state).wf(),
        execute_post(*old(state), info, msg, held.model(), *api, *final(state), r),
{
    match msg {
        ExecuteMsg::UpdateDevelopmentConfig { fee_ratio, beneficiary } => {
            update_development_config(state, env, info, fee_ratio, beneficiary, api)
        },
        ExecuteMsg::AddToRewardWhitelist { reward_info } => {
            add_to_reward_whitelist(state, env, info, reward_info, api)
        },
        ExecuteMsg::RemoveFromRewardWhitelist { token } => {
            remove_from_reward_whitelist(state, env, info, token, api)
        },
        ExecuteMsg::UpdateRewardInfo { reward_info } => {
            update_reward_info(state, env, info, reward_info, api)
        },
        ExecuteMsg::Burn {  } => {
            let uluna = "uluna".to_owned();
            let burn_amount: u128 = funds_in(&info.funds, &uluna);
            burn(state, info.sender, burn_amount, held)
        },
        ExecuteMsg::SetSwapRouter { router } => set_swap_router(state, env, info, router, api),
        ExecuteMsg::SwapAndBurn { denom, swap_paths } => {
            swap_and_burn(state, env, info, denom, swap_paths)
        },
        ExecuteMsg::Receive(cw20_msg) => receive_cw20(state, env, info, cw20_msg, api),
    }
}

/// What [`reply`] guarantees. A continuation with a foreign tag, or one
/// that arrives while no settlement is in flight, is refused; otherwise the
/// balance found is burned for the actor the lock recorded, and the lock is
/// released if the burn goes through. A refusal changes nothing.
pub open spec fn reply_post(
    pre: State,
    msg: Reply,
    balance: u128,
    held: Map<Seq<char>, Result<u128, StdError>>,
    post: State,
    r: Result<Response, ContractError>,
) -> bool {
    if msg.id != SWAP_REPLY_ID {
        post == pre && r == Err::<Response, ContractError>(ContractError::InvalidReplyMsg {})
    } else if !pre.cache.locked {
        post == pre && r == Err::<Response, ContractError>(ContractError::AlreadyUnlocked {})
    } else {
        &&& r is Ok <==> burn_succeeds(pre, balance, held)
        &&& match r {
            Ok(res) => {
                &&& post == State {
                    burned_amount: (pre.burned_amount + actual_burn(
                        pre.development_fee_ratio,
                        balance,
                    )) as u128,
                    cache: CachedData { locked: false, burner: pre.cache.burner },
                    ..pre
                }
                &&& is_burn_response(res, pre, balance, held, pre.cache.burner@)
            },
            Err(e) => post == pre && burn_error(pre, balance, held, e),
        }
    }
}

/// Completes a settlement after the swap it began with has succeeded.
/// `balance` is what the burner holds of the native coin now, which is what
/// the swap brought in; `held` is as for [`execute`].
pub fn reply(state: &mut State, _env: Env, msg: Reply, balance: u128, held: &Answers) -> (r: Result<
    Response,
    ContractError,
>)
    requires
        old(state).wf(),
        held.wf(),
    ensures
        final(state).wf(),
        reply_post(*old(state), msg, balance, held.model(), *final(state), r),
{
    if msg.id != SWAP_REPLY_ID {
        return Err(ContractError::InvalidReplyMsg {});
    }
    if !state.cache.locked {
        return Err(ContractError::AlreadyUnlocked {});
    }
    let burner = state.cache.burner.clone();
    match burn(state, burner, balance, held) {
        Ok(res) => match state.cache.complete() {
            Ok(_) => Ok(res),
            Err(e) => Err(e),
        },
        Err(e) => Err(e),
    }
}

/// What [`query`] guarantees: the answer to the question asked, from the
/// state as it stands.
pub open spec fn query_post(state: State, msg: QueryMsg, r: Result<QueryResponse, StdError>) -> bool {
    r matches Ok(res) && match msg {
        QueryMsg::Owner {  } => res == QueryResponse::Owner(OwnerResponse { owner: state.owner }),
        QueryMsg::DevelopmentConfig {  } => res == QueryResponse::DevelopmentConfig(
            DevelopmentConfigResponse(
                DevelopmentConfig {
                    beneficiary: state.development_fee_beneficiary,
                    fee_ratio: state.development_fee_ratio,
                },
            ),
        ),
        QueryMsg::RewardWhitelist {  } => res matches QueryResponse::RewardWhitelist(w)
            && lists_whitelist(w.reward_whitelist@, state.reward_whitelist.entries()),
        QueryMsg::BurnedAmount {  } => res == QueryResponse::BurnedAmount(
            BurnedAmountResponse { burned_amount: state.burned_amount },
        ),
        QueryMsg::SwapRouter {  } => res == QueryResponse::SwapRouter(
            SwapRouterResponse { swap_router: state.swap_router },
        ),
    }
}

/// Answers one query.
pub fn query(state: &State, _env: Env, msg: QueryMsg) -> (r: Result<QueryResponse, StdError>)
    requires
        state.wf(),
    ensures
        query_post(*state, msg, r),
{
    match msg {
        QueryMsg::Owner {  } => match owner(state) {
            Ok(res) => Ok(QueryResponse::Owner(res)),
            Err(e) => Err(e),
        },
        QueryMsg::DevelopmentConfig {  } => match development_config(state) {
            Ok(res) => Ok(QueryResponse::DevelopmentConfig(res)),
            Err(e) => Err(e),
        },
        QueryMsg::RewardWhitelist {  } => match reward_whitelist(state) {
            Ok(res) => Ok(QueryResponse::RewardWhitelist(res)),
            Err(e) => Err(e),
        },
        QueryMsg::BurnedAmount {  } => match burned_amount(state) {
            Ok(res) => Ok(QueryResponse::BurnedAmount(res)),
            Err(e) => Err(e),
        },
        QueryMsg::SwapRouter {  } => match swap_router(state) {
            Ok(res) => Ok(QueryResponse::SwapRouter(res)),
            Err(e) => Err(e),
        },
    }
}

} // verus!
