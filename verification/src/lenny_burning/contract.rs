//! The token burner's entry points and handlers.

use crate::book::AddrMap;
use crate::error::StdError;
use crate::host::{
    first_of, Api, attr, cw20_burn, cw20_transfer, Attribute, Cw20ReceiveMsg, Env, MessageInfo, Response, SubMsg,
};
use crate::lenny_burning::error::ContractError;
use crate::lenny_burning::msg::{
    BurnLimit, BurnLimitResponse, BurnedAmountResponse, BurnedToday, BurnedTodayByAddressResponse,
    Cw20HookMsg, ExecuteMsg, InstantiateMsg, OwnerResponse, QueryMsg, QueryResponse,
    RewardAddressResponse, RewardInfo, RewardInfoResponse, TotalBurnedTodayResponse,
};
use crate::lenny_burning::state::State;
use crate::lenny_burning::window::{counted, is_expired, roll, rolled};
use crate::math::{
    amount_to_string, checked_mul_decimal, decimal_share, shows_amount, Decimal,
    DECIMAL_FRACTIONAL,
};
use vstd::prelude::*;

verus! {

/// Sets the burner up: nothing burned, the overall window empty and
/// beginning now. Refuses an owner or a reward address that the host does
/// not accept.
pub fn instantiate(env: Env, _info: MessageInfo, msg: InstantiateMsg, api: &Api) -> (r: Result<
    State,
    ContractError,
>)
    requires
        api.wf(),
    ensures
        first_of(api.verdict(msg.owner@), api.verdict(msg.reward_address@)) matches Some(e) ==> r
            == Err::<State, ContractError>(ContractError::StdError(e)),
        first_of(api.verdict(msg.owner@), api.verdict(msg.reward_address@)) is None ==> (
        r matches Ok(state) && {
            &&& state.wf()
            &&& state.burned_today_by_address.model() == Map::<Seq<char>, BurnedToday>::empty()
            &&& state == State {
                owner: msg.owner,
                reward_address: msg.reward_address,
                reward_info: msg.reward_info,
                burned_amount: 0,
                burn_limit: msg.burn_limit,
                total_burned_today: BurnedToday {
                    amount: 0,
                    latest_burned: env.block.time.seconds(),
                },
                burned_today_by_address: state.burned_today_by_address,
            }
        }),
{
    match api.addr_validate(&msg.owner) {
        Ok(_) => {},
        Err(e) => {
            return Err(ContractError::StdError(e));
        },
    }
    match api.addr_validate(&msg.reward_address) {
        Ok(_) => {},
        Err(e) => {
            return Err(ContractError::StdError(e));
        },
    }
    Ok(
        State {
            owner: msg.owner,
            reward_address: msg.reward_address,
            reward_info: msg.reward_info,
            burned_amount: 0,
            burn_limit: msg.burn_limit,
            total_burned_today: BurnedToday { amount: 0, latest_burned: env.block.time.seconds() },
            burned_today_by_address: AddrMap::new(),
        },
    )
}

/// What [`update_owner`] guarantees. The new owner's address is looked at
/// before the sender is.
pub open spec fn update_owner_post(
    pre: State,
    info: MessageInfo,
    owner: String,
    api: Api,
    post: State,
    r: Result<Response, ContractError>,
) -> bool {
    if api.verdict(owner@) is Some {
        post == pre && r == Err::<Response, ContractError>(
            ContractError::StdError(api.verdict(owner@).unwrap()),
        )
    } else if pre.owner@ != info.sender@ {
        post == pre && r == Err::<Response, ContractError>(ContractError::Unauthorized {})
    } else {
        post == State { owner, ..pre } && (r matches Ok(res) && res.is_empty())
    }
}

/// Hands the burner to a new owner. Only the owner may.
pub fn update_owner(
    state: &mut State,
    _env: Env,
    info: MessageInfo,
    owner: String,
    api: &Api,
) -> (r: Result<Response, ContractError>)
    requires
        old(state).wf(),
        api.wf(),
    ensures
        final(state).wf(),
        update_owner_post(*old(state), info, owner, *api, *final(state), r),
{
    match api.addr_validate(&owner) {
        Ok(_) => {},
        Err(e) => {
            return Err(ContractError::StdError(e));
        },
    }
    if state.owner != info.sender {
        return Err(ContractError::Unauthorized {});
    }
    state.owner = owner;
    Ok(Response::default())
}

/// What [`update_reward_address`] guarantees.
pub open spec fn update_reward_address_post(
    pre: State,
    info: MessageInfo,
    address: String,
    api: Api,
    post: State,
    r: Result<Response, ContractError>,
) -> bool {
    if pre.owner@ != info.sender@ {
        post == pre && r == Err::<Response, ContractError>(ContractError::Unauthorized {})
    } else if api.verdict(address@) is Some {
        post == pre && r == Err::<Response, ContractError>(
            ContractError::StdError(api.verdict(address@).unwrap()),
        )
    } else {
        post == State { reward_address: address, ..pre } && (r matches Ok(res) && res.is_empty())
    }
}

/// Names another address to receive the reward share. Only the owner may.
pub fn update_reward_address(
    state: &mut State,
    _env: Env,
    info: MessageInfo,
    address: String,
    api: &Api,
) -> (r: Result<Response, ContractError>)
    requires
        old(state).wf(),
        api.wf(),
    ensures
        final(state).wf(),
        update_reward_address_post(*old(state), info, address, *api, *final(state), r),
{
    if state.owner != info.sender {
        return Err(ContractError::Unauthorized {});
    }
    match api.addr_validate(&address) {
        Ok(_) => {},
        Err(e) => {
            return Err(ContractError::StdError(e));
        },
    }
    state.reward_address = address;
    Ok(Response::default())
}

/// Why a ratio is refused, if it is: zero, or more than one.
pub open spec fn ratio_fault(ratio: Option<Decimal>) -> Option<ContractError> {
    match ratio {
        Some(d) => if d.atomics == 0 {
            Some(ContractError::ZeroAmount {})
        } else if d.atomics > DECIMAL_FRACTIONAL {
            Some(ContractError::RatioMustBeLessThanOne {})
        } else {
            None
        },
        None => None,
    }
}

/// What [`update_reward_info`] guarantees. The reward ratio is looked at
/// first, then the refund ratio.
pub open spec fn update_reward_info_post(
    pre: State,
    info: MessageInfo,
    reward_ratio: Option<Decimal>,
    refund_ratio: Option<Decimal>,
    post: State,
    r: Result<Response, ContractError>,
) -> bool {
    if pre.owner@ != info.sender@ {
        post == pre && r == Err::<Response, ContractError>(ContractError::Unauthorized {})
    } else if ratio_fault(reward_ratio) is Some {
        post == pre && r == Err::<Response, ContractError>(ratio_fault(reward_ratio).unwrap())
    } else if ratio_fault(refund_ratio) is Some {
        post == pre && r == Err::<Response, ContractError>(ratio_fault(refund_ratio).unwrap())
    } else {
        &&& post == State {
            reward_info: RewardInfo {
                reward_ratio: match reward_ratio {
                    Some(d) => d,
                    None => pre.reward_info.reward_ratio,
                },
                refund_ratio: match refund_ratio {
                    Some(d) => d,
                    None => pre.reward_info.refund_ratio,
                },
            },
            ..pre
        }
        &&& r matches Ok(res) && res.is_empty()
    }
}

/// Changes the reward ratio, the refund ratio, or both. Only the owner
/// may; a ratio must be above zero and at most one.
pub fn update_reward_info(
    state: &mut State,
    _env: Env,
    info: MessageInfo,
    reward_ratio: Option<Decimal>,
    refund_ratio: Option<Decimal>,
) -> (r: Result<Response, ContractError>)
    requires
        old(state).wf(),
    ensures
        final(state).wf(),
        update_reward_info_post(*old(state), info, reward_ratio, refund_ratio, *final(state), r),
{
    if state.owner != info.sender {
        return Err(ContractError::Unauthorized {});
    }
    let mut reward_info = state.reward_info;
    match reward_ratio {
        Some(reward_ratio) => {
            if reward_ratio.is_zero() {
                return Err(ContractError::ZeroAmount {});
            }
            if reward_ratio.atomics > DECIMAL_FRACTIONAL {
                return Err(ContractError::RatioMustBeLessThanOne {});
            }
            reward_info.reward_ratio = reward_ratio;
        },
        None => {},
    }
    match refund_ratio {
        Some(refund_ratio) => {
            if refund_ratio.is_zero() {
                return Err(ContractError::ZeroAmount {});
            }
            if refund_ratio.atomics > DECIMAL_FRACTIONAL {
                return Err(ContractError::RatioMustBeLessThanOne {});
            }
            reward_info.refund_ratio = refund_ratio;
        },
        None => {},
    }
    state.reward_info = reward_info;
    Ok(Response::default())
}

/// What [`update_burn_limit`] guarantees.
pub open spec fn update_burn_limit_post(
    pre: State,
    info: MessageInfo,
    total: Option<u128>,
    per_address: Option<u128>,
    duration: Option<u64>,
    post: State,
    r: Result<Response, ContractError>,
) -> bool {
    if pre.owner@ != info.sender@ {
        post == pre && r == Err::<Response, ContractError>(ContractError::Unauthorized {})
    } else if total == Some(0u128) || per_address == Some(0u128) || duration == Some(0u64) {
        post == pre && r == Err::<Response, ContractError>(ContractError::ZeroAmount {})
    } else {
        &&& post == State {
            burn_limit: BurnLimit {
                total: match total {
                    Some(t) => t,
                    None => pre.burn_limit.total,
                },
                per_address: match per_address {
                    Some(p) => p,
                    None => pre.burn_limit.per_address,
                },
                duration: match duration {
                    Some(d) => d,
                    None => pre.burn_limit.duration,
                },
            },
            ..pre
        }
        &&& r matches Ok(res) && res.is_empty()
    }
}

/// Changes the overall limit, the limit per address, the length of the
/// window, or any of them together. Only the owner may; none may be zero.
pub fn update_burn_limit(
    state: &mut State,
    _env: Env,
    info: MessageInfo,
    total: Option<u128>,
    per_address: Option<u128>,
    duration: Option<u64>,
) -> (r: Result<Response, ContractError>)
    requires
        old(state).wf(),
    ensures
        final(state).wf(),
        update_burn_limit_post(*old(state), info, total, per_address, duration, *final(state), r),
{
    if state.owner != info.sender {
        return Err(ContractError::Unauthorized {});
    }
    let mut burn_limit = state.burn_limit;
    match total {
        Some(total) => {
            if total == 0 {
                return Err(ContractError::ZeroAmount {});
            }
            burn_limit.total = total;
        },
        None => {},
    }
    match per_address {
        Some(per_address) => {
            if per_address == 0 {
                return Err(ContractError::ZeroAmount {});
            }
            burn_limit.per_address = per_address;
        },
        None => {},
    }
    match duration {
        Some(duration) => {
            if duration == 0 {
                return Err(ContractError::ZeroAmount {});
            }
            burn_limit.duration = duration;
        },
        None => {},
    }
    state.burn_limit = burn_limit;
    Ok(Response::default())
}

/// The refund on a burn of `amount`: the refund share, capped at what the
/// burner holds.
pub open spec fn refund_paid(info: RewardInfo, amount: u128, held: u128) -> int {
    let due = decimal_share(amount, info.refund_ratio);
    if held < due {
        held as int
    } else {
        due
    }
}

/// The reward on a burn of `amount`: the reward share, capped at what the
/// burner holds once the refund is set aside. The refund comes first.
pub open spec fn reward_paid(info: RewardInfo, amount: u128, held: u128) -> int {
    let due = decimal_share(amount, info.reward_ratio);
    let left = held - refund_paid(info, amount, held);
    if left < due {
        left
    } else {
        due
    }
}

/// Whether a burn of `amount` by `burner` at the second `now` stays within
/// both windows.
pub open spec fn within_limits(pre: State, burner: Seq<char>, amount: u128, now: u64) -> bool {
    &&& rolled(
        pre.total_burned_today,
        pre.burn_limit.total,
        pre.burn_limit.duration,
        amount,
        now,
    ) is Some
    &&& rolled(
        pre.window_of(burner, now),
        pre.burn_limit.per_address,
        pre.burn_limit.duration,
        amount,
        now,
    ) is Some
}

/// Whether both shares of `amount` fit in 128 bits.
pub open spec fn shares_fit(info: RewardInfo, amount: u128) -> bool {
    decimal_share(amount, info.refund_ratio) <= u128::MAX && decimal_share(
        amount,
        info.reward_ratio,
    ) <= u128::MAX
}

/// What [`burn`] guarantees. The checks come in this order: the amount, the
/// range of the shares, the two windows, the range of the running figure,
/// the balance answer. A refusal changes nothing. Otherwise both windows
/// have taken the burn in, the running figure has been added to itself,
/// and the response burns the amount, refunds the burner and rewards the
/// reward address, each of the two only where something is paid.
pub open spec fn burn_post(
    pre: State,
    env: Env,
    token: Seq<char>,
    burner: Seq<char>,
    amount: u128,
    held: Result<u128, StdError>,
    post: State,
    r: Result<Response, ContractError>,
) -> bool {
    let now = env.block.time.seconds();
    if amount == 0 {
        post == pre && r == Err::<Response, ContractError>(ContractError::ZeroAmount {})
    } else if !shares_fit(pre.reward_info, amount) {
        post == pre && (r matches Err(e) && e.is_overflow())
    } else if !within_limits(pre, burner, amount, now) {
        post == pre && r == Err::<Response, ContractError>(ContractError::ExceedBurnLimit {})
    } else if pre.burned_amount + pre.burned_amount > u128::MAX {
        post == pre && (r matches Err(e) && e.is_overflow())
    } else if held is Err {
        held matches Err(e) && post == pre && r == Err::<Response, ContractError>(
            ContractError::StdError(e),
        )
    } else {
        let refund = refund_paid(pre.reward_info, amount, held.unwrap()) as u128;
        let reward = reward_paid(pre.reward_info, amount, held.unwrap()) as u128;
        let r1: int = if refund != 0 {
            1
        } else {
            0
        };
        let r2: int = if reward != 0 {
            1
        } else {
            0
        };
        &&& post == State {
            total_burned_today: rolled(
                pre.total_burned_today,
                pre.burn_limit.total,
                pre.burn_limit.duration,
                amount,
                now,
            ).unwrap(),
            burned_amount: (pre.burned_amount + pre.burned_amount) as u128,
            burned_today_by_address: post.burned_today_by_address,
            ..pre
        }
        &&& post.burned_today_by_address.model() == pre.burned_today_by_address.model().insert(
            burner,
            rolled(
                pre.window_of(burner, now),
                pre.burn_limit.per_address,
                pre.burn_limit.duration,
                amount,
                now,
            ).unwrap(),
        )
        &&& r matches Ok(res) && {
            &&& res.messages@.len() == 1 + r1 + r2
            &&& forall|k: int|
                0 <= k < res.messages@.len() ==> (#[trigger] res.messages@[k]).is_plain()
            &&& res.messages@[0].msg.is_cw20_burn(token, amount)
            &&& refund != 0 ==> res.messages@[1].msg.is_cw20_transfer(token, burner, refund)
            &&& reward != 0 ==> res.messages@[1 + r1].msg.is_cw20_transfer(
                token,
                pre.reward_address@,
                reward,
            )
            &&& res.attributes@.len() == 3
            &&& res.attributes@[0]@ == ("action"@, "burn"@)
            &&& res.attributes@[1]@ == ("burner"@, burner)
            &&& res.attributes@[2].key@ == "burn_amount"@
            &&& shows_amount(res.attributes@[2].value, amount)
        }
    }
}

/// Burns `amount` of the token at `token` for `burner`. `held` is what the
/// token answered when asked what the burner contract holds of it.
pub fn burn(
    state: &mut State,
    env: Env,
    token: String,
    burner: String,
    amount: u128,
    held: Result<u128, StdError>,
) -> (r: Result<Response, ContractError>)
    requires
        old(state).wf(),
    ensures
        final(state).wf(),
        burn_post(*old(state), env, token@, burner@, amount, held, *final(state), r),
{
    if amount == 0 {
        return Err(ContractError::ZeroAmount {});
    }
    let reward_info = state.reward_info;
    let burn_limit = state.burn_limit;
    let mut refund_amount: u128 = match checked_mul_decimal(amount, reward_info.refund_ratio) {
        Some(a) => a,
        None => {
            return Err(ContractError::StdError(StdError::overflow()));
        },
    };
    let mut reward_amount: u128 = match checked_mul_decimal(amount, reward_info.reward_ratio) {
        Some(a) => a,
        None => {
            return Err(ContractError::StdError(StdError::overflow()));
        },
    };
    let now: u64 = env.block.time.seconds();
    let addr_burned_today = match state.burned_today_by_address.get(&burner) {
        Some(burned_today) => *burned_today,
        None => BurnedToday { amount: 0, latest_burned: now },
    };
    let total_burned_today = match roll(
        &state.total_burned_today,
        burn_limit.total,
        burn_limit.duration,
        amount,
        now,
    ) {
        Some(w) => w,
        None => {
            return Err(ContractError::ExceedBurnLimit {});
        },
    };
    let addr_burned_today = match roll(
        &addr_burned_today,
        burn_limit.per_address,
        burn_limit.duration,
        amount,
        now,
    ) {
        Some(w) => w,
        None => {
            return Err(ContractError::ExceedBurnLimit {});
        },
    };
    let burned_amount: u128 = match state.burned_amount.checked_add(state.burned_amount) {
        Some(b) => b,
        None => {
            return Err(ContractError::StdError(StdError::overflow()));
        },
    };
    let mut reward_token_balance: u128 = match held {
        Ok(b) => b,
        Err(e) => {
            return Err(ContractError::StdError(e));
        },
    };
    state.burned_today_by_address.insert(burner.clone(), addr_burned_today);
    state.total_burned_today = total_burned_today;
    state.burned_amount = burned_amount;

    if reward_token_balance < refund_amount {
        refund_amount = reward_token_balance;
        reward_token_balance = 0;
    } else {
        reward_token_balance = reward_token_balance - refund_amount;
    }
    if reward_token_balance < reward_amount {
        reward_amount = reward_token_balance;
    }
    let mut messages: Vec<SubMsg> = Vec::new();
    messages.push(SubMsg::new(cw20_burn(&token, amount)));
    if refund_amount != 0 {
        messages.push(SubMsg::new(cw20_transfer(&token, &burner, refund_amount)));
    }
    if reward_amount != 0 {
        messages.push(SubMsg::new(cw20_transfer(&token, &state.reward_address, reward_amount)));
    }
    let mut attributes: Vec<Attribute> = Vec::new();
    attributes.push(attr("action", "burn".to_owned()));
    attributes.push(attr("burner", burner));
    attributes.push(attr("burn_amount", amount_to_string(amount)));
    Ok(Response { messages, attributes })
}

/// What [`receive_cw20`] guarantees: an unreadable hook message is
/// refused, and so is a sender whose address the host does not accept; a
/// burn request is handled as [`burn`] handles it, for the token that calls
/// and the address that sent the tokens.
pub open spec fn receive_cw20_post(
    pre: State,
    env: Env,
    info: MessageInfo,
    cw20_msg: Cw20ReceiveMsg<Cw20HookMsg>,
    held: Result<u128, StdError>,
    api: Api,
    post: State,
    r: Result<Response, ContractError>,
) -> bool {
    match cw20_msg.msg {
        Err(e) => post == pre && r == Err::<Response, ContractError>(ContractError::StdError(e)),
        Ok(Cw20HookMsg::Burn {  }) => if api.verdict(cw20_msg.sender@) is Some {
            post == pre && r == Err::<Response, ContractError>(
                ContractError::StdError(api.verdict(cw20_msg.sender@).unwrap()),
            )
        } else {
            burn_post(
            pre,
            env,
            info.sender@,
            cw20_msg.sender@,
            cw20_msg.amount,
            held,
            post,
            r,
        )
        },
    }
}

/// Takes tokens in to be burned.
pub fn receive_cw20(
    state: &mut State,
    env: Env,
    info: MessageInfo,
    cw20_msg: Cw20ReceiveMsg<Cw20HookMsg>,
    held: Result<u128, StdError>,
    api: &Api,
) -> (r: Result<Response, ContractError>)
    requires
        old(state).wf(),
        api.wf(),
    ensures
        final(state).wf(),
        receive_cw20_post(*old(state), env, info, cw20_msg, held, *api, *final(state), r),
{
    match cw20_msg.msg {
        Ok(Cw20HookMsg::Burn {  }) => {
            match api.addr_validate(&cw20_msg.sender) {
                Ok(_) => {},
                Err(e) => {
                    return Err(ContractError::StdError(e));
                },
            }
            burn(state, env, info.sender, cw20_msg.sender, cw20_msg.amount, held)
        },
        Err(err) => Err(ContractError::StdError(err)),
    }
}

/// What [`execute`] guarantees: for each kind of message, what the handler
/// of that kind guarantees.
pub open spec fn execute_post(
    pre: State,
    env: Env,
    info: MessageInfo,
    msg: ExecuteMsg,
    held: Result<u128, StdError>,
    api: Api,
    post: State,
    r: Result<Response, ContractError>,
) -> bool {
    match msg {
        ExecuteMsg::UpdateOwner { owner } => update_owner_post(pre, info, owner, api, post, r),
        ExecuteMsg::UpdateRewardAddress { address } => update_reward_address_post(
            pre,
            info,
            address,
            api,
            post,
            r,
        ),
        ExecuteMsg::UpdateRewardInfo { reward_ratio, refund_ratio } => update_reward_info_post(
            pre,
            info,
            reward_ratio,
            refund_ratio,
            post,
            r,
        ),
        ExecuteMsg::UpdateBurnLimit { total, per_address, duration } => update_burn_limit_post(
            pre,
            info,
            total,
            per_address,
            duration,
            post,
            r,
        ),
        ExecuteMsg::Receive(cw20_msg) => receive_cw20_post(
            pre,
            env,
            info,
            cw20_msg,
            held,
            api,
            post,
            r,
        ),
    }
}

/// Handles one message. `held` is what the calling token answered when
/// asked what the burner holds of it; only a burn reads it. `api` is what
/// the host makes of the addresses in the message.
pub fn execute(
    state: &mut State,
    env: Env,
    info: MessageInfo,
    msg: ExecuteMsg,
    held: Result<u128, StdError>,
    api: &Api,
) -> (r: Result<Response, ContractError>)
    requires
        old(state).wf(),
        api.wf(),
    ensures
        final(state).wf(),
        execute_post(*old(state), env, info, msg, held, *api, *final(state), r),
{
    match msg {
        ExecuteMsg::UpdateOwner { owner } => update_owner(state, env, info, owner, api),
        ExecuteMsg::UpdateRewardAddress { address } => update_reward_address(
            state,
            env,
            info,
            address,
            api,
        ),
        ExecuteMsg::UpdateRewardInfo { reward_ratio, refund_ratio } => update_reward_info(
            state,
            env,
            info,
            reward_ratio,
            refund_ratio,
        ),
        ExecuteMsg::UpdateBurnLimit { total, per_address, duration } => update_burn_limit(
            state,
            env,
            info,
            total,
            per_address,
            duration,
        ),
        ExecuteMsg::Receive(cw20_msg) => receive_cw20(state, env, info, cw20_msg, held, api),
    }
}

/// Who owns the burner.
pub fn owner(state: &State) -> (r: Result<OwnerResponse, StdError>)
    ensures
        r == Ok::<OwnerResponse, StdError>(OwnerResponse { owner: state.owner }),
{
    Ok(OwnerResponse { owner: state.owner.clone() })
}

/// Who receives the reward share.
pub fn reward_address(state: &State) -> (r: Result<RewardAddressResponse, StdError>)
    ensures
        r == Ok::<RewardAddressResponse, StdError>(
            RewardAddressResponse { address: state.reward_address },
        ),
{
    Ok(RewardAddressResponse { address: state.reward_address.clone() })
}

/// The refund and reward shares.
pub fn reward_info(state: &State) -> (r: Result<RewardInfoResponse, StdError>)
    ensures
        r == Ok::<RewardInfoResponse, StdError>(RewardInfoResponse(state.reward_info)),
{
    Ok(RewardInfoResponse(state.reward_info))
}

/// The limits and the length of a window.
pub fn burn_limit(state: &State) -> (r: Result<BurnLimitResponse, StdError>)
    ensures
        r == Ok::<BurnLimitResponse, StdError>(BurnLimitResponse(state.burn_limit)),
{
    Ok(BurnLimitResponse(state.burn_limit))
}

/// What counts as burned overall in the present window.
pub fn total_burned_today(state: &State, env: Env) -> (r: Result<
    TotalBurnedTodayResponse,
    StdError,
>)
    ensures
        r == Ok::<TotalBurnedTodayResponse, StdError>(
            TotalBurnedTodayResponse {
                amount: counted(
                    state.total_burned_today,
                    state.burn_limit.duration,
                    env.block.time.seconds(),
                ),
            },
        ),
{
    let mut amount: u128 = state.total_burned_today.amount;
    if is_expired(&state.total_burned_today, state.burn_limit.duration, env.block.time.seconds()) {
        amount = 0;
    }
    Ok(TotalBurnedTodayResponse { amount })
}

/// What [`burned_today_by_address`] answers for `address` at the second
/// `now`.
pub open spec fn burned_today_answer(state: State, address: Seq<char>, now: u64) -> u128 {
    counted(state.window_of(address, now), state.burn_limit.duration, now)
}

/// What counts as burned by `address` in its present window.
pub fn burned_today_by_address(state: &State, env: Env, address: String, api: &Api) -> (r: Result<
    BurnedTodayByAddressResponse,
    StdError,
>)
    requires
        state.wf(),
        api.wf(),
    ensures
        r == match api.verdict(address@) {
            Some(e) => Err::<BurnedTodayByAddressResponse, StdError>(e),
            None => Ok::<BurnedTodayByAddressResponse, StdError>(
                BurnedTodayByAddressResponse {
                    amount: burned_today_answer(*state, address@, env.block.time.seconds()),
                },
            ),
        },
{
    match api.addr_validate(&address) {
        Ok(_) => {},
        Err(e) => {
            return Err(e);
        },
    }
    let now: u64 = env.block.time.seconds();
    let mut amount: u128 = 0;
    match state.burned_today_by_address.get(&address) {
        Some(burned_today) => {
            if !is_expired(burned_today, state.burn_limit.duration, now) {
                amount = burned_today.amount;
            }
        },
        None => {},
    }
    Ok(BurnedTodayByAddressResponse { amount })
}

/// The running figure reported as burned.
pub fn burned_amount(state: &State) -> (r: Result<BurnedAmountResponse, StdError>)
    ensures
        r == Ok::<BurnedAmountResponse, StdError>(
            BurnedAmountResponse { burned_amount: state.burned_amount },
        ),
{
    Ok(BurnedAmountResponse { burned_amount: state.burned_amount })
}

/// What [`query`] answers where the question is not refused.
pub open spec fn query_answer(state: State, env: Env, msg: QueryMsg) -> QueryResponse {
    match msg {
        QueryMsg::Owner {  } => QueryResponse::Owner(OwnerResponse { owner: state.owner }),
        QueryMsg::RewardAddress {  } => QueryResponse::RewardAddress(
            RewardAddressResponse { address: state.reward_address },
        ),
        QueryMsg::RewardInfo {  } => QueryResponse::RewardInfo(
            RewardInfoResponse(state.reward_info),
        ),
        QueryMsg::BurnLimit {  } => QueryResponse::BurnLimit(
            BurnLimitResponse(state.burn_limit),
        ),
        QueryMsg::TotalBurnedToday {  } => QueryResponse::TotalBurnedToday(
            TotalBurnedTodayResponse {
                amount: counted(
                    state.total_burned_today,
                    state.burn_limit.duration,
                    env.block.time.seconds(),
                ),
            },
        ),
        QueryMsg::BurnedTodayByAddress { address } => QueryResponse::BurnedTodayByAddress(
            BurnedTodayByAddressResponse {
                amount: burned_today_answer(state, address@, env.block.time.seconds()),
            },
        ),
        QueryMsg::BurnedAmount {  } => QueryResponse::BurnedAmount(
            BurnedAmountResponse { burned_amount: state.burned_amount },
        ),
    }
}

/// Answers one query. `api` is what the host makes of the address in the
/// question; a question about an address it does not accept is refused.
pub fn query(state: &State, env: Env, msg: QueryMsg, api: &Api) -> (r: Result<
    QueryResponse,
    StdError,
>)
    requires
        state.wf(),
        api.wf(),
    ensures
        r == match msg {
            QueryMsg::BurnedTodayByAddress { address } => match api.verdict(address@) {
                Some(e) => Err::<QueryResponse, StdError>(e),
                None => Ok::<QueryResponse, StdError>(query_answer(*state, env, msg)),
            },
            _ => Ok::<QueryResponse, StdError>(query_answer(*state, env, msg)),
        },
{
    match msg {
        QueryMsg::Owner {  } => match owner(state) {
            Ok(res) => Ok(QueryResponse::Owner(res)),
            Err(e) => Err(e),
        },
        QueryMsg::RewardAddress {  } => match reward_address(state) {
            Ok(res) => Ok(QueryResponse::RewardAddress(res)),
            Err(e) => Err(e),
        },
        QueryMsg::RewardInfo {  } => match reward_info(state) {
            Ok(res) => Ok(QueryResponse::RewardInfo(res)),
            Err(e) => Err(e),
        },
        QueryMsg::BurnLimit {  } => match burn_limit(state) {
            Ok(res) => Ok(QueryResponse::BurnLimit(res)),
            Err(e) => Err(e),
        },
        QueryMsg::TotalBurnedToday {  } => match total_burned_today(state, env) {
            Ok(res) => Ok(QueryResponse::TotalBurnedToday(res)),
            Err(e) => Err(e),
        },
        QueryMsg::BurnedTodayByAddress { address } => match burned_today_by_address(
            state,
            env,
            address,
            api,
        ) {
            Ok(res) => Ok(QueryResponse::BurnedTodayByAddress(res)),
            Err(e) => Err(e),
        },
        QueryMsg::BurnedAmount {  } => match burned_amount(state) {
            Ok(res) => Ok(QueryResponse::BurnedAmount(res)),
            Err(e) => Err(e),
        },
    }
}

} // verus!
