//! The time lock's entry points and handlers.

use crate::cremation_lock::error::ContractError;
use crate::cremation_lock::msg::{
    ExecuteMsg, InstantiateMsg, LockedTokenAmountResponse, OwnerResponse, QueryMsg,
    QueryResponse, UnlockTimeResponse,
};
use crate::cremation_lock::state::State;
use crate::error::StdError;
use crate::host::{
    attr, cw20_transfer, Attribute, Env, MessageInfo, Response, SubMsg, Timestamp,
};
use crate::math::{amount_to_string, shows_amount};
use vstd::prelude::*;

verus! {

/// How long the lock holds, in days.
pub const LOCK_DAYS: u64 = 365;

/// Sets the lock up: it opens a year from now. Refused only where the
/// clock is so far on that a year more cannot be counted.
pub fn instantiate(env: Env, _info: MessageInfo, msg: InstantiateMsg) -> (r: Result<
    State,
    StdError,
>)
    ensures
        r is Ok <==> env.block.time.nanos_after_days(LOCK_DAYS) <= u64::MAX,
        match r {
            Ok(state) => state == State {
                unlock_time: Timestamp {
                    nanos: env.block.time.nanos_after_days(LOCK_DAYS) as u64,
                },
                owner: msg.owner,
            },
            Err(e) => e == (StdError::Overflow {}),
        },
{
    assert(LOCK_DAYS * 86_400 * 1_000_000_000 == 31_536_000_000_000_000) by (nonlinear_arith);
    if env.block.time.nanos > u64::MAX - 31_536_000_000_000_000 {
        return Err(StdError::overflow());
    }
    let unlock_time = env.block.time.plus_days(LOCK_DAYS);
    Ok(State { unlock_time, owner: msg.owner })
}

/// What [`update_owner`] guarantees.
pub open spec fn update_owner_post(
    pre: State,
    info: MessageInfo,
    new_owner: String,
    post: State,
    r: Result<Response, ContractError>,
) -> bool {
    if pre.owner@ != info.sender@ {
        post == pre && r == Err::<Response, ContractError>(ContractError::Unauthorized {})
    } else {
        &&& post == State { owner: new_owner, ..pre }
        &&& r matches Ok(res) && res.messages@.len() == 0 && res.attrs() == seq![
            ("action"@, "change_owner"@),
            ("owner"@, new_owner@),
        ]
    }
}

/// Hands the lock to a new owner. Only the owner may.
pub fn update_owner(state: &mut State, _env: Env, info: MessageInfo, new_owner: String) -> (r:
    Result<Response, ContractError>)
    ensures
        update_owner_post(*old(state), info, new_owner, *final(state), r),
{
    if state.owner != info.sender {
        return Err(ContractError::Unauthorized {});
    }
    let res = Response::new().add_attribute("action", "change_owner".to_owned()).add_attribute(
        "owner",
        new_owner.clone(),
    );
    state.owner = new_owner;
    proof {
        assert(res.attrs() =~= seq![("action"@, "change_owner"@), ("owner"@, new_owner@)]);
    }
    Ok(res)
}

/// What [`withdraw`] guarantees. Before the lock opens the call is
/// refused, whoever makes it. Afterwards anyone may set the withdrawal off,
/// and all the lock holds of the token goes to the owner. The state never
/// changes.
pub open spec fn withdraw_post(
    state: State,
    env: Env,
    token_address: String,
    held: Result<u128, StdError>,
    r: Result<Response, ContractError>,
) -> bool {
    if env.block.time.nanos < state.unlock_time.nanos {
        r == Err::<Response, ContractError>(ContractError::Locked {})
    } else {
        match held {
            Err(e) => r == Err::<Response, ContractError>(ContractError::StdError(e)),
            Ok(locked_amount) => r matches Ok(res) && res.messages@.len() == 1
                && res.messages@[0].is_plain() && res.messages@[0].msg.is_cw20_transfer(
                token_address@,
                state.owner@,
                locked_amount,
            ) && res.attributes@.len() == 3 && res.attributes@[0]@ == ("action"@, "withdraw"@)
                && res.attributes@[1]@ == ("token_address"@, token_address@)
                && res.attributes@[2].key@ == "amount"@ && shows_amount(
                res.attributes@[2].value,
                locked_amount,
            ),
        }
    }
}

/// Sends all the lock holds of the token at `token_address` to the owner,
/// once the lock is open. `held` is what the token answered when asked what
/// the lock holds of it.
pub fn withdraw(
    state: &State,
    env: Env,
    _info: MessageInfo,
    token_address: String,
    held: Result<u128, StdError>,
) -> (r: Result<Response, ContractError>)
    ensures
        withdraw_post(*state, env, token_address, held, r),
{
    if env.block.time.nanos < state.unlock_time.nanos {
        return Err(ContractError::Locked {});
    }
    let locked_amount: u128 = match held {
        Ok(b) => b,
        Err(e) => {
            return Err(ContractError::StdError(e));
        },
    };
    let mut messages: Vec<SubMsg> = Vec::new();
    messages.push(SubMsg::new(cw20_transfer(&token_address, &state.owner, locked_amount)));
    let mut attributes: Vec<Attribute> = Vec::new();
    attributes.push(attr("action", "withdraw".to_owned()));
    attributes.push(attr("token_address", token_address));
    attributes.push(attr("amount", amount_to_string(locked_amount)));
    Ok(Response { messages, attributes })
}

/// What [`execute`] guarantees: for each kind of message, what the handler
/// of that kind guarantees.
pub open spec fn execute_post(
    pre: State,
    env: Env,
    info: MessageInfo,
    msg: ExecuteMsg,
    held: Result<u128, StdError>,
    post: State,
    r: Result<Response, ContractError>,
) -> bool {
    match msg {
        ExecuteMsg::UpdateOwner { new_owner } => update_owner_post(pre, info, new_owner, post, r),
        ExecuteMsg::Withdraw { token_address } => post == pre && withdraw_post(
            pre,
            env,
            token_address,
            held,
            r,
        ),
    }
}

/// Handles one message. `held` is what the token named in a withdrawal
/// answered when asked what the lock holds of it.
pub fn execute(
    state: &mut State,
    env: Env,
    info: MessageInfo,
    msg: ExecuteMsg,
    held: Result<u128, StdError>,
) -> (r: Result<Response, ContractError>)
    ensures
        execute_post(*old(state), env, info, msg, held, *final(state), r),
{
    match msg {
        ExecuteMsg::UpdateOwner { new_owner } => update_owner(state, env, info, new_owner),
        ExecuteMsg::Withdraw { token_address } => withdraw(state, env, info, token_address, held),
    }
}

/// What the lock holds of a token: what the token answered, or zero where
/// it did not answer.
pub fn locked_token_amount(
    _state: &State,
    _env: Env,
    _token_address: String,
    held: Result<u128, StdError>,
) -> (r: Result<LockedTokenAmountResponse, StdError>)
    ensures
        r == Ok::<LockedTokenAmountResponse, StdError>(
            LockedTokenAmountResponse {
                amount: match held {
                    Ok(b) => b,
                    Err(_) => 0,
                },
            },
        ),
{
    match held {
        Ok(locked_amount) => Ok(LockedTokenAmountResponse { amount: locked_amount }),
        Err(_) => Ok(LockedTokenAmountResponse { amount: 0 }),
    }
}

/// Who owns the lock.
pub fn owner(state: &State) -> (r: Result<OwnerResponse, StdError>)
    ensures
        r == Ok::<OwnerResponse, StdError>(OwnerResponse { owner: state.owner }),
{
    Ok(OwnerResponse { owner: state.owner.clone() })
}

/// From when on the tokens may be withdrawn.
pub fn unlock_time(state: &State) -> (r: Result<UnlockTimeResponse, StdError>)
    ensures
        r == Ok::<UnlockTimeResponse, StdError>(
            UnlockTimeResponse { unlock_time: state.unlock_time },
        ),
{
    Ok(UnlockTimeResponse { unlock_time: state.unlock_time })
}

/// Answers one query. `held` is as for [`execute`].
pub fn query(state: &State, env: Env, msg: QueryMsg, held: Result<u128, StdError>) -> (r: Result<
    QueryResponse,
    StdError,
>)
    ensures
        r == Ok::<QueryResponse, StdError>(
            match msg {
                QueryMsg::LockedTokenAmount { token_address } => QueryResponse::LockedTokenAmount(
                    LockedTokenAmountResponse {
                        amount: match held {
                            Ok(b) => b,
                            Err(_) => 0,
                        },
                    },
                ),
                QueryMsg::Owner {  } => QueryResponse::Owner(OwnerResponse { owner: state.owner }),
                QueryMsg::UnlockTime {  } => QueryResponse::UnlockTime(
                    UnlockTimeResponse { unlock_time: state.unlock_time },
                ),
            },
        ),
{
    match msg {
        QueryMsg::LockedTokenAmount { token_address } => match locked_token_amount(
            state,
            env,
            token_address,
            held,
        ) {
            Ok(res) => Ok(QueryResponse::LockedTokenAmount(res)),
            Err(e) => Err(e),
        },
        QueryMsg::Owner {  } => match owner(state) {
            Ok(res) => Ok(QueryResponse::Owner(res)),
            Err(e) => Err(e),
        },
        QueryMsg::UnlockTime {  } => match unlock_time(state) {
            Ok(res) => Ok(QueryResponse::UnlockTime(res)),
            Err(e) => Err(e),
        },
    }
}

} // verus!
