//! What holds of the burner's settlement lock whatever messages arrive.

use crate::burning::contract::reply_post;
use crate::burning::error::ContractError;
use crate::burning::execute::{receive_cw20_post, swap_and_burn_post};
use crate::burning::msg::Cw20HookMsg;
use crate::burning::state::State;
use crate::cremation_token::msg::AssetInfo;
use crate::error::StdError;
use crate::host::{Api, Cw20ReceiveMsg, MessageInfo, Reply, Response};
use vstd::prelude::*;

verus! {

/// Single flight, native coins: while a settlement is in flight, an
/// attempt to begin another with native coins fails and changes nothing.
pub proof fn lemma_locked_refuses_swap(
    pre: State,
    info: MessageInfo,
    denom: String,
    swap_paths: Vec<AssetInfo>,
    post: State,
    r: Result<Response, ContractError>,
)
    requires
        pre.cache.locked,
        swap_and_burn_post(pre, info, denom, swap_paths, post, r),
    ensures
        r is Err,
        post == pre,
{
}

/// Single flight, tokens: while a settlement is in flight, an attempt to
/// begin another with tokens fails and changes nothing.
pub proof fn lemma_locked_refuses_receive(
    pre: State,
    info: MessageInfo,
    cw20_msg: Cw20ReceiveMsg<Cw20HookMsg>,
    api: Api,
    post: State,
    r: Result<Response, ContractError>,
)
    requires
        pre.cache.locked,
        receive_cw20_post(pre, info, cw20_msg, api, post, r),
    ensures
        r is Err,
        post == pre,
{
}

/// Single flight, continuation: while no settlement is in flight, a
/// continuation fails and changes nothing.
pub proof fn lemma_unlocked_refuses_reply(
    pre: State,
    msg: Reply,
    balance: u128,
    held: Map<Seq<char>, Result<u128, StdError>>,
    post: State,
    r: Result<Response, ContractError>,
)
    requires
        !pre.cache.locked,
        reply_post(pre, msg, balance, held, post, r),
    ensures
        r is Err,
        post == pre,
{
}

/// A settlement that completes frees the lock, and the burn it ends with
/// is made for the actor that the lock recorded when the settlement began.
pub proof fn lemma_reply_releases(
    pre: State,
    msg: Reply,
    balance: u128,
    held: Map<Seq<char>, Result<u128, StdError>>,
    post: State,
    r: Result<Response, ContractError>,
)
    requires
        reply_post(pre, msg, balance, held, post, r),
        r is Ok,
    ensures
        pre.cache.locked,
        !post.cache.locked,
        post.cache.burner == pre.cache.burner,
{
}

} // verus!
