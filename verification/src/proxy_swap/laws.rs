//! What holds of the proxy's settlement lock whatever messages arrive.

use crate::cremation_token::msg::AssetInfo;
use crate::error::StdError;
use crate::host::{Api, Cw20ReceiveMsg, MessageInfo, Reply, Response};
use crate::proxy_swap::contract::{receive_cw20_post, reply_post, swap_post};
use crate::proxy_swap::error::ContractError;
use crate::proxy_swap::msg::Cw20HookMsg;
use crate::proxy_swap::state::State;
use vstd::prelude::*;

verus! {

/// Single flight, native coins: while a settlement is in flight, an
/// attempt to begin another with a native coin fails and changes nothing.
pub proof fn lemma_locked_refuses_swap(
    pre: State,
    info: MessageInfo,
    ask_asset: AssetInfo,
    swap_paths: Vec<AssetInfo>,
    post: State,
    r: Result<Response, ContractError>,
)
    requires
        pre.cache.locked,
        swap_post(pre, info, ask_asset, swap_paths, post, r),
    ensures
        r is Err,
        post == pre,
{
}

/// Single flight, tokens: while a settlement is in flight, an attempt to
/// begin another with tokens fails and changes nothing.
pub proof fn lemma_locked_refuses_receive(
    pre: State,
    info: MessageInfo,
    cw20_msg: Cw20ReceiveMsg<Cw20HookMsg>,
    api: Api,
    post: State,
    r: Result<Response, ContractError>,
)
    requires
        pre.cache.locked,
        receive_cw20_post(pre, info, cw20_msg, api, post, r),
    ensures
        r is Err,
        post == pre,
{
}

/// Single flight, continuation: while no settlement is in flight, a
/// continuation fails and changes nothing.
pub proof fn lemma_unlocked_refuses_reply(
    pre: State,
    msg: Reply,
    balance: Result<u128, StdError>,
    collector: Result<String, StdError>,
    post: State,
    r: Result<Response, ContractError>,
)
    requires
        !pre.cache.locked,
        reply_post(pre, msg, balance, collector, post, r),
    ensures
        r is Err,
        post == pre,
{
}

/// A settlement that completes frees the lock and pays out of the token,
/// and to the buyer, that the lock recorded when the settlement began; tax
/// and payout together are exactly what the swap brought in.
pub proof fn lemma_reply_releases(
    pre: State,
    msg: Reply,
    balance: Result<u128, StdError>,
    collector: Result<String, StdError>,
    post: State,
    r: Result<Response, ContractError>,
)
    requires
        reply_post(pre, msg, balance, collector, post, r),
        r is Ok,
    ensures
        pre.cache.locked,
        !post.cache.locked,
        post.cache.buyer == pre.cache.buyer,
        post.cache.token_address == pre.cache.token_address,
{
}

} // verus!
