//! What holds of the second taxed token whatever messages it is sent.

use crate::cremation_token::error::ContractError;
use crate::host::{Api, Env, MessageInfo, Response};
use crate::lenny_token::contract::execute_post;
use crate::lenny_token::msg::ExecuteMsg;
use crate::lenny_token::state::State;
use vstd::prelude::*;

verus! {

/// Conservation: whatever message the token handles and however it
/// answers, all accounts together hold afterwards what they held before,
/// and the token that tax is meant to be swapped to stays the same.
pub proof fn lemma_execute_conserves(
    pre: State,
    env: Env,
    info: MessageInfo,
    msg: ExecuteMsg,
    allowance: Result<(), ContractError>,
    api: Api,
    post: State,
    r: Result<Response, ContractError>,
)
    requires
        execute_post(pre, env, info, msg, allowance, api, post, r),
    ensures
        post.token.balances.total() == pre.token.balances.total(),
        post.swap_tax_to_token == pre.swap_tax_to_token,
{
}

} // verus!
