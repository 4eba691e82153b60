//! What holds of the taxed token whatever messages it is sent.

use crate::cremation_token::contract::execute_post;
use crate::cremation_token::error::ContractError;
use crate::cremation_token::execute::{balance_after, moved};
use crate::cremation_token::helper::{classified, Operation};
use crate::cremation_token::msg::ExecuteMsg;
use crate::cremation_token::state::{DexConfigs, State};
use crate::host::{Api, Env, MessageInfo, Response};
use vstd::prelude::*;

verus! {

/// Conservation, one message: whatever message the token handles and
/// however it answers, all accounts together hold afterwards what they held
/// before.
pub proof fn lemma_execute_conserves(
    pre: State,
    env: Env,
    info: MessageInfo,
    msg: ExecuteMsg,
    allowance: Result<(), ContractError>,
    api: Api,
    post: State,
    r: Result<Response, ContractError>,
)
    requires
        execute_post(pre, env, info, msg, allowance, api, post, r),
    ensures
        post.balances.total() == pre.balances.total(),
{
}

/// Whether the token can get from `pre` to `post` by handling one message.
pub open spec fn is_step(pre: State, post: State) -> bool {
    exists|
        env: Env,
        info: MessageInfo,
        msg: ExecuteMsg,
        allowance: Result<(), ContractError>,
        api: Api,
        r: Result<Response, ContractError>,
    | #[trigger] execute_post(pre, env, info, msg, allowance, api, post, r)
}

/// Conservation, any number of messages: along every sequence of states in
/// which each follows from the one before by one handled message, the sum
/// of all balances stays what it was at the start.
pub proof fn lemma_conservation(states: Seq<State>, i: int)
    requires
        forall|k: int| 0 <= k < states.len() - 1 ==> is_step(#[trigger] states[k], states[k + 1]),
        0 <= i < states.len(),
    ensures
        states[i].balances.total() == states[0].balances.total(),
    decreases i,
{
    if i > 0 {
        lemma_conservation(states, i - 1);
        assert(is_step(states[i - 1], states[i - 1 + 1]));
        let (env, info, msg, allowance, api, r) = choose|
            env: Env,
            info: MessageInfo,
            msg: ExecuteMsg,
            allowance: Result<(), ContractError>,
            api: Api,
            r: Result<Response, ContractError>,
        | #[trigger] execute_post(states[i - 1], env, info, msg, allowance, api, states[i], r);
        lemma_execute_conserves(states[i - 1], env, info, msg, allowance, api, states[i], r);
    }
}

/// Tax exactness: where a movement is taxed and sender, recipient and
/// collector are three different accounts, what the recipient gains and
/// what the collector gains add up to exactly the amount the sender loses.
pub proof fn lemma_split_exact(
    pre: State,
    from: Seq<char>,
    to: Seq<char>,
    amount: u128,
    tax: u128,
    post: State,
)
    requires
        moved(pre, from, to, amount, Some(tax), post),
        from != to,
        from != pre.collect_tax_address@,
        to != pre.collect_tax_address@,
    ensures
        (post.balances.balance_of(to) - pre.balances.balance_of(to)) + (
        post.balances.balance_of(pre.collect_tax_address@) - pre.balances.balance_of(
            pre.collect_tax_address@,
        )) == amount,
        pre.balances.balance_of(from) - post.balances.balance_of(from) == amount,
{
    assert(post.balances.balance_of(to) == balance_after(pre, from, to, amount, Some(tax), to));
    assert(post.balances.balance_of(from) == balance_after(
        pre,
        from,
        to,
        amount,
        Some(tax),
        from,
    ));
    assert(post.balances.balance_of(pre.collect_tax_address@) == balance_after(
        pre,
        from,
        to,
        amount,
        Some(tax),
        pre.collect_tax_address@,
    ));
}

/// Classification is a function: two classifications of the same pair of
/// addresses against the same registry agree, and each is exactly one of
/// buy, sell and transfer.
pub proof fn lemma_classification_deterministic(
    dex: DexConfigs,
    from: Seq<char>,
    to: Seq<char>,
    first: Operation,
    second: Operation,
)
    requires
        first == classified(dex, from, to),
        second == classified(dex, from, to),
    ensures
        first == second,
        first == Operation::Buy || first == Operation::Sell || first == Operation::Transfer,
{
}

} // verus!
