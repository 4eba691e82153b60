//! The second taxed token's entry points.

use crate::cremation_token::contract::{
    instantiate as token_instantiate, instantiate_post as token_instantiate_post,
    query as token_query, query_post as token_query_post,
};
use crate::cremation_token::msg::{QueryMsg, QueryResponse};
use crate::error::StdError;
use crate::cremation_token::error::ContractError;
use crate::cremation_token::execute::{
    add_new_pairs, add_new_pairs_post, remove_pair, remove_pair_post, send, send_from, send_post,
    set_dex_configs, set_dex_configs_post, set_tax_free_address, set_tax_free_address_post,
    transfer, transfer_from, transfer_post, update_collecting_tax_address,
    update_collecting_tax_address_post, update_owner, update_owner_post, update_tax_info,
    update_tax_info_post,
};
use crate::cremation_token::msg::InstantiateMsg as TokenInstantiateMsg;
use crate::cremation_token::state::{DexConfigs, TaxInfo};
use crate::host::{first_of, Api, Env, MessageInfo, Response};
use crate::lenny_token::msg::{ExecuteMsg, InstantiateMsg};
use crate::lenny_token::state::State;
use vstd::prelude::*;

verus! {

/// What the tax collector must hold before collected tax is swapped.
pub const SWAP_COLLECTED_TAX_THRESHOLD: u128 = 10_000_000_000;

/// Sets the token up as a taxed token is set up, and notes the token that
/// collected tax is meant to be swapped to.
pub fn instantiate(env: Env, info: MessageInfo, msg: InstantiateMsg, api: &Api) -> (r: Result<
    State,
    ContractError,
>)
    requires
        api.wf(),
    ensures
        r is Ok <==> api.verdict(msg.owner@) is None && msg.tax_info.valid(),
        match r {
            Ok(state) => state.swap_tax_to_token == msg.swap_tax_to_token
                && token_instantiate_post(
                info,
                TokenInstantiateMsg { owner: msg.owner, tax_info: msg.tax_info },
                *api,
                Ok(state.token),
            ),
            Err(e) => token_instantiate_post(
                info,
                TokenInstantiateMsg { owner: msg.owner, tax_info: msg.tax_info },
                *api,
                Err(e),
            ),
        },
{
    let swap_tax_to_token = msg.swap_tax_to_token;
    match token_instantiate(
        env,
        info,
        TokenInstantiateMsg { owner: msg.owner, tax_info: msg.tax_info },
        api,
    ) {
        Ok(token) => Ok(State { token, swap_tax_to_token }),
        Err(e) => Err(e),
    }
}

/// What [`execute`] guarantees: for each kind of message, what the taxed
/// token's handler of that kind guarantees of the token state; the rest of
/// the state never changes.
pub open spec fn execute_post(
    pre: State,
    env: Env,
    info: MessageInfo,
    msg: ExecuteMsg,
    allowance: Result<(), ContractError>,
    api: Api,
    post: State,
    r: Result<Response, ContractError>,
) -> bool {
    post.swap_tax_to_token == pre.swap_tax_to_token && match msg {
        ExecuteMsg::SetDexConfigs {
            terraswap_router,
            terraswap_pairs,
            terraport_router,
            terraport_pairs,
        } => set_dex_configs_post(
            pre.token,
            info,
            DexConfigs { terraswap_router, terraswap_pairs, terraport_router, terraport_pairs },
            api,
            post.token,
            r,
        ),
        ExecuteMsg::UpdateOwner { new_owner } => update_owner_post(
            pre.token,
            info,
            new_owner,
            api,
            post.token,
            r,
        ),
        ExecuteMsg::AddNewPairs { dex, pair_addresses } => add_new_pairs_post(
            pre.token,
            info,
            dex,
            pair_addresses,
            api,
            post.token,
            r,
        ),
        ExecuteMsg::RemovePair { dex, pair_address } => remove_pair_post(
            pre.token,
            info,
            dex,
            pair_address,
            api,
            post.token,
            r,
        ),
        ExecuteMsg::UpdateCollectTaxAddress {
            new_collect_tax_addr,
        } => update_collecting_tax_address_post(
            pre.token,
            info,
            new_collect_tax_addr,
            api,
            post.token,
            r,
        ),
        ExecuteMsg::UpdateTaxInfo { buy_tax, sell_tax, transfer_tax } => update_tax_info_post(
            pre.token,
            info,
            TaxInfo { buy_tax, sell_tax, transfer_tax },
            post.token,
            r,
        ),
        ExecuteMsg::SetTaxFreeAddress { address, tax_free } => set_tax_free_address_post(
            pre.token,
            info,
            address,
            tax_free,
            api,
            post.token,
            r,
        ),
        ExecuteMsg::Send { contract, amount, msg } => send_post(
            pre.token,
            env,
            "send"@,
            info.sender@,
            contract@,
            None,
            info.sender@,
            amount,
            msg,
            Ok(()),
            api.verdict(contract@),
            post.token,
            r,
        ),
        ExecuteMsg::SendFrom { owner, contract, amount, msg } => send_post(
            pre.token,
            env,
            "send_from"@,
            owner@,
            contract@,
            Some(info.sender@),
            info.sender@,
            amount,
            msg,
            allowance,
            first_of(api.verdict(owner@), api.verdict(contract@)),
            post.token,
            r,
        ),
        ExecuteMsg::Transfer { recipient, amount } => transfer_post(
            pre.token,
            "transfer"@,
            info.sender@,
            recipient@,
            None,
            amount,
            Ok(()),
            api.verdict(recipient@),
            post.token,
            r,
        ),
        ExecuteMsg::TransferFrom { owner, recipient, amount } => transfer_post(
            pre.token,
            "transfer_from"@,
            owner@,
            recipient@,
            Some(info.sender@),
            amount,
            allowance,
            first_of(api.verdict(recipient@), api.verdict(owner@)),
            post.token,
            r,
        ),
    }
}

/// Handles one message. `allowance` is what the base ledger answered when
/// asked to deduct the amount from the sender's allowance; only the two
/// `...From` messages read it. `api` is what the host makes of the
/// addresses in the message.
pub fn execute(
    state: &mut State,
    env: Env,
    info: MessageInfo,
    msg: ExecuteMsg,
    allowance: Result<(), ContractError>,
    api: &Api,
) -> (r: Result<Response, ContractError>)
    requires
        old(state).wf(),
        api.wf(),
    ensures
        final(state).wf(),
        execute_post(*old(state), env, info, msg, allowance, *api, *final(state), r),
{
    match msg {
        ExecuteMsg::SetDexConfigs {
            terraswap_router,
            terraswap_pairs,
            terraport_router,
            terraport_pairs,
        } => set_dex_configs(
            &mut state.token,
            env,
            info,
            terraswap_router,
            terraswap_pairs,
            terraport_router,
            terraport_pairs,
            api,
        ),
        ExecuteMsg::UpdateOwner { new_owner } => update_owner(&mut state.token, env, info, new_owner, api),
        ExecuteMsg::AddNewPairs { dex, pair_addresses } => add_new_pairs(
            &mut state.token,
            env,
            info,
            dex,
            pair_addresses,
            api,
        ),
        ExecuteMsg::RemovePair { dex, pair_address } => remove_pair(
            &mut state.token,
            env,
            info,
            dex,
            pair_address,
            api,
        ),
        ExecuteMsg::UpdateCollectTaxAddress {
            new_collect_tax_addr,
        } => update_collecting_tax_address(&mut state.token, env, info, new_collect_tax_addr, api),
        ExecuteMsg::UpdateTaxInfo { buy_tax, sell_tax, transfer_tax } => update_tax_info(
            &mut state.token,
            env,
            info,
            buy_tax,
            sell_tax,
            transfer_tax,
        ),
        ExecuteMsg::SetTaxFreeAddress { address, tax_free } => set_tax_free_address(
            &mut state.token,
            env,
            info,
            address,
            tax_free,
            api,
        ),
        ExecuteMsg::Send { contract, amount, msg } => send(
            &mut state.token,
            env,
            info,
            contract,
            amount,
            msg,
            api,
        ),
        ExecuteMsg::SendFrom { owner, contract, amount, msg } => send_from(
            &mut state.token,
            env,
            info,
            owner,
            contract,
            amount,
            msg,
            allowance,
            api,
        ),
        ExecuteMsg::Transfer { recipient, amount } => transfer(
            &mut state.token,
            env,
            info,
            recipient,
            amount,
            api,
        ),
        ExecuteMsg::TransferFrom { owner, recipient, amount } => transfer_from(
            &mut state.token,
            env,
            info,
            owner,
            recipient,
            amount,
            allowance,
            api,
        ),
    }
}

/// Answers one query, as the taxed token answers it.
pub fn query(state: &State, env: Env, msg: QueryMsg, api: &Api) -> (r: Result<
    QueryResponse,
    StdError,
>)
    requires
        state.wf(),
        api.wf(),
    ensures
        token_query_post(state.token, msg, *api, r),
{
    token_query(&state.token, env, msg, api)
}

} // verus!
