//! The token's entry points: set-up, message dispatch, queries, and the
//! migration of the venue registry to its present shape.

use crate::book::{AddrMap, Ledger};
use crate::cremation_token::error::ContractError;
use crate::cremation_token::execute::{
    add_new_pairs, add_new_pairs_post, send, send_from, send_post, set_dex_configs,
    set_dex_configs_post, set_tax_free_address, set_tax_free_address_post, transfer,
    transfer_from, transfer_post, update_collecting_tax_address,
    update_collecting_tax_address_post, update_owner, update_owner_post, update_tax_info,
    update_tax_info_post,
};
use crate::cremation_token::helper::{is_invalid_fraction, validate_tax_format};
use crate::cremation_token::msg::{
    CollectTaxAddressResponse, ExecuteMsg, InstantiateMsg, MigrateMsg, OwnerResponse, QueryMsg,
    QueryResponse, TaxFreeAddressResponse,
};
use crate::cremation_token::query::{
    balance, collect_tax_address, dex_configs, dex_configs_post, owner, rate_decimal,
    tax_free_address, tax_info,
};
use crate::cremation_token::state::{DexConfigs, State, TaxInfo};
use crate::error::StdError;
use crate::host::{first_of, Api, Env, MessageInfo, Response};
use vstd::prelude::*;

verus! {

/// What [`instantiate`] guarantees: an owner whose address the host does
/// not accept is refused, and so are malformed rates; otherwise the sender
/// is the creator, the named owner owns the token, collects the tax and is
/// exempt from it, nobody holds anything yet, and the venue registry is
/// still to be wired.
pub open spec fn instantiate_post(
    info: MessageInfo,
    msg: InstantiateMsg,
    api: Api,
    r: Result<State, ContractError>,
) -> bool {
    if api.verdict(msg.owner@) is Some {
        r == Err::<State, ContractError>(ContractError::Std(api.verdict(msg.owner@).unwrap()))
    } else if !msg.tax_info.valid() {
        r matches Err(e) && is_invalid_fraction(e)
    } else {
        r matches Ok(state) && {
            &&& state.wf()
            &&& state == State {
                config: None,
                dex_configs: None,
                tax_info: msg.tax_info,
                collect_tax_address: msg.owner,
                tax_free_addresses: state.tax_free_addresses,
                owner: msg.owner,
                creator: info.sender,
                balances: state.balances,
                self_allowances: state.self_allowances,
            }
            &&& state.tax_free_addresses.model() == Map::<Seq<char>, bool>::empty().insert(
                msg.owner@,
                true,
            )
            &&& state.balances.total() == 0
            &&& forall|a: Seq<char>| state.balances.balance_of(a) == 0
            &&& state.self_allowances.model() == Map::<Seq<char>, u128>::empty()
        }
    }
}

/// Sets the token up.
pub fn instantiate(_env: Env, info: MessageInfo, msg: InstantiateMsg, api: &Api) -> (r: Result<
    State,
    ContractError,
>)
    requires
        api.wf(),
    ensures
        instantiate_post(info, msg, *api, r),
{
    match api.addr_validate(&msg.owner) {
        Ok(_) => {},
        Err(e) => {
            return Err(ContractError::Std(e));
        },
    }
    match validate_tax_format(&msg.tax_info.buy_tax) {
        Ok(()) => {},
        Err(e) => {
            return Err(e);
        },
    }
    match validate_tax_format(&msg.tax_info.sell_tax) {
        Ok(()) => {},
        Err(e) => {
            return Err(e);
        },
    }
    match validate_tax_format(&msg.tax_info.transfer_tax) {
        Ok(()) => {},
        Err(e) => {
            return Err(e);
        },
    }
    let mut tax_free_addresses: AddrMap<bool> = AddrMap::new();
    tax_free_addresses.insert(msg.owner.clone(), true);
    Ok(
        State {
            config: None,
            dex_configs: None,
            tax_info: msg.tax_info,
            collect_tax_address: msg.owner.clone(),
            tax_free_addresses,
            owner: msg.owner,
            creator: info.sender,
            balances: Ledger::new(),
            self_allowances: AddrMap::new(),
        },
    )
}

/// What [`execute`] guarantees: for each kind of message, what the handler
/// of that kind guarantees.
pub open spec fn execute_post(
    pre: State,
    env: Env,
    info: MessageInfo,
    msg: ExecuteMsg,
    allowance: Result<(), ContractError>,
    api: Api,
    post: State,
    r: Result<Response, ContractError>,
) -> bool {
    match msg {
        ExecuteMsg::SetDexConfigs {
            terraswap_router,
            terraswap_pairs,
            terraport_router,
            terraport_pairs,
        } => set_dex_configs_post(
            pre,
            info,
            DexConfigs { terraswap_router, terraswap_pairs, terraport_router, terraport_pairs },
            api,
            post,
            r,
        ),
        ExecuteMsg::UpdateOwner { new_owner } => update_owner_post(pre, info, new_owner, api, post, r),
        ExecuteMsg::AddNewPairs { dex, pair_addresses } => add_new_pairs_post(
            pre,
            info,
            dex,
            pair_addresses,
            api,
            post,
            r,
        ),
        ExecuteMsg::UpdateCollectTaxAddress {
            new_collect_tax_addr,
        } => update_collecting_tax_address_post(pre, info, new_collect_tax_addr, api, post, r),
        ExecuteMsg::UpdateTaxInfo { buy_tax, sell_tax, transfer_tax } => update_tax_info_post(
            pre,
            info,
            TaxInfo { buy_tax, sell_tax, transfer_tax },
            post,
            r,
        ),
        ExecuteMsg::SetTaxFreeAddress { address, tax_free } => set_tax_free_address_post(
            pre,
            info,
            address,
            tax_free,
            api,
            post,
            r,
        ),
        ExecuteMsg::Send { contract, amount, msg } => send_post(
            pre,
            env,
            "send"@,
            info.sender@,
            contract@,
            None,
            info.sender@,
            amount,
            msg,
            Ok(()),
            api.verdict(contract@),
            post,
            r,
        ),
        ExecuteMsg::SendFrom { owner, contract, amount, msg } => send_post(
            pre,
            env,
            "send_from"@,
            owner@,
            contract@,
            Some(info.sender@),
            info.sender@,
            amount,
            msg,
            allowance,
            first_of(api.verdict(owner@), api.verdict(contract@)),
            post,
            r,
        ),
        ExecuteMsg::Transfer { recipient, amount } => transfer_post(
            pre,
            "transfer"@,
            info.sender@,
            recipient@,
            None,
            amount,
            Ok(()),
            api.verdict(recipient@),
            post,
            r,
        ),
        ExecuteMsg::TransferFrom { owner, recipient, amount } => transfer_post(
            pre,
            "transfer_from"@,
            owner@,
            recipient@,
            Some(info.sender@),
            amount,
            allowance,
            first_of(api.verdict(recipient@), api.verdict(owner@)),
            post,
            r,
        ),
    }
}

/// Handles one message. `allowance` is what the base ledger answered when
/// asked to deduct the amount from the sender's allowance; only the two
/// `...From` messages read it. `api` is what the host makes of the
/// addresses in the message.
pub fn execute(
    state: &mut State,
    env: Env,
    info: MessageInfo,
    msg: ExecuteMsg,
    allowance: Result<(), ContractError>,
    api: &Api,
) -> (r: Result<Response, ContractError>)
    requires
        old(state).wf(),
        api.wf(),
    ensures
        final(state).wf(),
        execute_post(*old(state), env, info, msg, allowance, *api, *final(state), r),
{
    match msg {
        ExecuteMsg::SetDexConfigs {
            terraswap_router,
            terraswap_pairs,
            terraport_router,
            terraport_pairs,
        } => set_dex_configs(
            state,
            env,
            info,
            terraswap_router,
            terraswap_pairs,
            terraport_router,
            terraport_pairs,
            api,
        ),
        ExecuteMsg::UpdateOwner { new_owner } => update_owner(state, env, info, new_owner, api),
        ExecuteMsg::AddNewPairs { dex, pair_addresses } => add_new_pairs(
            state,
            env,
            info,
            dex,
            pair_addresses,
            api,
        ),
        ExecuteMsg::UpdateCollectTaxAddress {
            new_collect_tax_addr,
        } => update_collecting_tax_address(state, env, info, new_collect_tax_addr, api),
        ExecuteMsg::UpdateTaxInfo { buy_tax, sell_tax, transfer_tax } => update_tax_info(
            state,
            env,
            info,
            buy_tax,
            sell_tax,
            transfer_tax,
        ),
        ExecuteMsg::SetTaxFreeAddress { address, tax_free } => set_tax_free_address(
            state,
            env,
            info,
            address,
            tax_free,
            api,
        ),
        ExecuteMsg::Send { contract, amount, msg } => send(state, env, info, contract, amount, msg, api),
        ExecuteMsg::SendFrom { owner, contract, amount, msg } => send_from(
            state,
            env,
            info,
            owner,
            contract,
            amount,
            msg,
            allowance,
            api,
        ),
        ExecuteMsg::Transfer { recipient, amount } => transfer(state, env, info, recipient, amount, api),
        ExecuteMsg::TransferFrom { owner, recipient, amount } => transfer_from(
            state,
            env,
            info,
            owner,
            recipient,
            amount,
            allowance,
            api,
        ),
    }
}

/// What [`query`] guarantees: the answer to the question asked, from the
/// state as it stands; a question about an address the host does not
/// accept is refused.
pub open spec fn query_post(
    state: State,
    msg: QueryMsg,
    api: Api,
    r: Result<QueryResponse, StdError>,
) -> bool {
    match msg {
        QueryMsg::DexConfigs {  } => match r {
            Ok(QueryResponse::DexConfigs(res)) => dex_configs_post(state, Ok(res)),
            Ok(_) => false,
            Err(e) => dex_configs_post(state, Err(e)),
        },
        QueryMsg::Owner {  } => r == Ok::<QueryResponse, StdError>(
            QueryResponse::Owner(OwnerResponse { owner: state.owner }),
        ),
        QueryMsg::CollectTaxAddress {  } => r == Ok::<QueryResponse, StdError>(
            QueryResponse::CollectTaxAddress(
                CollectTaxAddressResponse { collect_tax_address: state.collect_tax_address },
            ),
        ),
        QueryMsg::TaxInfo {  } => r matches Ok(QueryResponse::TaxInfo(res))
            && res.buy_tax.atomics == rate_decimal(state.tax_info.buy_tax) && res.sell_tax.atomics
            == rate_decimal(state.tax_info.sell_tax) && res.transfer_tax.atomics == rate_decimal(
            state.tax_info.transfer_tax,
        ),
        QueryMsg::TaxFreeAddress { address } => match api.verdict(address@) {
            Some(e) => r == Err::<QueryResponse, StdError>(e),
            None => r == Ok::<QueryResponse, StdError>(
                QueryResponse::TaxFreeAddress(
                    TaxFreeAddressResponse { tax_free: state.exempt(address@) },
                ),
            ),
        },
        QueryMsg::Balance { address } => match api.verdict(address@) {
            Some(e) => r == Err::<QueryResponse, StdError>(e),
            None => r matches Ok(QueryResponse::Balance(res)) && res.balance
                == state.balances.balance_of(address@),
        },
    }
}

/// Answers one query. `api` is what the host makes of the address in the
/// question.
pub fn query(state: &State, _env: Env, msg: QueryMsg, api: &Api) -> (r: Result<
    QueryResponse,
    StdError,
>)
    requires
        state.wf(),
        api.wf(),
    ensures
        query_post(*state, msg, *api, r),
{
    match msg {
        QueryMsg::DexConfigs {  } => match dex_configs(state) {
            Ok(res) => Ok(QueryResponse::DexConfigs(res)),
            Err(e) => Err(e),
        },
        QueryMsg::Owner {  } => match owner(state) {
            Ok(res) => Ok(QueryResponse::Owner(res)),
            Err(e) => Err(e),
        },
        QueryMsg::CollectTaxAddress {  } => match collect_tax_address(state) {
            Ok(res) => Ok(QueryResponse::CollectTaxAddress(res)),
            Err(e) => Err(e),
        },
        QueryMsg::TaxInfo {  } => match tax_info(state) {
            Ok(res) => Ok(QueryResponse::TaxInfo(res)),
            Err(e) => Err(e),
        },
        QueryMsg::TaxFreeAddress { address } => match tax_free_address(state, address, api) {
            Ok(res) => Ok(QueryResponse::TaxFreeAddress(res)),
            Err(e) => Err(e),
        },
        QueryMsg::Balance { address } => match balance(state, address, api) {
            Ok(res) => Ok(QueryResponse::Balance(res)),
            Err(e) => Err(e),
        },
    }
}

/// What [`migrate`] guarantees: a state without the registry in its first
/// shape is refused and left alone; otherwise the registry in its present
/// shape holds the old pool as the first venue's only pool, the old router
/// as its router, and the second venue as the message describes it.
pub open spec fn migrate_post(
    pre: State,
    msg: MigrateMsg,
    post: State,
    r: Result<Response, StdError>,
) -> bool {
    match pre.config {
        None => post == pre && (r matches Err(StdError::NotFound { kind }) && kind@ == "config"@),
        Some(config) => {
            &&& post == State { dex_configs: post.dex_configs, ..pre }
            &&& post.dex_configs matches Some(dex) && dex.terraswap_router
                == config.terraswap_router && dex.terraswap_pairs@ == seq![config.terraswap_pair]
                && dex.terraport_router == msg.terraport_router && dex.terraport_pairs
                == msg.terraport_pairs
            &&& r matches Ok(res) && res.is_empty()
        },
    }
}

/// Brings the venue registry from its first shape, one pool and one
/// router, to its present one.
pub fn migrate(state: &mut State, _env: Env, msg: MigrateMsg) -> (r: Result<Response, StdError>)
    requires
        old(state).wf(),
    ensures
        final(state).wf(),
        migrate_post(*old(state), msg, *final(state), r),
{
    let dex_configs = match &state.config {
        Some(config) => {
            let mut terraswap_pairs: Vec<String> = Vec::new();
            terraswap_pairs.push(config.terraswap_pair.clone());
            proof {
                assert(terraswap_pairs@ =~= seq![config.terraswap_pair]);
            }
            DexConfigs {
                terraswap_pairs,
                terraswap_router: config.terraswap_router.clone(),
                terraport_pairs: msg.terraport_pairs,
                terraport_router: msg.terraport_router,
            }
        },
        None => {
            return Err(StdError::not_found("config"));
        },
    };
    state.dex_configs = Some(dex_configs);
    Ok(Response::default())
}

} // verus!
