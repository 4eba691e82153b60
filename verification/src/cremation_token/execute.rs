//! The token's state-changing handlers: wiring the venue registry, tax
//! administration, and the four ways of moving balances under tax.

use crate::cremation_token::error::ContractError;
use crate::cremation_token::helper::{
    classified, contains, is_buy, is_buy_operation, is_invalid_fraction, is_sell,
    is_sell_operation, lemma_buy_excludes_sell, listed, validate_tax_format, Operation,
};
use crate::cremation_token::msg::{AssetInfo, Dex, RouterExecuteMsg, SwapOperation};
use crate::cremation_token::state::{DexConfigs, FractionFormat, State, TaxInfo};
use crate::error::StdError;
use crate::host::{
    attr, first_of, Api, Attribute, CosmosMsg, Env, MessageInfo, Payload, Response, SubMsg,
    WasmMsg,
};
use crate::math::{amount_to_string, lemma_ratio_bounded, multiply_ratio, shows_amount};
use vstd::prelude::*;

verus! {

/// What the tax collector must hold before collected tax is swapped to the
/// native coin.
pub const SWAP_COLLECTED_TAX_THRESHOLD: u128 = 10_000_000_000;

/// The rate that applies to a movement from `from` to `to`. Exempt
/// addresses are never taxed. Otherwise a buy is taxed at the buy rate and a
/// sell at the sell rate, where that rate is set; a movement that no venue
/// rate applies to is taxed at the transfer rate if it is a plain transfer
/// (`is_transfer`) and that rate is set.
pub open spec fn applicable_rate(
    state: State,
    from: Seq<char>,
    to: Seq<char>,
    is_transfer: bool,
) -> Option<FractionFormat> {
    let dex = state.dex_configs.unwrap();
    let tax = state.tax_info;
    if state.exempt(from) || state.exempt(to) {
        None
    } else {
        match classified(dex, from, to) {
            Operation::Buy => if tax.buy_tax is Some {
                tax.buy_tax
            } else if is_transfer {
                tax.transfer_tax
            } else {
                None
            },
            Operation::Sell => if tax.sell_tax is Some {
                tax.sell_tax
            } else if is_transfer {
                tax.transfer_tax
            } else {
                None
            },
            Operation::Transfer => if is_transfer {
                tax.transfer_tax
            } else {
                None
            },
        }
    }
}

/// The tax on `amount` at `rate`, rounded down.
pub open spec fn tax_on(rate: FractionFormat, amount: u128) -> int {
    (amount * rate.numerator) / (rate.denominator as int)
}

/// The tax due on a movement of `amount` from `from` to `to`, if any.
pub open spec fn tax_due(
    state: State,
    from: Seq<char>,
    to: Seq<char>,
    amount: u128,
    is_transfer: bool,
) -> Option<u128> {
    match applicable_rate(state, from, to, is_transfer) {
        Some(rate) => Some(tax_on(rate, amount) as u128),
        None => None,
    }
}

/// The tax at a proper rate never exceeds the amount, so what the recipient
/// is credited and what the collector is credited add up to the amount
/// exactly.
pub proof fn lemma_tax_exact(rate: FractionFormat, amount: u128)
    requires
        rate.valid(),
    ensures
        0 <= tax_on(rate, amount) <= amount,
        (amount - tax_on(rate, amount)) + tax_on(rate, amount) == amount,
{
    lemma_ratio_bounded(amount, rate.numerator, rate.denominator);
    assert((amount * rate.numerator) / (rate.denominator as int) >= 0) by (nonlinear_arith)
        requires
            amount >= 0,
            rate.numerator >= 0,
            rate.denominator > 0,
    ;
}

/// Whether `addr` is flagged exempt.
pub fn is_tax_free(state: &State, addr: &String) -> (b: bool)
    requires
        state.wf(),
    ensures
        b == state.exempt(addr@),
{
    match state.tax_free_addresses.get(addr) {
        Some(flag) => *flag,
        None => false,
    }
}

/// The tax at `rate` on `amount`.
fn tax_at(rate: &FractionFormat, amount: u128) -> (t: u128)
    requires
        rate.valid(),
    ensures
        t == tax_on(*rate, amount),
        t <= amount,
{
    proof {
        lemma_tax_exact(*rate, amount);
    }
    multiply_ratio(amount, rate.numerator, rate.denominator)
}

/// The tax due on a movement of `amount` from `from` to `to`; `None` where
/// no tax applies. `is_transfer` says whether the movement is a plain
/// transfer rather than a send to a contract.
pub fn compute_tax(state: &State, from: &String, to: &String, amount: u128, is_transfer: bool) -> (r:
    Option<u128>)
    requires
        state.wf(),
        state.dex_configs is Some,
    ensures
        r == tax_due(*state, from@, to@, amount, is_transfer),
        r matches Some(t) ==> t <= amount,
{
    let dex_configs = match &state.dex_configs {
        Some(dex) => dex,
        None => {
            return None;
        },
    };
    let tax_info = state.tax_info;
    if is_tax_free(state, from) || is_tax_free(state, to) {
        return None;
    }
    proof {
        lemma_buy_excludes_sell(*dex_configs, from@, to@);
    }
    let is_buy = tax_info.buy_tax.is_some() && is_buy_operation(dex_configs, from, to);
    let is_sell = tax_info.sell_tax.is_some() && is_sell_operation(dex_configs, from, to);
    let is_transfer = tax_info.transfer_tax.is_some() && is_transfer;
    if is_transfer && !is_buy && !is_sell {
        match tax_info.transfer_tax {
            Some(tax) => Some(tax_at(&tax, amount)),
            None => None,
        }
    } else if is_buy && !is_sell {
        match tax_info.buy_tax {
            Some(tax) => Some(tax_at(&tax, amount)),
            None => None,
        }
    } else if !is_buy && is_sell {
        match tax_info.sell_tax {
            Some(tax) => Some(tax_at(&tax, amount)),
            None => None,
        }
    } else {
        None
    }
}

/// Whether a movement of `amount` out of `from` with the tax `tax` can be
/// booked: the sender holds enough, and the tax is no more than the amount.
pub open spec fn can_move(pre: State, from: Seq<char>, amount: u128, tax: Option<u128>) -> bool {
    pre.balances.balance_of(from) >= amount && (tax matches Some(t) ==> t <= amount)
}

/// What `a` holds after `amount` has moved from `from` to `to` under the
/// tax `tax`: the sender is debited the amount, the recipient credited the
/// amount less tax, the collector credited the tax.
pub open spec fn balance_after(
    pre: State,
    from: Seq<char>,
    to: Seq<char>,
    amount: u128,
    tax: Option<u128>,
    a: Seq<char>,
) -> int {
    let t = match tax {
        Some(t) => t,
        None => 0u128,
    };
    pre.balances.balance_of(a) - (if a == from {
        amount
    } else {
        0u128
    }) + (if a == to {
        amount - t
    } else {
        0
    }) + (if tax is Some && a == pre.collect_tax_address@ {
        t
    } else {
        0u128
    })
}

/// Whether `post` is `pre` after the movement: only the balances differ,
/// each account holds what [`balance_after`] says, and all together hold
/// what they held before.
pub open spec fn moved(
    pre: State,
    from: Seq<char>,
    to: Seq<char>,
    amount: u128,
    tax: Option<u128>,
    post: State,
) -> bool {
    &&& post == State { balances: post.balances, ..pre }
    &&& post.balances.wf()
    &&& post.balances.total() == pre.balances.total()
    &&& forall|a: Seq<char>| #[trigger]
        post.balances.balance_of(a) == balance_after(pre, from, to, amount, tax, a)
}

/// Books a movement of `amount` from `from` to `to`. With a tax, the
/// recipient is credited the amount less the tax and the tax collector the
/// tax. Fails, changing nothing, when the sender holds too little or the tax
/// exceeds the amount.
pub fn update_balance_with_tax(
    state: &mut State,
    from: &String,
    to: &String,
    amount: u128,
    tax_amount: Option<u128>,
) -> (r: Result<(), StdError>)
    requires
        old(state).wf(),
    ensures
        final(state).wf(),
        r is Ok <==> can_move(*old(state), from@, amount, tax_amount),
        r is Ok ==> moved(*old(state), from@, to@, amount, tax_amount, *final(state)),
        r is Err ==> *final(state) == *old(state) && r == Err::<(), StdError>(
            StdError::Overflow {},
        ),
{
    if let Some(tax) = tax_amount {
        if tax > amount {
            return Err(StdError::overflow());
        }
    }
    proof {
        state.balances.lemma_balance_bounded(from@);
    }
    match state.balances.debit(from, amount) {
        Ok(()) => {},
        Err(e) => {
            return Err(e);
        },
    }
    match tax_amount {
        Some(tax) => {
            let received_amount: u128 = amount - tax;
            state.balances.credit(to, received_amount);
            let collecting_tax_addr = state.collect_tax_address.clone();
            state.balances.credit(&collecting_tax_addr, tax);
        },
        None => {
            state.balances.credit(to, amount);
        },
    }
    Ok(())
}

/// Whether `e` says that the venue registry has not been wired.
pub open spec fn is_no_registry(e: ContractError) -> bool {
    e.is_not_found("dex_configs"@)
}

/// The refusal for a state without venue registry.
fn no_registry() -> (e: ContractError)
    ensures
        is_no_registry(e),
{
    ContractError::Std(StdError::not_found("dex_configs"))
}

/// Why the host refuses a registry, if it does: the first address it does
/// not accept, going through the first venue's router and pools and then the
/// second's.
pub open spec fn registry_fault(configs: DexConfigs, api: Api) -> Option<StdError> {
    first_of(
        api.verdict(configs.terraswap_router@),
        first_of(
            api.verdict_of_all(configs.terraswap_pairs@),
            first_of(
                api.verdict(configs.terraport_router@),
                api.verdict_of_all(configs.terraport_pairs@),
            ),
        ),
    )
}

/// What [`set_dex_configs`] guarantees.
pub open spec fn set_dex_configs_post(
    pre: State,
    info: MessageInfo,
    configs: DexConfigs,
    api: Api,
    post: State,
    r: Result<Response, ContractError>,
) -> bool {
    if pre.creator@ != info.sender@ {
        post == pre && r == Err::<Response, ContractError>(ContractError::Unauthorized {})
    } else if pre.dex_configs is Some {
        post == pre && (r matches Err(e) && e.is_generic("Config has already initialized"@))
    } else if registry_fault(configs, api) is Some {
        post == pre && r == Err::<Response, ContractError>(ContractError::Std(registry_fault(configs, api).unwrap()))
    } else {
        post == State { dex_configs: Some(configs), ..pre } && (r matches Ok(res) && res.is_empty())
    }
}

/// Wires the venue registry. Only the creator may, and only once: a second
/// attempt fails and overwrites nothing.
pub fn set_dex_configs(
    state: &mut State,
    _env: Env,
    info: MessageInfo,
    terraswap_router: String,
    terraswap_pairs: Vec<String>,
    terraport_router: String,
    terraport_pairs: Vec<String>,
    api: &Api,
) -> (r: Result<Response, ContractError>)
    requires
        old(state).wf(),
        api.wf(),
    ensures
        final(state).wf(),
        set_dex_configs_post(
            *old(state),
            info,
            DexConfigs { terraswap_router, terraswap_pairs, terraport_router, terraport_pairs },
            *api,
            *final(state),
            r,
        ),
{
    if info.sender != state.creator {
        return Err(ContractError::Unauthorized {});
    }
    if state.dex_configs.is_some() {
        return Err(ContractError::Std(StdError::generic_err("Config has already initialized")));
    }
    match api.addr_validate(&terraswap_router) {
        Ok(_) => {},
        Err(e) => {
            return Err(ContractError::Std(e));
        },
    }
    match api.validate_all(&terraswap_pairs) {
        Ok(()) => {},
        Err(e) => {
            return Err(ContractError::Std(e));
        },
    }
    match api.addr_validate(&terraport_router) {
        Ok(_) => {},
        Err(e) => {
            return Err(ContractError::Std(e));
        },
    }
    match api.validate_all(&terraport_pairs) {
        Ok(()) => {},
        Err(e) => {
            return Err(ContractError::Std(e));
        },
    }
    state.dex_configs = Some(
        DexConfigs { terraswap_router, terraswap_pairs, terraport_router, terraport_pairs },
    );
    Ok(Response::new())
}

/// The registry `dex` with `pairs` added to the pools of `venue`.
pub open spec fn with_pairs(dex: DexConfigs, venue: Dex, pairs: Seq<String>, after: DexConfigs) -> bool {
    &&& after.terraswap_router == dex.terraswap_router
    &&& after.terraport_router == dex.terraport_router
    &&& after.terraswap_pairs@ == dex.terraswap_pairs@ + (if venue == Dex::Terraswap {
        pairs
    } else {
        Seq::empty()
    })
    &&& after.terraport_pairs@ == dex.terraport_pairs@ + (if venue == Dex::Terraport {
        pairs
    } else {
        Seq::empty()
    })
}

/// What [`add_new_pairs`] guarantees.
pub open spec fn add_new_pairs_post(
    pre: State,
    info: MessageInfo,
    dex: Dex,
    pairs_addresses: Vec<String>,
    api: Api,
    post: State,
    r: Result<Response, ContractError>,
) -> bool {
    if pre.owner@ != info.sender@ {
        post == pre && r == Err::<Response, ContractError>(ContractError::Unauthorized {})
    } else if api.verdict_of_all(pairs_addresses@) is Some {
        post == pre && r == Err::<Response, ContractError>(ContractError::Std(api.verdict_of_all(pairs_addresses@).unwrap()))
    } else if pre.dex_configs is None {
        post == pre && (r matches Err(e) && is_no_registry(e))
    } else {
        &&& post == State { dex_configs: post.dex_configs, ..pre }
        &&& post.dex_configs matches Some(after) && with_pairs(
            pre.dex_configs.unwrap(),
            dex,
            pairs_addresses@,
            after,
        )
        &&& r matches Ok(res) && res.is_empty()
    }
}

/// Adds pools to one venue of the registry. Only the owner may.
pub fn add_new_pairs(
    state: &mut State,
    _env: Env,
    info: MessageInfo,
    dex: Dex,
    pairs_addresses: Vec<String>,
    api: &Api,
) -> (r: Result<Response, ContractError>)
    requires
        old(state).wf(),
        api.wf(),
    ensures
        final(state).wf(),
        add_new_pairs_post(*old(state), info, dex, pairs_addresses, *api, *final(state), r),
{
    if info.sender != state.owner {
        return Err(ContractError::Unauthorized {});
    }
    match api.validate_all(&pairs_addresses) {
        Ok(()) => {},
        Err(e) => {
            return Err(ContractError::Std(e));
        },
    }
    let mut pairs_addresses = pairs_addresses;
    match state.dex_configs.take() {
        Some(configs) => {
            let mut dex_configs = configs;
            match dex {
                Dex::Terraswap => {
                    dex_configs.terraswap_pairs.append(&mut pairs_addresses);
                    proof {
                        assert(dex_configs.terraport_pairs@ =~= configs.terraport_pairs@
                            + Seq::<String>::empty());
                    }
                },
                Dex::Terraport => {
                    dex_configs.terraport_pairs.append(&mut pairs_addresses);
                    proof {
                        assert(dex_configs.terraswap_pairs@ =~= configs.terraswap_pairs@
                            + Seq::<String>::empty());
                    }
                },
            }
            state.dex_configs = Some(dex_configs);
            Ok(Response::new())
        },
        None => Err(no_registry()),
    }
}

/// The first `n` entries of `list` without those that are `addr`.
pub open spec fn without(list: Seq<String>, addr: Seq<char>, n: int) -> Seq<String>
    decreases n,
{
    if n <= 0 {
        Seq::empty()
    } else if list[n - 1]@ == addr {
        without(list, addr, n - 1)
    } else {
        without(list, addr, n - 1).push(list[n - 1])
    }
}

/// `list` without every entry that is `addr`.
fn strip(list: &Vec<String>, addr: &String) -> (r: Vec<String>)
    ensures
        r@ == without(list@, addr@, list@.len() as int),
{
    let mut r: Vec<String> = Vec::new();
    let mut i: usize = 0;
    while i < list.len()
        invariant
            i <= list@.len(),
            r@ == without(list@, addr@, i as int),
        decreases list@.len() - i,
    {
        if list[i] != *addr {
            r.push(list[i].clone());
        }
        i += 1;
    }
    r
}

/// What [`remove_pair`] guarantees.
pub open spec fn remove_pair_post(
    pre: State,
    info: MessageInfo,
    dex: Dex,
    pair_address: String,
    api: Api,
    post: State,
    r: Result<Response, ContractError>,
) -> bool {
    if pre.owner@ != info.sender@ {
        post == pre && r == Err::<Response, ContractError>(ContractError::Unauthorized {})
    } else if api.verdict(pair_address@) is Some {
        post == pre && r == Err::<Response, ContractError>(ContractError::Std(api.verdict(pair_address@).unwrap()))
    } else if pre.dex_configs is None {
        post == pre && (r matches Err(e) && is_no_registry(e))
    } else {
        let before = pre.dex_configs.unwrap();
        &&& post == State { dex_configs: post.dex_configs, ..pre }
        &&& post.dex_configs matches Some(after) && after.terraswap_router
            == before.terraswap_router && after.terraport_router == before.terraport_router
            && after.terraswap_pairs@ == (if dex == Dex::Terraswap {
            without(before.terraswap_pairs@, pair_address@, before.terraswap_pairs@.len() as int)
        } else {
            before.terraswap_pairs@
        }) && after.terraport_pairs@ == (if dex == Dex::Terraport {
            without(before.terraport_pairs@, pair_address@, before.terraport_pairs@.len() as int)
        } else {
            before.terraport_pairs@
        })
        &&& r matches Ok(res) && res.is_empty()
    }
}

/// Takes a pool out of one venue of the registry, wherever it is listed
/// there. Only the owner may.
pub fn remove_pair(
    state: &mut State,
    _env: Env,
    info: MessageInfo,
    dex: Dex,
    pair_address: String,
    api: &Api,
) -> (r: Result<Response, ContractError>)
    requires
        old(state).wf(),
        api.wf(),
    ensures
        final(state).wf(),
        remove_pair_post(*old(state), info, dex, pair_address, *api, *final(state), r),
{
    if info.sender != state.owner {
        return Err(ContractError::Unauthorized {});
    }
    match api.addr_validate(&pair_address) {
        Ok(_) => {},
        Err(e) => {
            return Err(ContractError::Std(e));
        },
    }
    match state.dex_configs.take() {
        Some(configs) => {
            let mut dex_configs = configs;
            match dex {
                Dex::Terraswap => {
                    dex_configs.terraswap_pairs = strip(&dex_configs.terraswap_pairs, &pair_address);
                },
                Dex::Terraport => {
                    dex_configs.terraport_pairs = strip(&dex_configs.terraport_pairs, &pair_address);
                },
            }
            state.dex_configs = Some(dex_configs);
            Ok(Response::new())
        },
        None => Err(no_registry()),
    }
}

/// What [`update_owner`] guarantees.
pub open spec fn update_owner_post(
    pre: State,
    info: MessageInfo,
    new_owner: String,
    api: Api,
    post: State,
    r: Result<Response, ContractError>,
) -> bool {
    if pre.owner@ != info.sender@ {
        post == pre && r == Err::<Response, ContractError>(ContractError::Unauthorized {})
    } else if api.verdict(new_owner@) is Some {
        post == pre && r == Err::<Response, ContractError>(ContractError::Std(api.verdict(new_owner@).unwrap()))
    } else {
        post == State { owner: new_owner, ..pre } && (r matches Ok(res) && res.is_empty())
    }
}

/// Hands the token to a new owner. Only the owner may.
pub fn update_owner(
    state: &mut State,
    _env: Env,
    info: MessageInfo,
    new_owner: String,
    api: &Api,
) -> (r: Result<Response, ContractError>)
    requires
        old(state).wf(),
        api.wf(),
    ensures
        final(state).wf(),
        update_owner_post(*old(state), info, new_owner, *api, *final(state), r),
{
    if info.sender != state.owner {
        return Err(ContractError::Unauthorized {});
    }
    match api.addr_validate(&new_owner) {
        Ok(_) => {},
        Err(e) => {
            return Err(ContractError::Std(e));
        },
    }
    state.owner = new_owner;
    Ok(Response::new())
}

/// What [`update_collecting_tax_address`] guarantees.
pub open spec fn update_collecting_tax_address_post(
    pre: State,
    info: MessageInfo,
    new_collect_tax_addr: String,
    api: Api,
    post: State,
    r: Result<Response, ContractError>,
) -> bool {
    if pre.owner@ != info.sender@ {
        post == pre && r == Err::<Response, ContractError>(ContractError::Unauthorized {})
    } else if api.verdict(new_collect_tax_addr@) is Some {
        post == pre && r == Err::<Response, ContractError>(ContractError::Std(api.verdict(new_collect_tax_addr@).unwrap()))
    } else if pre.collect_tax_address@ == new_collect_tax_addr@ {
        post == pre && (r matches Err(e) && e.is_generic("New address must be different"@))
    } else {
        &&& post == State {
            collect_tax_address: new_collect_tax_addr,
            tax_free_addresses: post.tax_free_addresses,
            ..pre
        }
        &&& post.tax_free_addresses.model() == pre.tax_free_addresses.model().insert(
            new_collect_tax_addr@,
            true,
        )
        &&& r matches Ok(res) && res.is_empty()
    }
}

/// Names another account to collect the tax and exempts it from tax. Only
/// the owner may, and the account must differ from the present one.
pub fn update_collecting_tax_address(
    state: &mut State,
    _env: Env,
    info: MessageInfo,
    new_collect_tax_addr: String,
    api: &Api,
) -> (r: Result<Response, ContractError>)
    requires
        old(state).wf(),
        api.wf(),
    ensures
        final(state).wf(),
        update_collecting_tax_address_post(
            *old(state),
            info,
            new_collect_tax_addr,
            *api,
            *final(state),
            r,
        ),
{
    if info.sender != state.owner {
        return Err(ContractError::Unauthorized {});
    }
    match api.addr_validate(&new_collect_tax_addr) {
        Ok(_) => {},
        Err(e) => {
            return Err(ContractError::Std(e));
        },
    }
    if state.collect_tax_address == new_collect_tax_addr {
        return Err(ContractError::Std(StdError::generic_err("New address must be different")));
    }
    state.tax_free_addresses.insert(new_collect_tax_addr.clone(), true);
    state.collect_tax_address = new_collect_tax_addr;
    Ok(Response::new())
}

/// What [`update_tax_info`] guarantees.
pub open spec fn update_tax_info_post(
    pre: State,
    info: MessageInfo,
    tax_info: TaxInfo,
    post: State,
    r: Result<Response, ContractError>,
) -> bool {
    if pre.owner@ != info.sender@ {
        post == pre && r == Err::<Response, ContractError>(ContractError::Unauthorized {})
    } else if !tax_info.valid() {
        post == pre && (r matches Err(e) && is_invalid_fraction(e))
    } else {
        post == State { tax_info, ..pre } && (r matches Ok(res) && res.is_empty())
    }
}

/// Sets the three tax rates. Only the owner may, and every rate given must
/// be a proper rate.
pub fn update_tax_info(
    state: &mut State,
    _env: Env,
    info: MessageInfo,
    buy_tax: Option<FractionFormat>,
    sell_tax: Option<FractionFormat>,
    transfer_tax: Option<FractionFormat>,
) -> (r: Result<Response, ContractError>)
    requires
        old(state).wf(),
    ensures
        final(state).wf(),
        update_tax_info_post(
            *old(state),
            info,
            TaxInfo { buy_tax, sell_tax, transfer_tax },
            *final(state),
            r,
        ),
{
    if info.sender != state.owner {
        return Err(ContractError::Unauthorized {});
    }
    match validate_tax_format(&buy_tax) {
        Ok(()) => {},
        Err(e) => {
            return Err(e);
        },
    }
    match validate_tax_format(&sell_tax) {
        Ok(()) => {},
        Err(e) => {
            return Err(e);
        },
    }
    match validate_tax_format(&transfer_tax) {
        Ok(()) => {},
        Err(e) => {
            return Err(e);
        },
    }
    state.tax_info = TaxInfo { buy_tax, sell_tax, transfer_tax };
    Ok(Response::new())
}

/// What [`set_tax_free_address`] guarantees.
pub open spec fn set_tax_free_address_post(
    pre: State,
    info: MessageInfo,
    address: String,
    tax_free: bool,
    api: Api,
    post: State,
    r: Result<Response, ContractError>,
) -> bool {
    if pre.owner@ != info.sender@ {
        post == pre && r == Err::<Response, ContractError>(ContractError::Unauthorized {})
    } else if api.verdict(address@) is Some {
        post == pre && r == Err::<Response, ContractError>(ContractError::Std(api.verdict(address@).unwrap()))
    } else {
        &&& post == State { tax_free_addresses: post.tax_free_addresses, ..pre }
        &&& post.tax_free_addresses.model() == pre.tax_free_addresses.model().insert(
            address@,
            tax_free,
        )
        &&& r matches Ok(res) && res.is_empty()
    }
}

/// Flags an address as exempt from tax, or takes the flag back. Only the
/// owner may.
pub fn set_tax_free_address(
    state: &mut State,
    _env: Env,
    info: MessageInfo,
    address: String,
    tax_free: bool,
    api: &Api,
) -> (r: Result<Response, ContractError>)
    requires
        old(state).wf(),
        api.wf(),
    ensures
        final(state).wf(),
        set_tax_free_address_post(*old(state), info, address, tax_free, *api, *final(state), r),
{
    if info.sender != state.owner {
        return Err(ContractError::Unauthorized {});
    }
    match api.addr_validate(&address) {
        Ok(_) => {},
        Err(e) => {
            return Err(ContractError::Std(e));
        },
    }
    state.tax_free_addresses.insert(address, tax_free);
    Ok(Response::new())
}

/// The venue that a sell to `to` goes to: the first of the two that lists
/// `to` as a pool or has it as its router.
pub open spec fn venue_of(dex: DexConfigs, to: Seq<char>) -> Option<Dex> {
    if listed(dex.terraswap_pairs@, to) || to == dex.terraswap_router@ {
        Some(Dex::Terraswap)
    } else if listed(dex.terraport_pairs@, to) || to == dex.terraport_router@ {
        Some(Dex::Terraport)
    } else {
        None
    }
}

/// Whether a movement from `from` to `to` sets off a swap of the collected
/// tax: it is a sell, and the collector holds the threshold or more.
pub open spec fn swap_triggers(state: State, from: Seq<char>, to: Seq<char>) -> bool {
    &&& state.dex_configs is Some
    &&& is_sell(state.dex_configs.unwrap(), from, to)
    &&& venue_of(state.dex_configs.unwrap(), to) is Some
    &&& state.balances.balance_of(state.collect_tax_address@) >= SWAP_COLLECTED_TAX_THRESHOLD
}

/// What the token contract may spend out of `owner`'s account.
pub open spec fn self_allowance(state: State, owner: Seq<char>) -> u128 {
    if state.self_allowances.model().contains_key(owner) {
        state.self_allowances.model()[owner]
    } else {
        0
    }
}

/// Whether `op` is the one hop that swaps the token at `token` to the
/// native coin `uluna` on `venue`.
pub open spec fn is_tax_hop(op: SwapOperation, venue: Dex, token: Seq<char>) -> bool {
    match venue {
        Dex::Terraswap => op matches SwapOperation::TerraSwap { offer_asset_info, ask_asset_info }
            && offer_asset_info.is_token(token) && ask_asset_info.is_native("uluna"@),
        Dex::Terraport => op matches SwapOperation::TerraPort { offer_asset_info, ask_asset_info }
            && offer_asset_info.is_token(token) && ask_asset_info.is_native("uluna"@),
    }
}

/// Whether `m` is the token's call to itself that sends `amount` out of the
/// collector's account to `router`, to be swapped on `venue` with the
/// proceeds going back to the collector.
pub open spec fn is_tax_swap(
    m: CosmosMsg,
    token: Seq<char>,
    collector: Seq<char>,
    router: Seq<char>,
    venue: Dex,
    amount: u128,
) -> bool {
    m matches CosmosMsg::Wasm(
        WasmMsg::Execute {
            contract_addr,
            msg: Payload::Cw20SendFrom { owner, contract, amount: sent, msg: request },
            funds,
        },
    ) && contract_addr@ == token && funds@.len() == 0 && owner@ == collector && contract@ == router
        && sent == amount && (request matches RouterExecuteMsg::ExecuteSwapOperations {
        operations,
        minimum_receive,
        to,
        deadline,
    } && operations@.len() == 1 && is_tax_hop(operations@[0], venue, token) && minimum_receive
        is None && deadline is None && (to matches Some(t) && t@ == collector))
}

/// The router of `venue`.
pub open spec fn router_of(dex: DexConfigs, venue: Dex) -> String {
    match venue {
        Dex::Terraswap => dex.terraswap_router,
        Dex::Terraport => dex.terraport_router,
    }
}

/// What [`swap_collected_tax_to_native`] guarantees. Without registry it
/// fails. Where no swap is set off nothing changes and no message is made.
/// Otherwise the contract's allowance over the collector's account grows by
/// all the collector holds, and the message sends exactly that to the
/// venue's router; if the allowance would leave its range the call fails
/// and nothing changes.
pub open spec fn swap_collected_tax_post(
    pre: State,
    env: Env,
    from: Seq<char>,
    to: Seq<char>,
    post: State,
    r: Result<Option<CosmosMsg>, ContractError>,
) -> bool {
    let collector = pre.collect_tax_address@;
    let collected = pre.balances.balance_of(collector);
    if pre.dex_configs is None {
        post == pre && (r matches Err(e) && is_no_registry(e))
    } else if !swap_triggers(pre, from, to) {
        post == pre && r == Ok::<Option<CosmosMsg>, ContractError>(None)
    } else if self_allowance(pre, collector) + collected > u128::MAX {
        post == pre && (r matches Err(e) && e.is_overflow())
    } else {
        let dex = pre.dex_configs.unwrap();
        let venue = venue_of(dex, to).unwrap();
        &&& post == State { self_allowances: post.self_allowances, ..pre }
        &&& post.self_allowances.model() == pre.self_allowances.model().insert(
            collector,
            (self_allowance(pre, collector) + collected) as u128,
        )
        &&& r matches Ok(Some(m)) && is_tax_swap(
            m,
            env.contract.address@,
            collector,
            router_of(dex, venue)@,
            venue,
            collected as u128,
        )
    }
}

/// After a sell, swaps the tax collected so far to the native coin if the
/// collector holds the threshold or more: gives the contract an allowance
/// over the collector's whole balance and makes the message by which the
/// contract sends that balance to the venue's router.
pub fn swap_collected_tax_to_native(state: &mut State, env: &Env, from: &String, to: &String) -> (r:
    Result<Option<CosmosMsg>, ContractError>)
    requires
        old(state).wf(),
    ensures
        final(state).wf(),
        swap_collected_tax_post(*old(state), *env, from@, to@, *final(state), r),
{
    let dex_configs = match &state.dex_configs {
        Some(dex) => dex,
        None => {
            return Err(no_registry());
        },
    };
    if !is_sell_operation(dex_configs, from, to) {
        return Ok(None);
    }
    let token = env.contract.address.clone();
    let offer_asset_info = AssetInfo::Token { contract_addr: token.clone() };
    let ask_asset_info = AssetInfo::NativeToken { denom: "uluna".to_owned() };
    let router;
    let swap_operation;
    let ghost venue;
    if contains(&dex_configs.terraswap_pairs, to) || *to == dex_configs.terraswap_router {
        router = dex_configs.terraswap_router.clone();
        swap_operation = SwapOperation::TerraSwap { offer_asset_info, ask_asset_info };
        proof {
            venue = Dex::Terraswap;
        }
    } else if contains(&dex_configs.terraport_pairs, to) || *to == dex_configs.terraport_router {
        router = dex_configs.terraport_router.clone();
        swap_operation = SwapOperation::TerraPort { offer_asset_info, ask_asset_info };
        proof {
            venue = Dex::Terraport;
        }
    } else {
        return Ok(None);
    }
    let collect_tax_addr = state.collect_tax_address.clone();
    let collected_tax_amount: u128 = state.balances.balance(&collect_tax_addr);
    if collected_tax_amount < SWAP_COLLECTED_TAX_THRESHOLD {
        return Ok(None);
    }
    let allowed: u128 = match state.self_allowances.get(&collect_tax_addr) {
        Some(a) => *a,
        None => 0,
    };
    let allowance: u128 = match allowed.checked_add(collected_tax_amount) {
        Some(a) => a,
        None => {
            return Err(ContractError::Std(StdError::overflow()));
        },
    };
    state.self_allowances.insert(collect_tax_addr.clone(), allowance);

    let mut operations: Vec<SwapOperation> = Vec::new();
    operations.push(swap_operation);
    let request = RouterExecuteMsg::ExecuteSwapOperations {
        operations,
        to: Some(collect_tax_addr.clone()),
        minimum_receive: None,
        deadline: None,
    };
    let msg = CosmosMsg::Wasm(
        WasmMsg::Execute {
            contract_addr: token,
            msg: Payload::Cw20SendFrom {
                owner: collect_tax_addr,
                contract: router,
                amount: collected_tax_amount,
                msg: request,
            },
            funds: Vec::new(),
        },
    );
    Ok(Some(msg))
}

/// Whether `attributes` reports a movement: the action, sender and
/// recipient, the spender where one acted (`by`), the amount, the tax where
/// one was taken, and last the note of a tax swap where one was set off.
pub open spec fn movement_logged(
    attributes: Seq<Attribute>,
    action: Seq<char>,
    from: Seq<char>,
    to: Seq<char>,
    by: Option<Seq<char>>,
    amount: u128,
    tax: Option<u128>,
    swapped: bool,
) -> bool {
    let b: int = if by is Some {
        1
    } else {
        0
    };
    let t: int = if tax is Some {
        1
    } else {
        0
    };
    let w: int = if swapped {
        1
    } else {
        0
    };
    &&& attributes.len() == 4 + b + t + w
    &&& attributes[0]@ == ("action"@, action)
    &&& attributes[1]@ == ("from"@, from)
    &&& attributes[2]@ == ("to"@, to)
    &&& by is Some ==> attributes[3]@ == ("by"@, by.unwrap())
    &&& attributes[3 + b].key@ == "amount"@
    &&& shows_amount(attributes[3 + b].value, amount)
    &&& tax is Some ==> attributes[4 + b].key@ == "cw20_tax_amount"@ && shows_amount(
        attributes[4 + b].value,
        tax.unwrap(),
    )
    &&& swapped ==> attributes[4 + b + t]@ == ("action"@, "collected_tax_swap"@)
}

/// The attributes of a movement, before any note of a tax swap.
fn movement_attrs(
    action: &str,
    from: &String,
    to: &String,
    by: Option<&String>,
    amount: u128,
    tax: Option<u128>,
) -> (attrs: Vec<Attribute>)
    ensures
        movement_logged(
            attrs@,
            action@,
            from@,
            to@,
            match by {
                Some(b) => Some(b@),
                None => None,
            },
            amount,
            tax,
            false,
        ),
{
    let mut attrs: Vec<Attribute> = Vec::new();
    attrs.push(attr("action", action.to_owned()));
    attrs.push(attr("from", from.clone()));
    attrs.push(attr("to", to.clone()));
    match by {
        Some(b) => {
            attrs.push(attr("by", b.clone()));
        },
        None => {},
    }
    attrs.push(attr("amount", amount_to_string(amount)));
    match tax {
        Some(t) => {
            attrs.push(attr("cw20_tax_amount", amount_to_string(t)));
        },
        None => {},
    }
    attrs
}

/// What a plain transfer guarantees, by whoever's allowance it is made:
/// `from` is the account debited and `by` the spender where the transfer is
/// made on an allowance, whose deduction by the base ledger came out as
/// `allowance`, and `refused` is the host's reason for refusing one of the
/// addresses, if it refuses one. The checks come in this order: the
/// addresses, the registry, the allowance, the funds.
pub open spec fn transfer_post(
    pre: State,
    action: Seq<char>,
    from: Seq<char>,
    to: Seq<char>,
    by: Option<Seq<char>>,
    amount: u128,
    allowance: Result<(), ContractError>,
    refused: Option<StdError>,
    post: State,
    r: Result<Response, ContractError>,
) -> bool {
    if refused is Some {
        post == pre && r == Err::<Response, ContractError>(ContractError::Std(refused.unwrap()))
    } else if pre.dex_configs is None {
        post == pre && (r matches Err(e) && is_no_registry(e))
    } else if allowance is Err {
        allowance matches Err(e) && post == pre && r == Err::<Response, ContractError>(e)
    } else {
        let tax = tax_due(pre, from, to, amount, true);
        if !can_move(pre, from, amount, tax) {
            post == pre && (r matches Err(e) && e.is_overflow())
        } else {
            &&& moved(pre, from, to, amount, tax, post)
            &&& r matches Ok(res) && res.messages@.len() == 0 && movement_logged(
                res.attributes@,
                action,
                from,
                to,
                by,
                amount,
                tax,
                false,
            )
        }
    }
}

/// Moves `amount` from the sender to `recipient`, under tax.
pub fn transfer(
    state: &mut State,
    _env: Env,
    info: MessageInfo,
    recipient: String,
    amount: u128,
    api: &Api,
) -> (r: Result<Response, ContractError>)
    requires
        old(state).wf(),
        api.wf(),
    ensures
        final(state).wf(),
        transfer_post(
            *old(state),
            "transfer"@,
            info.sender@,
            recipient@,
            None,
            amount,
            Ok(()),
            api.verdict(recipient@),
            *final(state),
            r,
        ),
{
    match api.addr_validate(&recipient) {
        Ok(_) => {},
        Err(e) => {
            return Err(ContractError::Std(e));
        },
    }
    if state.dex_configs.is_none() {
        return Err(no_registry());
    }
    let sender_addr = info.sender;
    let tax_amount = compute_tax(state, &sender_addr, &recipient, amount, true);
    match update_balance_with_tax(state, &sender_addr, &recipient, amount, tax_amount) {
        Ok(()) => {},
        Err(e) => {
            return Err(ContractError::Std(e));
        },
    }
    let attributes = movement_attrs("transfer", &sender_addr, &recipient, None, amount, tax_amount);
    Ok(Response { messages: Vec::new(), attributes })
}

/// Moves `amount` from `owner` to `recipient` on the sender's allowance,
/// under tax. `allowance` is what the base ledger answered when asked to
/// deduct `amount` from that allowance.
pub fn transfer_from(
    state: &mut State,
    _env: Env,
    info: MessageInfo,
    owner: String,
    recipient: String,
    amount: u128,
    allowance: Result<(), ContractError>,
    api: &Api,
) -> (r: Result<Response, ContractError>)
    requires
        old(state).wf(),
        api.wf(),
    ensures
        final(state).wf(),
        transfer_post(
            *old(state),
            "transfer_from"@,
            owner@,
            recipient@,
            Some(info.sender@),
            amount,
            allowance,
            first_of(api.verdict(recipient@), api.verdict(owner@)),
            *final(state),
            r,
        ),
{
    match api.addr_validate(&recipient) {
        Ok(_) => {},
        Err(e) => {
            return Err(ContractError::Std(e));
        },
    }
    match api.addr_validate(&owner) {
        Ok(_) => {},
        Err(e) => {
            return Err(ContractError::Std(e));
        },
    }
    if state.dex_configs.is_none() {
        return Err(no_registry());
    }
    let tax_amount = compute_tax(state, &owner, &recipient, amount, true);
    match allowance {
        Ok(()) => {},
        Err(e) => {
            return Err(e);
        },
    }
    match update_balance_with_tax(state, &owner, &recipient, amount, tax_amount) {
        Ok(()) => {},
        Err(e) => {
            return Err(ContractError::Std(e));
        },
    }
    let attributes = movement_attrs(
        "transfer_from",
        &owner,
        &recipient,
        Some(&info.sender),
        amount,
        tax_amount,
    );
    Ok(Response { messages: Vec::new(), attributes })
}

/// Whether `m` tells `contract` that it received `amount` from `sender`,
/// with `msg` riding along.
pub open spec fn is_receive_notice(
    m: SubMsg,
    contract: Seq<char>,
    sender: Seq<char>,
    amount: u128,
    msg: Vec<u8>,
) -> bool {
    &&& m.is_plain()
    &&& m.msg matches CosmosMsg::Wasm(
        WasmMsg::Execute {
            contract_addr,
            msg: Payload::Cw20Receive { sender: s, amount: a, msg: body },
            funds,
        },
    ) && contract_addr@ == contract && funds@.len() == 0 && s@ == sender && a == amount && body
        == msg
}

/// What a send guarantees: the movement of a transfer, taxed as a send, then
/// the notice to the receiving contract, then the swap of collected tax
/// where the movement is a sell that leaves the collector with the
/// threshold or more. `named` is the sender the notice names, and
/// `refused` the host's reason for refusing one of the addresses, if it
/// refuses one. The checks come in this order: the addresses, the registry,
/// the allowance, the funds, the range of the contract's allowance over the
/// collector's account.
pub open spec fn send_post(
    pre: State,
    env: Env,
    action: Seq<char>,
    from: Seq<char>,
    contract: Seq<char>,
    by: Option<Seq<char>>,
    named: Seq<char>,
    amount: u128,
    msg: Vec<u8>,
    allowance: Result<(), ContractError>,
    refused: Option<StdError>,
    post: State,
    r: Result<Response, ContractError>,
) -> bool {
    if refused is Some {
        post == pre && r == Err::<Response, ContractError>(ContractError::Std(refused.unwrap()))
    } else if pre.dex_configs is None {
        post == pre && (r matches Err(e) && is_no_registry(e))
    } else if allowance is Err {
        allowance matches Err(e) && post == pre && r == Err::<Response, ContractError>(e)
    } else {
        let dex = pre.dex_configs.unwrap();
        let tax = tax_due(pre, from, contract, amount, false);
        let collector = pre.collect_tax_address@;
        let collected = balance_after(pre, from, contract, amount, tax, collector);
        if !can_move(pre, from, amount, tax) {
            post == pre && (r matches Err(e) && e.is_overflow())
        } else if !(is_sell(dex, from, contract) && collected >= SWAP_COLLECTED_TAX_THRESHOLD) {
            &&& moved(pre, from, contract, amount, tax, post)
            &&& r matches Ok(res) && res.messages@.len() == 1 && is_receive_notice(
                res.messages@[0],
                contract,
                named,
                amount,
                msg,
            ) && movement_logged(res.attributes@, action, from, contract, by, amount, tax, false)
        } else if self_allowance(pre, collector) + collected > u128::MAX {
            post == pre && (r matches Err(e) && e.is_overflow())
        } else {
            let venue = venue_of(dex, contract).unwrap();
            &&& moved(
                pre,
                from,
                contract,
                amount,
                tax,
                State { self_allowances: pre.self_allowances, ..post },
            )
            &&& post.self_allowances.wf()
            &&& post.self_allowances.model() == pre.self_allowances.model().insert(
                collector,
                (self_allowance(pre, collector) + collected) as u128,
            )
            &&& r matches Ok(res) && res.messages@.len() == 2 && is_receive_notice(
                res.messages@[0],
                contract,
                named,
                amount,
                msg,
            ) && res.messages@[1].is_plain() && is_tax_swap(
                res.messages@[1].msg,
                env.contract.address@,
                collector,
                router_of(dex, venue)@,
                venue,
                collected as u128,
            ) && movement_logged(res.attributes@, action, from, contract, by, amount, tax, true)
        }
    }
}

/// What the collector will hold once `amount` has moved from `from` to `to`
/// under the tax `tax`; `None` when that is more than 128 bits can count.
fn collector_after(state: &State, from: &String, to: &String, amount: u128, tax: Option<u128>) -> (r:
    Option<u128>)
    requires
        state.wf(),
        can_move(*state, from@, amount, tax),
    ensures
        match r {
            Some(b) => b == balance_after(
                *state,
                from@,
                to@,
                amount,
                tax,
                state.collect_tax_address@,
            ),
            None => balance_after(*state, from@, to@, amount, tax, state.collect_tax_address@)
                > u128::MAX,
        },
{
    let collector = &state.collect_tax_address;
    let mut held: u128 = state.balances.balance(collector);
    let t: u128 = match tax {
        Some(t) => t,
        None => 0,
    };
    if *collector == *from {
        held = held - amount;
    }
    if *collector == *to {
        held = match held.checked_add(amount - t) {
            Some(h) => h,
            None => {
                return None;
            },
        };
    }
    if tax.is_some() {
        held = match held.checked_add(t) {
            Some(h) => h,
            None => {
                return None;
            },
        };
    }
    Some(held)
}

/// The common body of [`send`] and [`send_from`].
fn send_as(
    state: &mut State,
    env: Env,
    action: &str,
    from: String,
    contract: String,
    by: Option<&String>,
    named: String,
    amount: u128,
    msg: Vec<u8>,
    allowance: Result<(), ContractError>,
) -> (r: Result<Response, ContractError>)
    requires
        old(state).wf(),
    ensures
        final(state).wf(),
        send_post(
            *old(state),
            env,
            action@,
            from@,
            contract@,
            match by {
                Some(b) => Some(b@),
                None => None,
            },
            named@,
            amount,
            msg,
            allowance,
            None,
            *final(state),
            r,
        ),
{
    let sells = match &state.dex_configs {
        Some(dex) => is_sell_operation(dex, &from, &contract),
        None => {
            return Err(no_registry());
        },
    };
    let tax_amount = compute_tax(state, &from, &contract, amount, false);
    match allowance {
        Ok(()) => {},
        Err(e) => {
            return Err(e);
        },
    }
    if state.balances.balance(&from) < amount {
        return Err(ContractError::Std(StdError::overflow()));
    }
    // A swap that the movement sets off must not fail once the movement is
    // booked: see beforehand whether the allowance has room for it.
    let mut swaps = false;
    if sells {
        let allowed: u128 = match state.self_allowances.get(&state.collect_tax_address) {
            Some(a) => *a,
            None => 0,
        };
        match collector_after(state, &from, &contract, amount, tax_amount) {
            Some(collected) => {
                if collected >= SWAP_COLLECTED_TAX_THRESHOLD {
                    if allowed.checked_add(collected).is_none() {
                        return Err(ContractError::Std(StdError::overflow()));
                    }
                    swaps = true;
                }
            },
            None => {
                return Err(ContractError::Std(StdError::overflow()));
            },
        }
    }
    let ghost pre = *state;
    match update_balance_with_tax(state, &from, &contract, amount, tax_amount) {
        Ok(()) => {},
        Err(e) => {
            return Err(ContractError::Std(e));
        },
    }
    let ghost mid = *state;
    let mut attributes = movement_attrs(action, &from, &contract, by, amount, tax_amount);
    let mut messages: Vec<SubMsg> = Vec::new();
    messages.push(
        SubMsg::new(
            CosmosMsg::Wasm(
                WasmMsg::Execute {
                    contract_addr: contract.clone(),
                    msg: Payload::Cw20Receive { sender: named, amount, msg },
                    funds: Vec::new(),
                },
            ),
        ),
    );
    proof {
        assert(mid.balances.balance_of(mid.collect_tax_address@) == balance_after(
            pre,
            from@,
            contract@,
            amount,
            tax_amount,
            pre.collect_tax_address@,
        ));
        assert(swaps == swap_triggers(mid, from@, contract@));
    }
    match swap_collected_tax_to_native(state, &env, &from, &contract) {
        Ok(Some(swap_msg)) => {
            attributes.push(attr("action", "collected_tax_swap".to_owned()));
            messages.push(SubMsg::new(swap_msg));
        },
        Ok(None) => {},
        Err(e) => {
            proof {
                assert(false);
            }
            return Err(e);
        },
    }
    Ok(Response { messages, attributes })
}

/// Moves `amount` from the sender to the contract `contract`, under tax,
/// and tells that contract of it with `msg` riding along.
pub fn send(
    state: &mut State,
    env: Env,
    info: MessageInfo,
    contract: String,
    amount: u128,
    msg: Vec<u8>,
    api: &Api,
) -> (r: Result<Response, ContractError>)
    requires
        old(state).wf(),
        api.wf(),
    ensures
        final(state).wf(),
        send_post(
            *old(state),
            env,
            "send"@,
            info.sender@,
            contract@,
            None,
            info.sender@,
            amount,
            msg,
            Ok(()),
            api.verdict(contract@),
            *final(state),
            r,
        ),
{
    match api.addr_validate(&contract) {
        Ok(_) => {},
        Err(e) => {
            return Err(ContractError::Std(e));
        },
    }
    let named = info.sender.clone();
    send_as(state, env, "send", info.sender, contract, None, named, amount, msg, Ok(()))
}

/// Moves `amount` from `owner` to the contract `contract` on the sender's
/// allowance, under tax, and tells that contract of it, naming the sender.
/// `allowance` is what the base ledger answered when asked to deduct
/// `amount` from that allowance.
pub fn send_from(
    state: &mut State,
    env: Env,
    info: MessageInfo,
    owner: String,
    contract: String,
    amount: u128,
    msg: Vec<u8>,
    allowance: Result<(), ContractError>,
    api: &Api,
) -> (r: Result<Response, ContractError>)
    requires
        old(state).wf(),
        api.wf(),
    ensures
        final(state).wf(),
        send_post(
            *old(state),
            env,
            "send_from"@,
            owner@,
            contract@,
            Some(info.sender@),
            info.sender@,
            amount,
            msg,
            allowance,
            first_of(api.verdict(owner@), api.verdict(contract@)),
            *final(state),
            r,
        ),
{
    match api.addr_validate(&owner) {
        Ok(_) => {},
        Err(e) => {
            return Err(ContractError::Std(e));
        },
    }
    match api.addr_validate(&contract) {
        Ok(_) => {},
        Err(e) => {
            return Err(ContractError::Std(e));
        },
    }
    let named = info.sender.clone();
    send_as(
        state,
        env,
        "send_from",
        owner,
        contract,
        Some(&info.sender),
        named,
        amount,
        msg,
        allowance,
    )
}

} // verus!
