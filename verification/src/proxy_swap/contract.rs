//! The swap proxy's entry points and handlers.

use crate::book::AddrMap;
use crate::cremation_token::execute::{lemma_tax_exact, tax_on};
use crate::cremation_token::msg::AssetInfo;
use crate::cremation_token::state::FractionFormat;
use crate::error::StdError;
use crate::host::{
    first_of, Api, after_lunc_tax, attr, cw20_transfer, less_lunc_tax, single_coin, Attribute, Coin, CosmosMsg,
    Cw20ReceiveMsg, Env, MessageInfo, Payload, Reply, ReplyOn, Response, SubMsg, WasmMsg,
};
use crate::math::{
    amount_to_string, decimal_text, lemma_ratio_bounded, multiply_ratio, shows_amount, Decimal,
    DECIMAL_FRACTIONAL,
};
use crate::proxy_swap::error::ContractError;
use crate::proxy_swap::helpers::{create_swap_operations, swap_route};
use crate::proxy_swap::msg::{
    Cw20HookMsg, ExecuteMsg, InstantiateMsg, OwnerResponse, QueryMsg, QueryResponse,
    SwapRouterResponse, TokenBuyTaxResponse,
};
use crate::proxy_swap::state::{CacheData, State};
use vstd::prelude::*;

verus! {

/// The tag of the continuation that follows a swap.
pub const SWAP_REPLY_ID: u64 = 1;

/// Sets the proxy up: no buy tax known, the lock free. Refuses an owner or
/// a router whose address the host does not accept.
pub fn instantiate(env: Env, _info: MessageInfo, msg: InstantiateMsg, api: &Api) -> (r: Result<
    State,
    ContractError,
>)
    requires
        api.wf(),
    ensures
        first_of(api.verdict(msg.owner@), api.verdict(msg.swap_router@)) matches Some(e) ==> r
            == Err::<State, ContractError>(ContractError::StdError(e)),
        first_of(api.verdict(msg.owner@), api.verdict(msg.swap_router@)) is None ==> (r matches Ok(
            state,
        ) && {
            &&& state.wf()
            &&& state.token_buy_tax.model() == Map::<Seq<char>, FractionFormat>::empty()
            &&& state == State {
                owner: msg.owner,
                swap_router: msg.swap_router,
                token_buy_tax: state.token_buy_tax,
                cache: CacheData {
                    locked: false,
                    buyer: env.contract.address,
                    token_address: env.contract.address,
                },
            }
        }),
{
    match api.addr_validate(&msg.owner) {
        Ok(_) => {},
        Err(e) => {
            return Err(ContractError::StdError(e));
        },
    }
    match api.addr_validate(&msg.swap_router) {
        Ok(_) => {},
        Err(e) => {
            return Err(ContractError::StdError(e));
        },
    }
    Ok(
        State {
            owner: msg.owner,
            swap_router: msg.swap_router,
            token_buy_tax: AddrMap::new(),
            cache: CacheData {
                locked: false,
                buyer: env.contract.address.clone(),
                token_address: env.contract.address,
            },
        },
    )
}

/// The buy tax on `amount` of `token`: the token's rate applied and
/// rounded down, or nothing where the token has no rate.
pub open spec fn buy_tax_on(state: State, token: Seq<char>, amount: u128) -> int {
    match state.buy_tax_of(token) {
        Some(rate) => tax_on(rate, amount),
        None => 0,
    }
}

/// What [`reply`] guarantees. A continuation with a foreign tag, or one
/// that arrives while no settlement is in flight, is refused, as is one
/// for which the bought token does not answer; a refusal changes nothing.
/// Otherwise the lock is released, and of what the proxy holds of the
/// bought token the buy tax goes to the token's tax collector and the rest
/// to the buyer that the lock recorded.
pub open spec fn reply_post(
    pre: State,
    msg: Reply,
    balance: Result<u128, StdError>,
    collector: Result<String, StdError>,
    post: State,
    r: Result<Response, ContractError>,
) -> bool {
    if msg.id != SWAP_REPLY_ID {
        post == pre && r == Err::<Response, ContractError>(ContractError::InvalidReplyMsg {})
    } else if !pre.cache.locked {
        post == pre && r == Err::<Response, ContractError>(ContractError::AlreadyUnlocked {})
    } else if balance is Err {
        balance matches Err(e) && post == pre && r == Err::<Response, ContractError>(
            ContractError::StdError(e),
        )
    } else if collector is Err {
        collector matches Err(e) && post == pre && r == Err::<Response, ContractError>(
            ContractError::StdError(e),
        )
    } else {
        let bought = balance.unwrap();
        let token = pre.cache.token_address@;
        let tax = buy_tax_on(pre, token, bought) as u128;
        &&& post == State {
            cache: CacheData {
                locked: false,
                buyer: pre.cache.buyer,
                token_address: pre.cache.token_address,
            },
            ..pre
        }
        &&& r matches Ok(res) && res.messages@.len() == 2 && res.messages@[0].is_plain()
            && res.messages@[0].msg.is_cw20_transfer(
            token,
            pre.cache.buyer@,
            (bought - tax) as u128,
        ) && res.messages@[1].is_plain() && res.messages@[1].msg.is_cw20_transfer(
            token,
            collector.unwrap()@,
            tax,
        ) && res.attributes@.len() == 1 && res.attributes@[0].key@ == "cw20_tax_amount"@
            && shows_amount(res.attributes@[0].value, tax)
    }
}

/// Completes a settlement after the swap it began with has succeeded.
/// `balance` is what the bought token answered when asked what the proxy
/// holds of it, `collector` what it answered when asked who collects its
/// tax.
pub fn reply(
    state: &mut State,
    _env: Env,
    msg: Reply,
    balance: Result<u128, StdError>,
    collector: Result<String, StdError>,
) -> (r: Result<Response, ContractError>)
    requires
        old(state).wf(),
    ensures
        final(state).wf(),
        reply_post(*old(state), msg, balance, collector, *final(state), r),
{
    if msg.id != SWAP_REPLY_ID {
        return Err(ContractError::InvalidReplyMsg {});
    }
    if !state.cache.locked {
        return Err(ContractError::AlreadyUnlocked {});
    }
    let buy_amount: u128 = match balance {
        Ok(b) => b,
        Err(e) => {
            return Err(ContractError::StdError(e));
        },
    };
    let collect_tax_address = match collector {
        Ok(c) => c,
        Err(e) => {
            return Err(ContractError::StdError(e));
        },
    };
    let (buyer, token) = match state.cache.complete() {
        Ok(recorded) => recorded,
        Err(e) => {
            return Err(e);
        },
    };
    let tax_amount: u128 = match state.token_buy_tax.get(&token) {
        Some(rate) => {
            proof {
                lemma_tax_exact(*rate, buy_amount);
            }
            multiply_ratio(buy_amount, rate.numerator, rate.denominator)
        },
        None => 0,
    };
    let mut messages: Vec<SubMsg> = Vec::new();
    messages.push(SubMsg::new(cw20_transfer(&token, &buyer, buy_amount - tax_amount)));
    messages.push(SubMsg::new(cw20_transfer(&token, &collect_tax_address, tax_amount)));
    let mut attributes: Vec<Attribute> = Vec::new();
    attributes.push(attr("cw20_tax_amount", amount_to_string(tax_amount)));
    Ok(Response { messages, attributes })
}

/// What [`update_owner`] guarantees.
pub open spec fn update_owner_post(
    pre: State,
    info: MessageInfo,
    new_owner: String,
    api: Api,
    post: State,
    r: Result<Response, ContractError>,
) -> bool {
    if pre.owner@ != info.sender@ {
        post == pre && r == Err::<Response, ContractError>(ContractError::Unauthorized {})
    } else if api.verdict(new_owner@) is Some {
        post == pre && r == Err::<Response, ContractError>(
            ContractError::StdError(api.verdict(new_owner@).unwrap()),
        )
    } else {
        &&& post == State { owner: new_owner, ..pre }
        &&& r matches Ok(res) && res.messages@.len() == 0 && res.attrs() == seq![
            ("owner"@, new_owner@),
        ]
    }
}

/// Hands the proxy to a new owner. Only the owner may.
pub fn update_owner(
    state: &mut State,
    _env: Env,
    info: MessageInfo,
    new_owner: String,
    api: &Api,
) -> (r: Result<Response, ContractError>)
    requires
        old(state).wf(),
        api.wf(),
    ensures
        final(state).wf(),
        update_owner_post(*old(state), info, new_owner, *api, *final(state), r),
{
    if state.owner != info.sender {
        return Err(ContractError::Unauthorized {});
    }
    match api.addr_validate(&new_owner) {
        Ok(_) => {},
        Err(e) => {
            return Err(ContractError::StdError(e));
        },
    }
    let res = Response::new().add_attribute("owner", new_owner.clone());
    state.owner = new_owner;
    proof {
        assert(res.attrs() =~= seq![("owner"@, new_owner@)]);
    }
    Ok(res)
}

/// What [`update_swap_router`] guarantees.
pub open spec fn update_swap_router_post(
    pre: State,
    info: MessageInfo,
    router: String,
    api: Api,
    post: State,
    r: Result<Response, ContractError>,
) -> bool {
    if pre.owner@ != info.sender@ {
        post == pre && r == Err::<Response, ContractError>(ContractError::Unauthorized {})
    } else if api.verdict(router@) is Some {
        post == pre && r == Err::<Response, ContractError>(
            ContractError::StdError(api.verdict(router@).unwrap()),
        )
    } else {
        &&& post == State { swap_router: router, ..pre }
        &&& r matches Ok(res) && res.messages@.len() == 0 && res.attrs() == seq![
            ("swap_router"@, router@),
        ]
    }
}

/// Names another router. Only the owner may.
pub fn update_swap_router(
    state: &mut State,
    _env: Env,
    info: MessageInfo,
    router: String,
    api: &Api,
) -> (r: Result<Response, ContractError>)
    requires
        old(state).wf(),
        api.wf(),
    ensures
        final(state).wf(),
        update_swap_router_post(*old(state), info, router, *api, *final(state), r),
{
    if state.owner != info.sender {
        return Err(ContractError::Unauthorized {});
    }
    match api.addr_validate(&router) {
        Ok(_) => {},
        Err(e) => {
            return Err(ContractError::StdError(e));
        },
    }
    let res = Response::new().add_attribute("swap_router", router.clone());
    state.swap_router = router;
    proof {
        assert(res.attrs() =~= seq![("swap_router"@, router@)]);
    }
    Ok(res)
}

/// What [`update_token_tax_info`] guarantees.
pub open spec fn update_token_tax_info_post(
    pre: State,
    info: MessageInfo,
    token_address: String,
    buy_tax: FractionFormat,
    api: Api,
    post: State,
    r: Result<Response, ContractError>,
) -> bool {
    if pre.owner@ != info.sender@ {
        post == pre && r == Err::<Response, ContractError>(ContractError::Unauthorized {})
    } else if api.verdict(token_address@) is Some {
        post == pre && r == Err::<Response, ContractError>(
            ContractError::StdError(api.verdict(token_address@).unwrap()),
        )
    } else if !buy_tax.valid() {
        post == pre && (r matches Err(e) && e.is_generic("Invalid fraction format"@))
    } else {
        &&& post == State { token_buy_tax: post.token_buy_tax, ..pre }
        &&& post.token_buy_tax.model() == pre.token_buy_tax.model().insert(
            token_address@,
            buy_tax,
        )
        &&& r matches Ok(res) && res.messages@.len() == 0 && res.attrs() == seq![
            ("token"@, token_address@),
            (
                "buy_tax"@,
                decimal_text(
                    ((buy_tax.numerator * DECIMAL_FRACTIONAL) / (buy_tax.denominator as int)) as u128,
                ),
            ),
        ]
    }
}

/// Sets the buy tax of a token. Only the owner may, and the rate must be a
/// proper rate.
pub fn update_token_tax_info(
    state: &mut State,
    _env: Env,
    info: MessageInfo,
    token_address: String,
    buy_tax: FractionFormat,
    api: &Api,
) -> (r: Result<Response, ContractError>)
    requires
        old(state).wf(),
        api.wf(),
    ensures
        final(state).wf(),
        update_token_tax_info_post(
            *old(state),
            info,
            token_address,
            buy_tax,
            *api,
            *final(state),
            r,
        ),
{
    if state.owner != info.sender {
        return Err(ContractError::Unauthorized {});
    }
    match api.addr_validate(&token_address) {
        Ok(_) => {},
        Err(e) => {
            return Err(ContractError::StdError(e));
        },
    }
    if buy_tax.denominator == 0 || buy_tax.numerator > buy_tax.denominator {
        return Err(ContractError::StdError(StdError::generic_err("Invalid fraction format")));
    }
    proof {
        lemma_ratio_bounded(DECIMAL_FRACTIONAL, buy_tax.numerator, buy_tax.denominator);
        assert(buy_tax.numerator * DECIMAL_FRACTIONAL == DECIMAL_FRACTIONAL * buy_tax.numerator)
            by (nonlinear_arith);
    }
    let shown = Decimal::raw(
        multiply_ratio(buy_tax.numerator, DECIMAL_FRACTIONAL, buy_tax.denominator),
    );
    let res = Response::new().add_attribute("token", token_address.clone()).add_attribute(
        "buy_tax",
        shown.to_string(),
    );
    state.token_buy_tax.insert(token_address, buy_tax);
    proof {
        assert(res.attrs() =~= seq![
            ("token"@, token_address@),
            ("buy_tax"@, decimal_text(shown.atomics)),
        ]);
    }
    Ok(res)
}

/// Whether `e` says that only a token can be bought through the proxy.
pub open spec fn is_not_a_token(e: ContractError) -> bool {
    e.is_generic("Ask asset must be a token"@)
}

fn not_a_token() -> (e: ContractError)
    ensures
        is_not_a_token(e),
{
    ContractError::StdError(StdError::generic_err("Ask asset must be a token"))
}

/// Whether `m` is the swap of `amount` of the native coin `denom`, sent to
/// `router`, from `offer` by way of `paths` to `ask`, with the swap
/// continuation asked for.
pub open spec fn is_native_swap(
    m: SubMsg,
    router: Seq<char>,
    denom: String,
    amount: u128,
    ask: AssetInfo,
    paths: Seq<AssetInfo>,
) -> bool {
    &&& m.id == SWAP_REPLY_ID
    &&& m.reply_on == ReplyOn::Success
    &&& m.msg matches CosmosMsg::Wasm(
        WasmMsg::Execute { contract_addr, msg: Payload::Router { msg: request }, funds },
    ) && contract_addr@ == router && single_coin(funds@, denom@, amount) && request.is_plain()
        && request.operations() == swap_route(AssetInfo::NativeToken { denom }, ask, paths)
}

/// Whether `m` asks the token at `token` to send `amount` to `router` for
/// a swap by way of `paths` to `ask`, with the swap continuation asked for.
pub open spec fn is_token_swap(
    m: SubMsg,
    token: String,
    router: Seq<char>,
    amount: u128,
    ask: AssetInfo,
    paths: Seq<AssetInfo>,
) -> bool {
    &&& m.id == SWAP_REPLY_ID
    &&& m.reply_on == ReplyOn::Success
    &&& m.msg matches CosmosMsg::Wasm(
        WasmMsg::Execute {
            contract_addr,
            msg: Payload::Cw20Send { contract, amount: sent, msg: request },
            funds,
        },
    ) && contract_addr@ == token@ && funds@.len() == 0 && contract@ == router && sent == amount
        && request.is_plain() && request.operations() == swap_route(
        AssetInfo::Token { contract_addr: token },
        ask,
        paths,
    )
}

/// What [`swap`] guarantees. The checks come in this order: exactly one
/// coin, a positive amount, the lock, a token to buy.
pub open spec fn swap_post(
    pre: State,
    info: MessageInfo,
    ask_asset: AssetInfo,
    swap_paths: Vec<AssetInfo>,
    post: State,
    r: Result<Response, ContractError>,
) -> bool {
    if info.funds@.len() != 1 {
        post == pre && r == Err::<Response, ContractError>(ContractError::ExpectOnlyOneCoin {})
    } else if info.funds@[0].amount == 0 {
        post == pre && r == Err::<Response, ContractError>(ContractError::ZeroAmount {})
    } else if pre.cache.locked {
        post == pre && r == Err::<Response, ContractError>(ContractError::Locked {})
    } else {
        match ask_asset {
            AssetInfo::NativeToken { .. } => post == pre && (r matches Err(e) && is_not_a_token(e)),
            AssetInfo::Token { contract_addr } => {
                &&& post == State {
                    cache: CacheData {
                        locked: true,
                        buyer: info.sender,
                        token_address: contract_addr,
                    },
                    ..pre
                }
                &&& r matches Ok(res) && res.attributes@.len() == 0 && res.messages@.len() == 1
                    && is_native_swap(
                    res.messages@[0],
                    pre.swap_router@,
                    info.funds@[0].denom,
                    after_lunc_tax(info.funds@[0].amount) as u128,
                    ask_asset,
                    swap_paths@,
                )
            },
        }
    }
}

/// Begins a settlement: takes the lock for the sender and the token to be
/// bought, and sends the one coin attached, less the chain's transfer tax,
/// to the router to be swapped. What was bought is passed on in [`reply`].
pub fn swap(
    state: &mut State,
    _env: Env,
    info: MessageInfo,
    ask_asset: AssetInfo,
    swap_paths: Vec<AssetInfo>,
) -> (r: Result<Response, ContractError>)
    requires
        old(state).wf(),
    ensures
        final(state).wf(),
        swap_post(*old(state), info, ask_asset, swap_paths, *final(state), r),
{
    if info.funds.len() != 1 {
        return Err(ContractError::ExpectOnlyOneCoin {});
    }
    let denom = info.funds[0].denom.clone();
    let swap_amount: u128 = info.funds[0].amount;
    if swap_amount == 0 {
        return Err(ContractError::ZeroAmount {});
    }
    if state.cache.locked {
        return Err(ContractError::Locked {});
    }
    let token_address = match &ask_asset {
        AssetInfo::Token { contract_addr } => contract_addr.clone(),
        AssetInfo::NativeToken { .. } => {
            return Err(not_a_token());
        },
    };
    let offer_asset = AssetInfo::NativeToken { denom: denom.clone() };
    let swap_operations = create_swap_operations(offer_asset, ask_asset, swap_paths);
    let actual_swap_amount: u128 = less_lunc_tax(swap_amount);
    let mut funds: Vec<Coin> = Vec::new();
    funds.push(Coin { denom, amount: actual_swap_amount });
    let swap_msg = CosmosMsg::Wasm(
        WasmMsg::Execute {
            contract_addr: state.swap_router.clone(),
            msg: Payload::Router { msg: swap_operations },
            funds,
        },
    );
    match state.cache.begin(info.sender, token_address) {
        Ok(()) => {},
        Err(e) => {
            return Err(e);
        },
    }
    Ok(Response::new().add_submessage(SubMsg::reply_on_success(swap_msg, SWAP_REPLY_ID)))
}

/// What [`receive_cw20`] guarantees. The checks come in this order: the
/// sender's address, the lock, the hook message, a token to buy.
pub open spec fn receive_cw20_post(
    pre: State,
    info: MessageInfo,
    cw20_msg: Cw20ReceiveMsg<Cw20HookMsg>,
    api: Api,
    post: State,
    r: Result<Response, ContractError>,
) -> bool {
    if api.verdict(cw20_msg.sender@) is Some {
        post == pre && r == Err::<Response, ContractError>(
            ContractError::StdError(api.verdict(cw20_msg.sender@).unwrap()),
        )
    } else if pre.cache.locked {
        post == pre && r == Err::<Response, ContractError>(ContractError::Locked {})
    } else {
        match cw20_msg.msg {
            Err(e) => post == pre && r == Err::<Response, ContractError>(
                ContractError::StdError(e),
            ),
            Ok(Cw20HookMsg::Swap { ask_asset, swap_paths }) => match ask_asset {
                AssetInfo::NativeToken { .. } => post == pre && (r matches Err(e)
                    && is_not_a_token(e)),
                AssetInfo::Token { contract_addr } => {
                    &&& post == State {
                        cache: CacheData {
                            locked: true,
                            buyer: cw20_msg.sender,
                            token_address: contract_addr,
                        },
                        ..pre
                    }
                    &&& r matches Ok(res) && res.attributes@.len() == 0 && res.messages@.len()
                        == 1 && is_token_swap(
                        res.messages@[0],
                        info.sender,
                        pre.swap_router@,
                        cw20_msg.amount,
                        ask_asset,
                        swap_paths@,
                    )
                },
            },
        }
    }
}

/// Begins a settlement with tokens that were sent to the proxy: takes the
/// lock for whoever sent them and the token to be bought, and asks the
/// token that came in (the caller) to pass the amount to the router.
pub fn receive_cw20(
    state: &mut State,
    _env: Env,
    info: MessageInfo,
    cw20_msg: Cw20ReceiveMsg<Cw20HookMsg>,
    api: &Api,
) -> (r: Result<Response, ContractError>)
    requires
        old(state).wf(),
        api.wf(),
    ensures
        final(state).wf(),
        receive_cw20_post(*old(state), info, cw20_msg, *api, *final(state), r),
{
    let token_in = info.sender;
    let amount: u128 = cw20_msg.amount;
    match api.addr_validate(&cw20_msg.sender) {
        Ok(_) => {},
        Err(e) => {
            return Err(ContractError::StdError(e));
        },
    }
    if state.cache.locked {
        return Err(ContractError::Locked {});
    }
    match cw20_msg.msg {
        Ok(Cw20HookMsg::Swap { ask_asset, swap_paths }) => {
            let token_address = match &ask_asset {
                AssetInfo::Token { contract_addr } => contract_addr.clone(),
                AssetInfo::NativeToken { .. } => {
                    return Err(not_a_token());
                },
            };
            let offer_asset = AssetInfo::Token { contract_addr: token_in.clone() };
            let swap_operations = create_swap_operations(offer_asset, ask_asset, swap_paths);
            let cw20_send_msg = CosmosMsg::Wasm(
                WasmMsg::Execute {
                    contract_addr: token_in,
                    msg: Payload::Cw20Send {
                        contract: state.swap_router.clone(),
                        amount,
                        msg: swap_operations,
                    },
                    funds: Vec::new(),
                },
            );
            match state.cache.begin(cw20_msg.sender, token_address) {
                Ok(()) => {},
                Err(e) => {
                    return Err(e);
                },
            }
            Ok(
                Response::new().add_submessage(
                    SubMsg::reply_on_success(cw20_send_msg, SWAP_REPLY_ID),
                ),
            )
        },
        Err(err) => Err(ContractError::StdError(err)),
    }
}

/// What [`execute`] guarantees: for each kind of message, what the handler
/// of that kind guarantees.
pub open spec fn execute_post(
    pre: State,
    info: MessageInfo,
    msg: ExecuteMsg,
    api: Api,
    post: State,
    r: Result<Response, ContractError>,
) -> bool {
    match msg {
        ExecuteMsg::UpdateOwner { new_owner } => update_owner_post(
            pre,
            info,
            new_owner,
            api,
            post,
            r,
        ),
        ExecuteMsg::UpdateSwapRouter { router } => update_swap_router_post(
            pre,
            info,
            router,
            api,
            post,
            r,
        ),
        ExecuteMsg::SetTokenBuyTax { token_address, buy_tax } => update_token_tax_info_post(
            pre,
            info,
            token_address,
            buy_tax,
            api,
            post,
            r,
        ),
        ExecuteMsg::Swap { ask_asset, swap_paths } => swap_post(
            pre,
            info,
            ask_asset,
            swap_paths,
            post,
            r,
        ),
        ExecuteMsg::Receive(cw20_msg) => receive_cw20_post(pre, info, cw20_msg, api, post, r),
    }
}

/// Handles one message. `api` is what the host makes of the addresses in
/// the message.
pub fn execute(
    state: &mut State,
    env: Env,
    info: MessageInfo,
    msg: ExecuteMsg,
    api: &Api,
) -> (r: Result<Response, ContractError>)
    requires
        old(state).wf(),
        api.wf(),
    ensures
        final(state).wf(),
        execute_post(*old(state), info, msg, *api, *final(state), r),
{
    match msg {
        ExecuteMsg::UpdateOwner { new_owner } => update_owner(state, env, info, new_owner, api),
        ExecuteMsg::UpdateSwapRouter { router } => update_swap_router(
            state,
            env,
            info,
            router,
            api,
        ),
        ExecuteMsg::SetTokenBuyTax { token_address, buy_tax } => update_token_tax_info(
            state,
            env,
            info,
            token_address,
            buy_tax,
            api,
        ),
        ExecuteMsg::Swap { ask_asset, swap_paths } => swap(state, env, info, ask_asset, swap_paths),
        ExecuteMsg::Receive(cw20_msg) => receive_cw20(state, env, info, cw20_msg, api),
    }
}

/// Who owns the proxy.
pub fn owner(state: &State) -> (r: Result<OwnerResponse, StdError>)
    ensures
        r == Ok::<OwnerResponse, StdError>(OwnerResponse { owner: state.owner }),
{
    Ok(OwnerResponse { owner: state.owner.clone() })
}

/// What [`token_tax_info`] answers for `token_address`: its buy tax, or
/// the fraction zero over zero where none is set.
pub open spec fn tax_answer(state: State, token_address: String) -> TokenBuyTaxResponse {
    TokenBuyTaxResponse {
        token_address,
        buy_tax: match state.buy_tax_of(token_address@) {
            Some(rate) => rate,
            None => FractionFormat { numerator: 0, denominator: 0 },
        },
    }
}

/// The buy tax of `token_address`; the fraction zero over zero where none
/// is set.
pub fn token_tax_info(state: &State, token_address: String, api: &Api) -> (r: Result<
    TokenBuyTaxResponse,
    StdError,
>)
    requires
        state.wf(),
        api.wf(),
    ensures
        r == match api.verdict(token_address@) {
            Some(e) => Err::<TokenBuyTaxResponse, StdError>(e),
            None => Ok::<TokenBuyTaxResponse, StdError>(tax_answer(*state, token_address)),
        },
{
    match api.addr_validate(&token_address) {
        Ok(_) => {},
        Err(e) => {
            return Err(e);
        },
    }
    let buy_tax = match state.token_buy_tax.get(&token_address) {
        Some(rate) => *rate,
        None => FractionFormat { numerator: 0, denominator: 0 },
    };
    Ok(TokenBuyTaxResponse { token_address, buy_tax })
}

/// The router that swaps are sent to.
pub fn swap_router(state: &State) -> (r: Result<SwapRouterResponse, StdError>)
    ensures
        r == Ok::<SwapRouterResponse, StdError>(SwapRouterResponse { router: state.swap_router }),
{
    Ok(SwapRouterResponse { router: state.swap_router.clone() })
}

/// What [`query`] guarantees: the answer to the question asked, from the
/// state as it stands; a question about an address the host does not
/// accept is refused.
pub open spec fn query_post(
    state: State,
    msg: QueryMsg,
    api: Api,
    r: Result<QueryResponse, StdError>,
) -> bool {
    match msg {
        QueryMsg::Owner {  } => r == Ok::<QueryResponse, StdError>(
            QueryResponse::Owner(OwnerResponse { owner: state.owner }),
        ),
        QueryMsg::TokenTaxInfo { token_address } => r == match api.verdict(token_address@) {
            Some(e) => Err::<QueryResponse, StdError>(e),
            None => Ok::<QueryResponse, StdError>(
                QueryResponse::TokenTaxInfo(tax_answer(state, token_address)),
            ),
        },
        QueryMsg::SwapRouter {  } => r == Ok::<QueryResponse, StdError>(
            QueryResponse::SwapRouter(SwapRouterResponse { router: state.swap_router }),
        ),
    }
}

/// Answers one query. `api` is what the host makes of the address in the
/// question.
pub fn query(state: &State, _env: Env, msg: QueryMsg, api: &Api) -> (r: Result<
    QueryResponse,
    StdError,
>)
    requires
        state.wf(),
        api.wf(),
    ensures
        query_post(*state, msg, *api, r),
{
    match msg {
        QueryMsg::Owner {  } => match owner(state) {
            Ok(res) => Ok(QueryResponse::Owner(res)),
            Err(e) => Err(e),
        },
        QueryMsg::TokenTaxInfo { token_address } => match token_tax_info(
            state,
            token_address,
            api,
        ) {
            Ok(res) => Ok(QueryResponse::TokenTaxInfo(res)),
            Err(e) => Err(e),
        },
        QueryMsg::SwapRouter {  } => match swap_router(state) {
            Ok(res) => Ok(QueryResponse::SwapRouter(res)),
            Err(e) => Err(e),
        },
    }
}

} // verus!
