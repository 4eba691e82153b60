//! The burner's state-changing handlers.

use crate::book::{AddrMap, Entry};
use crate::burning::error::ContractError;
use crate::burning::msg::{Cw20HookMsg, RewardInfo};
use crate::burning::state::{CachedData, State};
use crate::cremation_token::msg::{AssetInfo, SwapOperation};
use crate::proxy_swap::helpers::{create_swap_operations, swap_route};
use crate::error::StdError;
use crate::host::{
    Api, after_lunc_tax, less_lunc_tax, lunc_tax, LUNC_TAX_ATOMICS, amount_of, attr, attr_str, bank_burn, bank_send, cw20_transfer, funds_in, single_coin,
    Attribute, Coin, CosmosMsg, Cw20ReceiveMsg, Env, MessageInfo, Payload, ReplyOn, Response,
    SubMsg, WasmMsg,
};
use crate::math::{
    amount_to_string, checked_mul_decimal, decimal_share, decimal_text, lemma_share_bounded,
    mul_decimal, shows_amount, Decimal, DECIMAL_FRACTIONAL,
};
use vstd::prelude::*;

verus! {

/// What each reward token's contract answered when asked what the burner
/// holds there. A token without an answer counts as a failed query.
pub type Answers = AddrMap<Result<u128, StdError>>;

/// The development fee on a burn of `amount`.
pub open spec fn development_fee(ratio: Decimal, amount: u128) -> int {
    decimal_share(amount, ratio)
}

/// The transfer tax the chain keeps when `fee` is sent on.
pub open spec fn send_tax(fee: int) -> int {
    (fee * LUNC_TAX_ATOMICS) / (DECIMAL_FRACTIONAL as int)
}

/// What of `amount` is left to burn after fee and tax.
pub open spec fn actual_burn(ratio: Decimal, amount: u128) -> int {
    amount - (development_fee(ratio, amount) + send_tax(development_fee(ratio, amount)))
}

/// Whether fee and tax together leave something non-negative to burn.
pub open spec fn split_fits(ratio: Decimal, amount: u128) -> bool {
    development_fee(ratio, amount) <= u128::MAX && actual_burn(ratio, amount) >= 0
}

/// What happens with one reward token during a burn.
pub enum Payout {
    /// Nothing is due, or the burner holds none of the token.
    Skip,
    /// The token's contract did not say what the burner holds.
    Fail,
    /// This much is paid.
    Pay(u128),
}

/// The payout in the token `token` with share `ratio` on an actual burn of
/// `actual`: the share, capped at what the burner holds.
pub open spec fn payout_of(
    actual: u128,
    ratio: Decimal,
    held: Map<Seq<char>, Result<u128, StdError>>,
    token: Seq<char>,
) -> Payout {
    let due = decimal_share(actual, ratio);
    if due == 0 {
        Payout::Skip
    } else if !held.contains_key(token) {
        Payout::Fail
    } else {
        match held[token] {
            Err(_) => Payout::Fail,
            Ok(balance) => if balance == 0 {
                Payout::Skip
            } else if due > balance {
                Payout::Pay(balance)
            } else {
                Payout::Pay(due as u128)
            },
        }
    }
}

/// Whether every reward share of `actual` fits in 128 bits.
pub open spec fn rewards_fit(entries: Seq<Entry<Decimal>>, actual: u128) -> bool {
    forall|i: int|
        0 <= i < entries.len() ==> decimal_share(actual, (#[trigger] entries[i]).value)
            <= u128::MAX
}

/// Whether the payout for the entry at `i` fails.
pub open spec fn fails_at(
    entries: Seq<Entry<Decimal>>,
    actual: u128,
    held: Map<Seq<char>, Result<u128, StdError>>,
    i: int,
) -> bool {
    payout_of(actual, entries[i].value, held, entries[i].key@) is Fail
}

/// Whether `i` is the first entry whose payout fails.
pub open spec fn first_failure(
    entries: Seq<Entry<Decimal>>,
    actual: u128,
    held: Map<Seq<char>, Result<u128, StdError>>,
    i: int,
) -> bool {
    &&& 0 <= i < entries.len()
    &&& fails_at(entries, actual, held, i)
    &&& forall|j: int| 0 <= j < i ==> !fails_at(entries, actual, held, j)
}

/// Whether no payout fails.
pub open spec fn all_answered(
    entries: Seq<Entry<Decimal>>,
    actual: u128,
    held: Map<Seq<char>, Result<u128, StdError>>,
) -> bool {
    forall|i: int| 0 <= i < entries.len() ==> !fails_at(entries, actual, held, i)
}

/// The payouts made for the first `n` entries, in order: token and amount.
pub open spec fn paid(
    entries: Seq<Entry<Decimal>>,
    actual: u128,
    held: Map<Seq<char>, Result<u128, StdError>>,
    n: int,
) -> Seq<(Seq<char>, u128)>
    decreases n,
{
    if n <= 0 {
        Seq::empty()
    } else {
        let before = paid(entries, actual, held, n - 1);
        match payout_of(actual, entries[n - 1].value, held, entries[n - 1].key@) {
            Payout::Pay(p) => before.push((entries[n - 1].key@, p)),
            _ => before,
        }
    }
}

/// Whether `e` is the error of a failed balance query for `token`: the
/// answer's own error, or a missing record named after the token.
pub open spec fn is_query_error(
    e: ContractError,
    held: Map<Seq<char>, Result<u128, StdError>>,
    token: Seq<char>,
) -> bool {
    if held.contains_key(token) {
        held[token] matches Err(x) && e == ContractError::StdError(x)
    } else {
        e matches ContractError::StdError(StdError::NotFound { kind }) && kind@ == token
    }
}

/// Whether a burn of `amount` goes through.
pub open spec fn burn_succeeds(
    state: State,
    amount: u128,
    held: Map<Seq<char>, Result<u128, StdError>>,
) -> bool {
    let ratio = state.development_fee_ratio;
    let entries = state.reward_whitelist.entries();
    &&& amount > 0
    &&& split_fits(ratio, amount)
    &&& rewards_fit(entries, actual_burn(ratio, amount) as u128)
    &&& all_answered(entries, actual_burn(ratio, amount) as u128, held)
    &&& state.burned_amount + actual_burn(ratio, amount) <= u128::MAX
}

/// Whether `e` is the error a refused burn of `amount` is refused with. The
/// checks are made in this order: the amount, the fee split, the reward
/// shares, the balance answers entry by entry, the running total.
pub open spec fn burn_error(
    state: State,
    amount: u128,
    held: Map<Seq<char>, Result<u128, StdError>>,
    e: ContractError,
) -> bool {
    let ratio = state.development_fee_ratio;
    let entries = state.reward_whitelist.entries();
    if amount == 0 {
        e == (ContractError::ZeroAmount {})
    } else if !split_fits(ratio, amount) {
        e.is_overflow()
    } else {
        let actual = actual_burn(ratio, amount) as u128;
        if !rewards_fit(entries, actual) {
            e.is_overflow()
        } else if !all_answered(entries, actual, held) {
            exists|i: int| #[trigger]
                first_failure(entries, actual, held, i) && is_query_error(e, held, entries[i].key@)
        } else {
            e.is_overflow()
        }
    }
}

/// Whether `res` is what a burn of `amount` for `recipient` answers: the
/// fee goes to the beneficiary, the rest is burned, each payout is one
/// token transfer, and the attributes list the figures in the same order.
pub open spec fn is_burn_response(
    res: Response,
    state: State,
    amount: u128,
    held: Map<Seq<char>, Result<u128, StdError>>,
    recipient: Seq<char>,
) -> bool {
    let ratio = state.development_fee_ratio;
    let fee = development_fee(ratio, amount) as u128;
    let actual = actual_burn(ratio, amount) as u128;
    let entries = state.reward_whitelist.entries();
    let pays = paid(entries, actual, held, entries.len() as int);
    &&& res.messages@.len() == 2 + pays.len()
    &&& res.messages@[0].msg.is_bank_send(state.development_fee_beneficiary@, "uluna"@, fee)
    &&& res.messages@[1].msg.is_bank_burn("uluna"@, actual)
    &&& forall|k: int|
        0 <= k < pays.len() ==> (#[trigger] res.messages@[2 + k]).msg.is_cw20_transfer(
            pays[k].0,
            recipient,
            pays[k].1,
        )
    &&& forall|k: int| 0 <= k < res.messages@.len() ==> (#[trigger] res.messages@[k]).is_plain()
    &&& res.attributes@.len() == 3 + 2 * pays.len()
    &&& res.attributes@[0]@ == ("action"@, "burn"@)
    &&& res.attributes@[1].key@ == "development_fee"@
    &&& shows_amount(res.attributes@[1].value, fee)
    &&& res.attributes@[2].key@ == "burn_amount"@
    &&& shows_amount(res.attributes@[2].value, actual)
    &&& forall|k: int| 0 <= k < pays.len() ==> #[trigger] reward_logged(res.attributes@, pays, k)
}

/// Whether the payout `k` stands in the attributes: after the three leading
/// ones, a `token` attribute and a `reward` attribute for each payout.
pub open spec fn reward_logged(
    attributes: Seq<Attribute>,
    pays: Seq<(Seq<char>, u128)>,
    k: int,
) -> bool {
    &&& attributes[3 + 2 * k]@ == ("token"@, pays[k].0)
    &&& attributes[3 + 2 * k + 1].key@ == "reward"@
    &&& shows_amount(attributes[3 + 2 * k + 1].value, pays[k].1)
}

/// What [`burn`] guarantees: it goes through exactly when
/// [`burn_succeeds`]; then the running total has grown by the amount
/// actually burned and the response is the one [`is_burn_response`]
/// describes; otherwise the state is untouched and the error is the one
/// [`burn_error`] names.
pub open spec fn burn_post(
    pre: State,
    recipient: Seq<char>,
    amount: u128,
    held: Map<Seq<char>, Result<u128, StdError>>,
    post: State,
    r: Result<Response, ContractError>,
) -> bool {
    &&& r is Ok <==> burn_succeeds(pre, amount, held)
    &&& match r {
        Ok(res) => {
            &&& post == State {
                burned_amount: (pre.burned_amount + actual_burn(
                    pre.development_fee_ratio,
                    amount,
                )) as u128,
                ..pre
            }
            &&& is_burn_response(res, pre, amount, held, recipient)
        },
        Err(e) => post == pre && burn_error(pre, amount, held, e),
    }
}

/// Burns `burn_amount` of the native coin for `recipient`.
///
/// The development fee goes to the beneficiary; the fee's transfer tax stays
/// behind; the rest is burned and added to the running total. For every
/// whitelisted reward token, in address order, the recipient is paid the
/// token's share of the burned amount, capped at what the burner holds of
/// it; nothing is paid where the share or the holding is zero. Any refusal
/// leaves the state as it was.
#[verifier::loop_isolation(false)]
pub fn burn(state: &mut State, recipient: String, burn_amount: u128, held: &Answers) -> (r: Result<
    Response,
    ContractError,
>)
    requires
        old(state).wf(),
        held.wf(),
    ensures
        final(state).wf(),
        burn_post(*old(state), recipient@, burn_amount, held.model(), *final(state), r),
{
    if burn_amount == 0 {
        return Err(ContractError::ZeroAmount {});
    }
    let ratio = state.development_fee_ratio;
    let development_fee: u128 = match checked_mul_decimal(burn_amount, ratio) {
        Some(fee) => fee,
        None => {
            return Err(ContractError::StdError(StdError::overflow()));
        },
    };
    proof {
        lemma_share_bounded(development_fee, Decimal { atomics: LUNC_TAX_ATOMICS });
    }
    let send_tax: u128 = mul_decimal(development_fee, lunc_tax());
    let withheld: u128 = match development_fee.checked_add(send_tax) {
        Some(w) => w,
        None => {
            return Err(ContractError::StdError(StdError::overflow()));
        },
    };
    if withheld > burn_amount {
        return Err(ContractError::StdError(StdError::overflow()));
    }
    let actual_burn_amount: u128 = burn_amount - withheld;
    let ghost entries = state.reward_whitelist.entries();
    let ghost answers = held.model();
    let n = state.reward_whitelist.len();

    let mut rewards: Vec<u128> = Vec::new();
    let mut i: usize = 0;
    while i < n
        invariant
            n == entries.len(),
            entries == state.reward_whitelist.entries(),
            *state == *old(state),
            i <= n,
            rewards@.len() == i,
            forall|j: int|
                0 <= j < i ==> rewards@[j] == decimal_share(
                    actual_burn_amount,
                    (#[trigger] entries[j]).value,
                ),
        decreases n - i,
    {
        let entry = state.reward_whitelist.entry(i);
        match checked_mul_decimal(actual_burn_amount, entry.value) {
            Some(due) => {
                rewards.push(due);
            },
            None => {
                proof {
                    assert(decimal_share(actual_burn_amount, entries[i as int].value) > u128::MAX);
                }
                return Err(ContractError::StdError(StdError::overflow()));
            },
        }
        i += 1;
    }
    assert(rewards_fit(entries, actual_burn_amount)) by {
        assert forall|j: int| 0 <= j < entries.len() implies decimal_share(
            actual_burn_amount,
            (#[trigger] entries[j]).value,
        ) <= u128::MAX by {
            assert(rewards@[j] == decimal_share(actual_burn_amount, entries[j].value));
        }
    }

    let mut messages: Vec<SubMsg> = Vec::new();
    messages.push(SubMsg::new(bank_send(&state.development_fee_beneficiary, "uluna", development_fee)));
    messages.push(SubMsg::new(bank_burn("uluna", actual_burn_amount)));
    let mut attributes: Vec<Attribute> = Vec::new();
    attributes.push(attr_str("action", "burn"));
    attributes.push(attr("development_fee", amount_to_string(development_fee)));
    attributes.push(attr("burn_amount", amount_to_string(actual_burn_amount)));

    let mut i: usize = 0;
    while i < n
        invariant
            n == entries.len(),
            entries == state.reward_whitelist.entries(),
            answers == held.model(),
            held.wf(),
            *state == *old(state),
            i <= n,
            rewards@.len() == n,
            forall|j: int|
                0 <= j < n ==> rewards@[j] == decimal_share(
                    actual_burn_amount,
                    (#[trigger] entries[j]).value,
                ),
            forall|j: int| 0 <= j < i ==> !fails_at(entries, actual_burn_amount, answers, j),
            messages@.len() == 2 + paid(entries, actual_burn_amount, answers, i as int).len(),
            messages@[0].msg.is_bank_send(
                state.development_fee_beneficiary@,
                "uluna"@,
                development_fee,
            ),
            messages@[1].msg.is_bank_burn("uluna"@, actual_burn_amount),
            forall|k: int|
                0 <= k < paid(entries, actual_burn_amount, answers, i as int).len() ==> (
                #[trigger] messages@[2 + k]).msg.is_cw20_transfer(
                    paid(entries, actual_burn_amount, answers, i as int)[k].0,
                    recipient@,
                    paid(entries, actual_burn_amount, answers, i as int)[k].1,
                ),
            forall|k: int| 0 <= k < messages@.len() ==> (#[trigger] messages@[k]).is_plain(),
            attributes@.len() == 3 + 2 * paid(entries, actual_burn_amount, answers, i as int).len(),
            attributes@[0]@ == ("action"@, "burn"@),
            attributes@[1].key@ == "development_fee"@,
            shows_amount(attributes@[1].value, development_fee),
            attributes@[2].key@ == "burn_amount"@,
            shows_amount(attributes@[2].value, actual_burn_amount),
            forall|k: int|
                0 <= k < paid(entries, actual_burn_amount, answers, i as int).len()
                    ==> #[trigger] reward_logged(
                    attributes@,
                    paid(entries, actual_burn_amount, answers, i as int),
                    k,
                ),
        decreases n - i,
    {
        let entry = state.reward_whitelist.entry(i);
        let due: u128 = rewards[i];
        let ghost before = paid(entries, actual_burn_amount, answers, i as int);
        proof {
            assert(entries[i as int].value == entry.value);
            assert(due == decimal_share(actual_burn_amount, entries[i as int].value));
        }
        if due != 0 {
            match held.get(&entry.key) {
                None => {
                    proof {
                        assert(first_failure(entries, actual_burn_amount, answers, i as int));
                    }
                    return Err(
                        ContractError::StdError(StdError::NotFound { kind: entry.key.clone() }),
                    );
                },
                Some(Err(e)) => {
                    proof {
                        assert(first_failure(entries, actual_burn_amount, answers, i as int));
                    }
                    return Err(ContractError::StdError(e.clone()));
                },
                Some(Ok(balance)) => {
                    if *balance != 0 {
                        let pay: u128 = if due > *balance {
                            *balance
                        } else {
                            due
                        };
                        let ghost logged = attributes@;
                        messages.push(SubMsg::new(cw20_transfer(&entry.key, &recipient, pay)));
                        attributes.push(attr("token", entry.key.clone()));
                        attributes.push(attr("reward", amount_to_string(pay)));
                        proof {
                            let after = paid(entries, actual_burn_amount, answers, i + 1);
                            assert(after == before.push((entries[i as int].key@, pay)));
                            assert forall|k: int| 0 <= k < after.len() implies #[trigger] reward_logged(
                                attributes@,
                                after,
                                k,
                            ) by {
                                if k < before.len() {
                                    assert(reward_logged(logged, before, k));
                                }
                            }
                        }
                    }
                },
            }
        }
        i += 1;
    }
    assert(all_answered(entries, actual_burn_amount, answers));

    let burned: u128 = match state.burned_amount.checked_add(actual_burn_amount) {
        Some(b) => b,
        None => {
            return Err(ContractError::StdError(StdError::overflow()));
        },
    };
    state.burned_amount = burned;
    Ok(Response { messages, attributes })
}

/// The tag of the continuation that follows a swap.
pub const SWAP_REPLY_ID: u64 = 1;

/// What [`set_swap_router`] guarantees.
pub open spec fn set_swap_router_post(
    pre: State,
    info: MessageInfo,
    router: String,
    api: Api,
    post: State,
    r: Result<Response, ContractError>,
) -> bool {
    if pre.owner@ != info.sender@ {
        post == pre && r == Err::<Response, ContractError>(ContractError::Unauthorized {})
    } else if api.verdict(router@) is Some {
        post == pre && r == Err::<Response, ContractError>(
            ContractError::StdError(api.verdict(router@).unwrap()),
        )
    } else {
        &&& post == State { swap_router: Some(router), ..pre }
        &&& r matches Ok(res) && res.messages@.len() == 0 && res.attrs() == seq![
            ("action"@, "set_swap_router"@),
            ("router"@, router@),
        ]
    }
}

/// Names the router that swaps are sent to. Only the owner may, and the
/// host must accept the address.
pub fn set_swap_router(
    state: &mut State,
    _env: Env,
    info: MessageInfo,
    router: String,
    api: &Api,
) -> (r: Result<Response, ContractError>)
    requires
        old(state).wf(),
        api.wf(),
    ensures
        final(state).wf(),
        set_swap_router_post(*old(state), info, router, *api, *final(state), r),
{
    if state.owner != info.sender {
        return Err(ContractError::Unauthorized {});
    }
    let router = match api.addr_validate(&router) {
        Ok(a) => a,
        Err(e) => {
            return Err(ContractError::StdError(e));
        },
    };
    let res = Response::new().add_attribute("action", "set_swap_router".to_owned()).add_attribute(
        "router",
        router.clone(),
    );
    state.swap_router = Some(router);
    proof {
        assert(res.attrs() =~= seq![("action"@, "set_swap_router"@), ("router"@, router@)]);
    }
    Ok(res)
}

/// The attributes that report a change of the development configuration.
pub open spec fn development_config_attrs(
    fee_ratio: Option<Decimal>,
    beneficiary: Option<String>,
) -> Seq<(Seq<char>, Seq<char>)> {
    seq![("action"@, "update_development_config"@)] + (match fee_ratio {
        Some(f) => seq![("fee_ratio"@, decimal_text(f.atomics))],
        None => Seq::empty(),
    }) + (match beneficiary {
        Some(b) => seq![("beneficiary"@, b@)],
        None => Seq::empty(),
    })
}

/// What [`update_development_config`] guarantees.
pub open spec fn update_development_config_post(
    pre: State,
    info: MessageInfo,
    fee_ratio: Option<Decimal>,
    beneficiary: Option<String>,
    api: Api,
    post: State,
    r: Result<Response, ContractError>,
) -> bool {
    if pre.owner@ != info.sender@ {
        post == pre && r == Err::<Response, ContractError>(ContractError::Unauthorized {})
    } else if fee_ratio matches Some(f) && f.atomics >= DECIMAL_FRACTIONAL {
        post == pre && r == Err::<Response, ContractError>(
            ContractError::FeeRatioMustBeLessThanOne {},
        )
    } else if beneficiary is Some && api.verdict(beneficiary.unwrap()@) is Some {
        post == pre && r == Err::<Response, ContractError>(
            ContractError::StdError(api.verdict(beneficiary.unwrap()@).unwrap()),
        )
    } else {
        &&& post == State {
            development_fee_ratio: match fee_ratio {
                Some(f) => f,
                None => pre.development_fee_ratio,
            },
            development_fee_beneficiary: match beneficiary {
                Some(b) => b,
                None => pre.development_fee_beneficiary,
            },
            ..pre
        }
        &&& r matches Ok(res) && res.messages@.len() == 0 && res.attrs()
            == development_config_attrs(fee_ratio, beneficiary)
    }
}

/// Changes the development fee, its beneficiary, or both. Only the owner
/// may; the fee must stay below one and the host must accept the
/// beneficiary's address.
pub fn update_development_config(
    state: &mut State,
    _env: Env,
    info: MessageInfo,
    fee_ratio: Option<Decimal>,
    beneficiary: Option<String>,
    api: &Api,
) -> (r: Result<Response, ContractError>)
    requires
        old(state).wf(),
        api.wf(),
    ensures
        final(state).wf(),
        update_development_config_post(
            *old(state),
            info,
            fee_ratio,
            beneficiary,
            *api,
            *final(state),
            r,
        ),
{
    if state.owner != info.sender {
        return Err(ContractError::Unauthorized {});
    }
    let mut res = Response::new().add_attribute("action", "update_development_config".to_owned());
    if let Some(ratio) = fee_ratio {
        if ratio.atomics >= DECIMAL_FRACTIONAL {
            return Err(ContractError::FeeRatioMustBeLessThanOne {});
        }
        res = res.add_attribute("fee_ratio", ratio.to_string());
    }
    match &beneficiary {
        Some(b) => {
            match api.addr_validate(b) {
                Ok(_) => {},
                Err(e) => {
                    return Err(ContractError::StdError(e));
                },
            }
        },
        None => {},
    }
    if let Some(ratio) = fee_ratio {
        state.development_fee_ratio = ratio;
    }
    match beneficiary {
        Some(b) => {
            res = res.add_attribute("beneficiary", b.clone());
            state.development_fee_beneficiary = b;
        },
        None => {},
    }
    proof {
        assert(res.attrs() =~= development_config_attrs(fee_ratio, beneficiary));
    }
    Ok(res)
}

/// Whether `post` differs from `pre` in the whitelist alone.
pub open spec fn only_whitelist_changed(pre: State, post: State) -> bool {
    post == State { reward_whitelist: post.reward_whitelist, ..pre }
}

/// What [`add_to_reward_whitelist`] guarantees.
pub open spec fn add_to_reward_whitelist_post(
    pre: State,
    info: MessageInfo,
    reward_info: RewardInfo,
    api: Api,
    post: State,
    r: Result<Response, ContractError>,
) -> bool {
    if pre.owner@ != info.sender@ {
        post == pre && r == Err::<Response, ContractError>(ContractError::Unauthorized {})
    } else if reward_info.reward_ratio.atomics == 0 {
        post == pre && r == Err::<Response, ContractError>(ContractError::ZeroRatio {})
    } else if api.verdict(reward_info.token@) is Some {
        post == pre && r == Err::<Response, ContractError>(
            ContractError::StdError(api.verdict(reward_info.token@).unwrap()),
        )
    } else if pre.reward_whitelist.model().contains_key(reward_info.token@) {
        post == pre && r == Err::<Response, ContractError>(ContractError::AlreadyExists {})
    } else {
        &&& only_whitelist_changed(pre, post)
        &&& post.reward_whitelist.model() == pre.reward_whitelist.model().insert(
            reward_info.token@,
            reward_info.reward_ratio,
        )
        &&& r matches Ok(res) && res.messages@.len() == 0 && res.attrs() == seq![
            ("action"@, "add_to_reward_whitelist"@),
            ("token"@, reward_info.token@),
            ("reward_ratio"@, decimal_text(reward_info.reward_ratio.atomics)),
        ]
    }
}

/// Puts a reward token on the whitelist. Only the owner may; the ratio must
/// not be zero and the token must not be listed yet.
pub fn add_to_reward_whitelist(
    state: &mut State,
    _env: Env,
    info: MessageInfo,
    reward_info: RewardInfo,
    api: &Api,
) -> (r: Result<Response, ContractError>)
    requires
        old(state).wf(),
        api.wf(),
    ensures
        final(state).wf(),
        add_to_reward_whitelist_post(*old(state), info, reward_info, *api, *final(state), r),
{
    if state.owner != info.sender {
        return Err(ContractError::Unauthorized {});
    }
    if reward_info.reward_ratio.is_zero() {
        return Err(ContractError::ZeroRatio {});
    }
    match api.addr_validate(&reward_info.token) {
        Ok(_) => {},
        Err(e) => {
            return Err(ContractError::StdError(e));
        },
    }
    if state.reward_whitelist.has(&reward_info.token) {
        return Err(ContractError::AlreadyExists {});
    }
    let res = Response::new().add_attribute(
        "action",
        "add_to_reward_whitelist".to_owned(),
    ).add_attribute("token", reward_info.token.clone()).add_attribute(
        "reward_ratio",
        reward_info.reward_ratio.to_string(),
    );
    state.reward_whitelist.insert(reward_info.token, reward_info.reward_ratio);
    proof {
        assert(res.attrs() =~= seq![
            ("action"@, "add_to_reward_whitelist"@),
            ("token"@, reward_info.token@),
            ("reward_ratio"@, decimal_text(reward_info.reward_ratio.atomics)),
        ]);
    }
    Ok(res)
}

/// What [`remove_from_reward_whitelist`] guarantees.
pub open spec fn remove_from_reward_whitelist_post(
    pre: State,
    info: MessageInfo,
    token: String,
    api: Api,
    post: State,
    r: Result<Response, ContractError>,
) -> bool {
    if pre.owner@ != info.sender@ {
        post == pre && r == Err::<Response, ContractError>(ContractError::Unauthorized {})
    } else if api.verdict(token@) is Some {
        post == pre && r == Err::<Response, ContractError>(
            ContractError::StdError(api.verdict(token@).unwrap()),
        )
    } else if !pre.reward_whitelist.model().contains_key(token@) {
        post == pre && r == Err::<Response, ContractError>(ContractError::NotInWhitelist {})
    } else {
        &&& only_whitelist_changed(pre, post)
        &&& post.reward_whitelist.model() == pre.reward_whitelist.model().remove(token@)
        &&& r matches Ok(res) && res.messages@.len() == 0 && res.attrs() == seq![
            ("action"@, "remove_from_reward_whitelist"@),
            ("token"@, token@),
        ]
    }
}

/// Takes a reward token off the whitelist. Only the owner may, and the
/// token must be listed.
pub fn remove_from_reward_whitelist(
    state: &mut State,
    _env: Env,
    info: MessageInfo,
    token: String,
    api: &Api,
) -> (r: Result<Response, ContractError>)
    requires
        old(state).wf(),
        api.wf(),
    ensures
        final(state).wf(),
        remove_from_reward_whitelist_post(*old(state), info, token, *api, *final(state), r),
{
    if state.owner != info.sender {
        return Err(ContractError::Unauthorized {});
    }
    match api.addr_validate(&token) {
        Ok(_) => {},
        Err(e) => {
            return Err(ContractError::StdError(e));
        },
    }
    if !state.reward_whitelist.has(&token) {
        return Err(ContractError::NotInWhitelist {});
    }
    state.reward_whitelist.remove(&token);
    let res = Response::new().add_attribute(
        "action",
        "remove_from_reward_whitelist".to_owned(),
    ).add_attribute("token", token);
    proof {
        assert(res.attrs() =~= seq![
            ("action"@, "remove_from_reward_whitelist"@),
            ("token"@, token@),
        ]);
    }
    Ok(res)
}

/// What [`update_reward_info`] guarantees.
pub open spec fn update_reward_info_post(
    pre: State,
    info: MessageInfo,
    reward_info: RewardInfo,
    api: Api,
    post: State,
    r: Result<Response, ContractError>,
) -> bool {
    if pre.owner@ != info.sender@ {
        post == pre && r == Err::<Response, ContractError>(ContractError::Unauthorized {})
    } else if reward_info.reward_ratio.atomics == 0 {
        post == pre && r == Err::<Response, ContractError>(ContractError::ZeroRatio {})
    } else if api.verdict(reward_info.token@) is Some {
        post == pre && r == Err::<Response, ContractError>(
            ContractError::StdError(api.verdict(reward_info.token@).unwrap()),
        )
    } else if !pre.reward_whitelist.model().contains_key(reward_info.token@) {
        post == pre && r == Err::<Response, ContractError>(ContractError::NotInWhitelist {})
    } else {
        &&& only_whitelist_changed(pre, post)
        &&& post.reward_whitelist.model() == pre.reward_whitelist.model().insert(
            reward_info.token@,
            reward_info.reward_ratio,
        )
        &&& r matches Ok(res) && res.messages@.len() == 0 && res.attrs() == seq![
            ("action"@, "update_reward_info"@),
            ("token"@, reward_info.token@),
            ("reward_ratio"@, decimal_text(reward_info.reward_ratio.atomics)),
        ]
    }
}

/// Changes the ratio of a listed reward token. Only the owner may; the
/// ratio must not be zero.
pub fn update_reward_info(
    state: &mut State,
    _env: Env,
    info: MessageInfo,
    reward_info: RewardInfo,
    api: &Api,
) -> (r: Result<Response, ContractError>)
    requires
        old(state).wf(),
        api.wf(),
    ensures
        final(state).wf(),
        update_reward_info_post(*old(state), info, reward_info, *api, *final(state), r),
{
    if state.owner != info.sender {
        return Err(ContractError::Unauthorized {});
    }
    if reward_info.reward_ratio.is_zero() {
        return Err(ContractError::ZeroRatio {});
    }
    match api.addr_validate(&reward_info.token) {
        Ok(_) => {},
        Err(e) => {
            return Err(ContractError::StdError(e));
        },
    }
    if !state.reward_whitelist.has(&reward_info.token) {
        return Err(ContractError::NotInWhitelist {});
    }
    let res = Response::new().add_attribute("action", "update_reward_info".to_owned()).add_attribute(
        "token",
        reward_info.token.clone(),
    ).add_attribute("reward_ratio", reward_info.reward_ratio.to_string());
    state.reward_whitelist.insert(reward_info.token, reward_info.reward_ratio);
    proof {
        assert(res.attrs() =~= seq![
            ("action"@, "update_reward_info"@),
            ("token"@, reward_info.token@),
            ("reward_ratio"@, decimal_text(reward_info.reward_ratio.atomics)),
        ]);
    }
    Ok(res)
}

/// Whether `ops` leads from `offer` through `paths` to the native coin
/// `uluna`.
pub open spec fn is_route_to_uluna(
    ops: Seq<SwapOperation>,
    offer: AssetInfo,
    paths: Seq<AssetInfo>,
) -> bool {
    exists|ask: AssetInfo| #[trigger] ask.is_native("uluna"@) && ops == swap_route(offer, ask, paths)
}

/// Whether `m` is the swap of `amount` of the native coin `denom`, sent to
/// `router` along `paths`, with the swap continuation asked for.
pub open spec fn is_native_swap(
    m: SubMsg,
    router: Seq<char>,
    denom: String,
    amount: u128,
    paths: Seq<AssetInfo>,
) -> bool {
    &&& m.id == SWAP_REPLY_ID
    &&& m.reply_on == ReplyOn::Success
    &&& m.msg matches CosmosMsg::Wasm(
        WasmMsg::Execute { contract_addr, msg: Payload::Router { msg: request }, funds },
    ) && contract_addr@ == router && single_coin(funds@, denom@, amount) && request.is_plain()
        && is_route_to_uluna(request.operations(), AssetInfo::NativeToken { denom }, paths)
}

/// Whether `m` asks the token at `token` to send `amount` to `router` for
/// a swap along `paths`, with the swap continuation asked for.
pub open spec fn is_token_swap(
    m: SubMsg,
    token: String,
    router: Seq<char>,
    amount: u128,
    paths: Seq<AssetInfo>,
) -> bool {
    &&& m.id == SWAP_REPLY_ID
    &&& m.reply_on == ReplyOn::Success
    &&& m.msg matches CosmosMsg::Wasm(
        WasmMsg::Execute {
            contract_addr,
            msg: Payload::Cw20Send { contract, amount: sent, msg: request },
            funds,
        },
    ) && contract_addr@ == token@ && funds@.len() == 0 && contract@ == router && sent == amount
        && request.is_plain() && is_route_to_uluna(
        request.operations(),
        AssetInfo::Token { contract_addr: token },
        paths,
    )
}

/// Whether `e` says that no swap router has been set.
pub open spec fn is_no_router(e: ContractError) -> bool {
    e matches ContractError::StdError(StdError::NotFound { kind }) && kind@ == "swap_router"@
}

/// What [`swap_and_burn`] guarantees. The checks come in this order: the
/// amount, the lock, the router.
pub open spec fn swap_and_burn_post(
    pre: State,
    info: MessageInfo,
    denom: String,
    swap_paths: Vec<AssetInfo>,
    post: State,
    r: Result<Response, ContractError>,
) -> bool {
    let swap_amount = amount_of(info.funds@, denom@);
    if swap_amount == 0 {
        post == pre && r == Err::<Response, ContractError>(ContractError::ZeroAmount {})
    } else if pre.cache.locked {
        post == pre && r == Err::<Response, ContractError>(ContractError::Locked {})
    } else if pre.swap_router is None {
        post == pre && (r matches Err(e) && is_no_router(e))
    } else {
        &&& post == State { cache: CachedData { locked: true, burner: info.sender }, ..pre }
        &&& r matches Ok(res) && res.attributes@.len() == 0 && res.messages@.len() == 1
            && is_native_swap(
            res.messages@[0],
            pre.swap_router.unwrap()@,
            denom,
            after_lunc_tax(swap_amount) as u128,
            swap_paths@,
        )
    }
}

/// Begins a settlement: takes the lock for the sender and sends the coins
/// attached in `denom`, less the chain's transfer tax, to the router to be
/// swapped to the native coin. The burn follows in [`super::contract::reply`].
pub fn swap_and_burn(
    state: &mut State,
    _env: Env,
    info: MessageInfo,
    denom: String,
    swap_paths: Vec<AssetInfo>,
) -> (r: Result<Response, ContractError>)
    requires
        old(state).wf(),
    ensures
        final(state).wf(),
        swap_and_burn_post(*old(state), info, denom, swap_paths, *final(state), r),
{
    let swap_amount: u128 = funds_in(&info.funds, &denom);
    if swap_amount == 0 {
        return Err(ContractError::ZeroAmount {});
    }
    if state.cache.locked {
        return Err(ContractError::Locked {});
    }
    let swap_router = match &state.swap_router {
        Some(router) => router.clone(),
        None => {
            return Err(ContractError::StdError(StdError::not_found("swap_router")));
        },
    };
    let actual_swap_amount: u128 = less_lunc_tax(swap_amount);

    let ghost paths = swap_paths@;
    let offer = AssetInfo::NativeToken { denom: denom.clone() };
    let ask = AssetInfo::NativeToken { denom: "uluna".to_owned() };
    let swap_operations = create_swap_operations(offer, ask, swap_paths);
    proof {
        assert(ask.is_native("uluna"@));
        assert(is_route_to_uluna(
            swap_operations.operations(),
            AssetInfo::NativeToken { denom },
            paths,
        ));
    }
    let mut funds: Vec<Coin> = Vec::new();
    funds.push(Coin { denom, amount: actual_swap_amount });
    let swap_wasm_msg = CosmosMsg::Wasm(
        WasmMsg::Execute {
            contract_addr: swap_router,
            msg: Payload::Router { msg: swap_operations },
            funds,
        },
    );
    match state.cache.begin(info.sender) {
        Ok(()) => {},
        Err(e) => {
            return Err(e);
        },
    }
    Ok(Response::new().add_submessage(SubMsg::reply_on_success(swap_wasm_msg, SWAP_REPLY_ID)))
}

/// What [`receive_cw20`] guarantees. The checks come in this order: the
/// sender's address, the lock, the hook message, the router.
pub open spec fn receive_cw20_post(
    pre: State,
    info: MessageInfo,
    cw20_msg: Cw20ReceiveMsg<Cw20HookMsg>,
    api: Api,
    post: State,
    r: Result<Response, ContractError>,
) -> bool {
    if api.verdict(cw20_msg.sender@) is Some {
        post == pre && r == Err::<Response, ContractError>(
            ContractError::StdError(api.verdict(cw20_msg.sender@).unwrap()),
        )
    } else if pre.cache.locked {
        post == pre && r == Err::<Response, ContractError>(ContractError::Locked {})
    } else {
        match cw20_msg.msg {
            Err(e) => post == pre && r == Err::<Response, ContractError>(
                ContractError::StdError(e),
            ),
            Ok(Cw20HookMsg::SwapAndBurn { swap_paths }) => if pre.swap_router is None {
                post == pre && (r matches Err(e) && is_no_router(e))
            } else {
                &&& post == State {
                    cache: CachedData { locked: true, burner: cw20_msg.sender },
                    ..pre
                }
                &&& r matches Ok(res) && res.attributes@.len() == 0 && res.messages@.len() == 1
                    && is_token_swap(
                    res.messages@[0],
                    info.sender,
                    pre.swap_router.unwrap()@,
                    cw20_msg.amount,
                    swap_paths@,
                )
            },
        }
    }
}

/// Begins a settlement with tokens that were sent to the burner: takes the
/// lock for whoever sent them and asks the token (the caller) to pass them
/// to the router to be swapped to the native coin.
pub fn receive_cw20(
    state: &mut State,
    _env: Env,
    info: MessageInfo,
    cw20_msg: Cw20ReceiveMsg<Cw20HookMsg>,
    api: &Api,
) -> (r: Result<Response, ContractError>)
    requires
        old(state).wf(),
        api.wf(),
    ensures
        final(state).wf(),
        receive_cw20_post(*old(state), info, cw20_msg, *api, *final(state), r),
{
    let token_in = info.sender;
    let amount: u128 = cw20_msg.amount;
    match api.addr_validate(&cw20_msg.sender) {
        Ok(_) => {},
        Err(e) => {
            return Err(ContractError::StdError(e));
        },
    }
    if state.cache.locked {
        return Err(ContractError::Locked {});
    }
    match cw20_msg.msg {
        Ok(Cw20HookMsg::SwapAndBurn { swap_paths }) => {
            let swap_router = match &state.swap_router {
                Some(router) => router.clone(),
                None => {
                    return Err(ContractError::StdError(StdError::not_found("swap_router")));
                },
            };
            let ghost paths = swap_paths@;
            let offer = AssetInfo::Token { contract_addr: token_in.clone() };
            let ask = AssetInfo::NativeToken { denom: "uluna".to_owned() };
            let swap_operations = create_swap_operations(offer, ask, swap_paths);
            proof {
                assert(ask.is_native("uluna"@));
                assert(is_route_to_uluna(
                    swap_operations.operations(),
                    AssetInfo::Token { contract_addr: token_in },
                    paths,
                ));
            }
            let cw20_send_msg = CosmosMsg::Wasm(
                WasmMsg::Execute {
                    contract_addr: token_in,
                    msg: Payload::Cw20Send { contract: swap_router, amount, msg: swap_operations },
                    funds: Vec::new(),
                },
            );
            match state.cache.begin(cw20_msg.sender) {
                Ok(()) => {},
                Err(e) => {
                    return Err(e);
                },
            }
            Ok(
                Response::new().add_submessage(
                    SubMsg::reply_on_success(cw20_send_msg, SWAP_REPLY_ID),
                ),
            )
        },
        Err(err) => Err(ContractError::StdError(err)),
    }
}

} // verus!
