use cremation::error::StdError;
use cremation::host::{
    Api, BlockInfo, ContractInfo, CosmosMsg, Cw20ReceiveMsg, Env, MessageInfo, Payload, Response,
    Timestamp, WasmMsg,
};
use cremation::lenny_burning::contract::{burn, execute, instantiate, query};
use cremation::lenny_burning::error::ContractError;
use cremation::lenny_burning::msg::{
    BurnLimit, BurnedToday, Cw20HookMsg, ExecuteMsg, InstantiateMsg, QueryMsg, QueryResponse,
    RewardInfo,
};
use cremation::lenny_burning::state::State;
use cremation::lenny_burning::window::{is_expired, roll};
use cremation::math::Decimal;

const TOKEN: &str = "lenny";

fn at(seconds: u64) -> Env {
    Env {
        block: BlockInfo { time: Timestamp::from_seconds(seconds) },
        contract: ContractInfo { address: "burner".to_string() },
    }
}

fn from(sender: &str) -> MessageInfo {
    MessageInfo { sender: sender.to_string(), funds: vec![] }
}

fn setup(limit: BurnLimit, refund_percent: u64, reward_percent: u64) -> State {
    let msg = InstantiateMsg {
        owner: "owner".to_string(),
        reward_address: "rewards".to_string(),
        reward_info: RewardInfo {
            refund_ratio: Decimal::percent(refund_percent),
            reward_ratio: Decimal::percent(reward_percent),
        },
        burn_limit: limit,
    };
    instantiate(at(0), from("deployer"), msg, &Api::new()).unwrap()
}

fn day_limit() -> BurnLimit {
    BurnLimit { total: 1000, per_address: 500, duration: 86400 }
}

fn burn_msg(burner: &str, amount: u128) -> ExecuteMsg {
    ExecuteMsg::Receive(Cw20ReceiveMsg {
        sender: burner.to_string(),
        amount,
        msg: Ok(Cw20HookMsg::Burn {}),
    })
}

fn do_burn(
    state: &mut State,
    now: u64,
    burner: &str,
    amount: u128,
    held: u128,
) -> Result<Response, ContractError> {
    execute(state, at(now), from(TOKEN), burn_msg(burner, amount), Ok(held), &Api::new())
}

fn burned_today(state: &State, now: u64, address: &str) -> u128 {
    match query(state, at(now), QueryMsg::BurnedTodayByAddress { address: address.to_string() }, &Api::new())
        .unwrap()
    {
        QueryResponse::BurnedTodayByAddress(res) => res.amount,
        other => panic!("unexpected answer {:?}", other),
    }
}

fn total_today(state: &State, now: u64) -> u128 {
    match query(state, at(now), QueryMsg::TotalBurnedToday {}, &Api::new()).unwrap() {
        QueryResponse::TotalBurnedToday(res) => res.amount,
        other => panic!("unexpected answer {:?}", other),
    }
}

fn transfer(recipient: &str, amount: u128) -> CosmosMsg {
    CosmosMsg::Wasm(WasmMsg::Execute {
        contract_addr: TOKEN.to_string(),
        msg: Payload::Cw20Transfer { recipient: recipient.to_string(), amount },
        funds: vec![],
    })
}

#[test]
fn set_up_and_queries() {
    let state = setup(day_limit(), 10, 20);
    match query(&state, at(0), QueryMsg::Owner {}, &Api::new()).unwrap() {
        QueryResponse::Owner(res) => assert_eq!(res.owner, "owner"),
        other => panic!("unexpected answer {:?}", other),
    }
    match query(&state, at(0), QueryMsg::RewardAddress {}, &Api::new()).unwrap() {
        QueryResponse::RewardAddress(res) => assert_eq!(res.address, "rewards"),
        other => panic!("unexpected answer {:?}", other),
    }
    match query(&state, at(0), QueryMsg::RewardInfo {}, &Api::new()).unwrap() {
        QueryResponse::RewardInfo(res) => assert_eq!(res.0.refund_ratio, Decimal::percent(10)),
        other => panic!("unexpected answer {:?}", other),
    }
    match query(&state, at(0), QueryMsg::BurnLimit {}, &Api::new()).unwrap() {
        QueryResponse::BurnLimit(res) => assert_eq!(res.0, day_limit()),
        other => panic!("unexpected answer {:?}", other),
    }
    match query(&state, at(0), QueryMsg::BurnedAmount {}, &Api::new()).unwrap() {
        QueryResponse::BurnedAmount(res) => assert_eq!(res.burned_amount, 0),
        other => panic!("unexpected answer {:?}", other),
    }
    assert_eq!(total_today(&state, 0), 0);
    assert_eq!(burned_today(&state, 0, "a"), 0);
}

// limit {total 1000, per address 500, a day}: 500 at t=0 goes through, 1
// more at t=0 is refused, 500 at t=86401 goes through in a new window
#[test]
fn burn_limit_scenario() {
    let mut state = setup(day_limit(), 10, 20);
    do_burn(&mut state, 0, "a", 500, 0).unwrap();
    assert_eq!(burned_today(&state, 0, "a"), 500);
    let before = format!("{:?}", state);
    let err = do_burn(&mut state, 0, "a", 1, 0).unwrap_err();
    assert_eq!(err, ContractError::ExceedBurnLimit {});
    assert_eq!(before, format!("{:?}", state));
    // the last second of the window still counts
    let err = do_burn(&mut state, 86400, "a", 1, 0).unwrap_err();
    assert_eq!(err, ContractError::ExceedBurnLimit {});
    assert_eq!(burned_today(&state, 86400, "a"), 500);
    assert_eq!(burned_today(&state, 86401, "a"), 0);
    do_burn(&mut state, 86401, "a", 500, 0).unwrap();
    assert_eq!(burned_today(&state, 86401, "a"), 500);
    assert_eq!(total_today(&state, 86401), 500);
}

#[test]
fn equal_burns_fill_the_window() {
    // L = 500, A = 120: four burns go through (480), the fifth is refused
    let mut state = setup(BurnLimit { total: 10_000, per_address: 500, duration: 100 }, 10, 20);
    for n in 1..=4u128 {
        do_burn(&mut state, 10 * n as u64, "a", 120, 0).unwrap();
        assert_eq!(burned_today(&state, 10 * n as u64, "a"), n * 120);
    }
    let err = do_burn(&mut state, 50, "a", 120, 0).unwrap_err();
    assert_eq!(err, ContractError::ExceedBurnLimit {});
    // another address has a window of its own
    do_burn(&mut state, 50, "b", 500, 0).unwrap();
    // past the window a burn up to the limit goes through again
    do_burn(&mut state, 111, "a", 500, 0).unwrap();
    assert_eq!(burned_today(&state, 111, "a"), 500);
}

#[test]
fn overall_limit_holds_across_addresses() {
    let mut state = setup(day_limit(), 10, 20);
    do_burn(&mut state, 0, "a", 500, 0).unwrap();
    do_burn(&mut state, 0, "b", 500, 0).unwrap();
    let before = format!("{:?}", state);
    let err = do_burn(&mut state, 0, "c", 1, 0).unwrap_err();
    assert_eq!(err, ContractError::ExceedBurnLimit {});
    assert_eq!(before, format!("{:?}", state));
    assert_eq!(total_today(&state, 0), 1000);
    assert_eq!(total_today(&state, 86401), 0);
}

#[test]
fn window_steps() {
    let w = BurnedToday { amount: 40, latest_burned: 100 };
    assert!(!is_expired(&w, 50, 150));
    assert!(is_expired(&w, 50, 151));
    assert!(!is_expired(&w, u64::MAX, u64::MAX));
    assert_eq!(roll(&w, 100, 50, 60, 150), Some(BurnedToday { amount: 100, latest_burned: 100 }));
    assert_eq!(roll(&w, 100, 50, 61, 150), None);
    assert_eq!(roll(&w, 100, 50, u128::MAX, 150), None);
    // a window that has run out begins anew with the burn, whatever its size
    assert_eq!(roll(&w, 100, 50, 61, 151), Some(BurnedToday { amount: 61, latest_burned: 151 }));
    assert_eq!(roll(&w, 100, 50, 500, 151), Some(BurnedToday { amount: 500, latest_burned: 151 }));
}

#[test]
fn refund_comes_before_reward() {
    let big = BurnLimit { total: u128::MAX, per_address: u128::MAX, duration: 1 };
    // of 1000 burned: 100 refund, 200 reward
    let mut state = setup(big, 10, 20);
    let res = do_burn(&mut state, 0, "a", 1000, 10_000).unwrap();
    assert_eq!(res.messages.len(), 3);
    assert_eq!(
        res.messages[0].msg,
        CosmosMsg::Wasm(WasmMsg::Execute {
            contract_addr: TOKEN.to_string(),
            msg: Payload::Cw20Burn { amount: 1000 },
            funds: vec![]
        })
    );
    assert_eq!(res.messages[1].msg, transfer("a", 100));
    assert_eq!(res.messages[2].msg, transfer("rewards", 200));
    let attrs: Vec<(&str, &str)> =
        res.attributes.iter().map(|a| (a.key.as_str(), a.value.as_str())).collect();
    assert_eq!(attrs, vec![("action", "burn"), ("burner", "a"), ("burn_amount", "1000")]);

    // 250 held: the refund in full, the reward what is left
    let res = do_burn(&mut state, 0, "a", 1000, 250).unwrap();
    assert_eq!(res.messages[1].msg, transfer("a", 100));
    assert_eq!(res.messages[2].msg, transfer("rewards", 150));
    // 100 held: the refund takes it all, no reward message
    let res = do_burn(&mut state, 0, "a", 1000, 100).unwrap();
    assert_eq!(res.messages.len(), 2);
    assert_eq!(res.messages[1].msg, transfer("a", 100));
    // 60 held: the refund is capped
    let res = do_burn(&mut state, 0, "a", 1000, 60).unwrap();
    assert_eq!(res.messages.len(), 2);
    assert_eq!(res.messages[1].msg, transfer("a", 60));
    // nothing held: only the burn
    let res = do_burn(&mut state, 0, "a", 1000, 0).unwrap();
    assert_eq!(res.messages.len(), 1);
    // a reward is paid where the refund rounds down to nothing
    let res = do_burn(&mut state, 0, "a", 9, 10_000).unwrap();
    assert_eq!(res.messages.len(), 2);
    assert_eq!(res.messages[1].msg, transfer("rewards", 1));
}

#[test]
fn burn_refusals_change_nothing() {
    let mut state = setup(day_limit(), 10, 20);
    let before = format!("{:?}", state);
    let err = do_burn(&mut state, 0, "a", 0, 10).unwrap_err();
    assert_eq!(err, ContractError::ZeroAmount {});
    let msg = ExecuteMsg::Receive(Cw20ReceiveMsg {
        sender: "a".to_string(),
        amount: 5,
        msg: Err(StdError::generic_err("bad hook")),
    });
    let err = execute(&mut state, at(0), from(TOKEN), msg, Ok(10), &Api::new()).unwrap_err();
    assert_eq!(err, ContractError::StdError(StdError::generic_err("bad hook")));
    let gone = || StdError::generic_err("no such contract");
    let err =
        burn(&mut state, at(0), TOKEN.to_string(), "a".to_string(), 5, Err(gone())).unwrap_err();
    assert_eq!(err, ContractError::StdError(gone()));
    assert_eq!(before, format!("{:?}", state));

    // shares that leave the range
    let mut state = setup(day_limit(), 10, 20);
    state.reward_info.reward_ratio = Decimal::raw(u128::MAX);
    let err = do_burn(&mut state, 0, "a", 2_000_000_000_000_000_000, 10).unwrap_err();
    assert_eq!(err, ContractError::StdError(StdError::overflow()));
}

#[test]
fn administration() {
    let mut state = setup(day_limit(), 10, 20);
    let run = |state: &mut State, sender: &str, msg: ExecuteMsg| {
        execute(state, at(0), from(sender), msg, Ok(0), &Api::new())
    };
    let d = Decimal::percent;

    for msg in [
        ExecuteMsg::UpdateOwner { owner: "x".into() },
        ExecuteMsg::UpdateRewardAddress { address: "x".into() },
        ExecuteMsg::UpdateRewardInfo { refund_ratio: None, reward_ratio: None },
        ExecuteMsg::UpdateBurnLimit { total: None, per_address: None, duration: None },
    ] {
        assert_eq!(run(&mut state, "anyone", msg).unwrap_err(), ContractError::Unauthorized {});
    }

    let ratios = |refund_ratio, reward_ratio| ExecuteMsg::UpdateRewardInfo { refund_ratio, reward_ratio };
    assert_eq!(
        run(&mut state, "owner", ratios(Some(d(5)), Some(d(0)))).unwrap_err(),
        ContractError::ZeroAmount {}
    );
    assert_eq!(
        run(&mut state, "owner", ratios(Some(d(101)), Some(d(5)))).unwrap_err(),
        ContractError::RatioMustBeLessThanOne {}
    );
    assert_eq!(state.reward_info.reward_ratio, d(20));
    run(&mut state, "owner", ratios(Some(d(100)), None)).unwrap();
    assert_eq!(state.reward_info, RewardInfo { refund_ratio: d(100), reward_ratio: d(20) });

    let limits = |total, per_address, duration| ExecuteMsg::UpdateBurnLimit { total, per_address, duration };
    for msg in [limits(Some(0), None, None), limits(Some(5), Some(0), None), limits(None, None, Some(0))] {
        assert_eq!(run(&mut state, "owner", msg).unwrap_err(), ContractError::ZeroAmount {});
    }
    assert_eq!(state.burn_limit, day_limit());
    run(&mut state, "owner", limits(Some(7), None, Some(9))).unwrap();
    assert_eq!(state.burn_limit, BurnLimit { total: 7, per_address: 500, duration: 9 });

    run(&mut state, "owner", ExecuteMsg::UpdateRewardAddress { address: "pot".into() }).unwrap();
    assert_eq!(state.reward_address, "pot");
    run(&mut state, "owner", ExecuteMsg::UpdateOwner { owner: "next".into() }).unwrap();
    assert_eq!(state.owner, "next");
    assert_eq!(
        run(&mut state, "owner", ExecuteMsg::UpdateOwner { owner: "x".into() }).unwrap_err(),
        ContractError::Unauthorized {}
    );
}

#[test]
fn token_burner_addresses_are_checked_where_the_handler_reaches_them() {
    let mut api = Api::new();
    api.reject("BAD".to_string(), StdError::generic_err("Invalid input"));
    let invalid = || ContractError::StdError(StdError::generic_err("Invalid input"));

    for (owner, reward_address) in [("BAD", "rewards"), ("owner", "BAD")] {
        let msg = InstantiateMsg {
            owner: owner.to_string(),
            reward_address: reward_address.to_string(),
            reward_info: RewardInfo {
                refund_ratio: Decimal::percent(1),
                reward_ratio: Decimal::percent(1),
            },
            burn_limit: day_limit(),
        };
        assert_eq!(instantiate(at(0), from("deployer"), msg, &api).unwrap_err(), invalid());
    }

    let mut state = setup(day_limit(), 10, 20);
    let before = format!("{:?}", state);
    // a new owner's address is looked at before the sender is
    let msg = ExecuteMsg::UpdateOwner { owner: "BAD".into() };
    assert_eq!(execute(&mut state, at(0), from("anyone"), msg, Ok(0), &api).unwrap_err(), invalid());
    // a reward address after
    let msg = ExecuteMsg::UpdateRewardAddress { address: "BAD".into() };
    assert_eq!(
        execute(&mut state, at(0), from("anyone"), msg, Ok(0), &api).unwrap_err(),
        ContractError::Unauthorized {}
    );
    let msg = ExecuteMsg::UpdateRewardAddress { address: "BAD".into() };
    assert_eq!(execute(&mut state, at(0), from("owner"), msg, Ok(0), &api).unwrap_err(), invalid());
    // a burner's address after the hook message
    let msg = ExecuteMsg::Receive(Cw20ReceiveMsg {
        sender: "BAD".to_string(),
        amount: 5,
        msg: Err(StdError::generic_err("bad hook")),
    });
    assert_eq!(
        execute(&mut state, at(0), from(TOKEN), msg, Ok(0), &api).unwrap_err(),
        ContractError::StdError(StdError::generic_err("bad hook"))
    );
    assert_eq!(
        execute(&mut state, at(0), from(TOKEN), burn_msg("BAD", 5), Ok(0), &api).unwrap_err(),
        invalid()
    );
    assert_eq!(before, format!("{:?}", state));
    let q = QueryMsg::BurnedTodayByAddress { address: "BAD".to_string() };
    assert_eq!(query(&state, at(0), q, &api).unwrap_err(), StdError::generic_err("Invalid input"));
}
