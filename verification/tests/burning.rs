use std::collections::HashMap;

use cosmwasm_std::{Decimal as HostDecimal, Uint128};
use cremation::burning::contract::{execute, instantiate, query, reply};
use cremation::burning::error::ContractError;
use cremation::burning::execute::Answers;
use cremation::burning::helpers::{psuedo_rand, rand_at};
use cremation::burning::msg::{
    Cw20HookMsg, DevelopmentConfig, ExecuteMsg, InstantiateMsg, QueryMsg, QueryResponse,
    RewardInfo,
};
use cremation::burning::state::State;
use cremation::cremation_token::msg::{AssetInfo, RouterExecuteMsg, SwapOperation};
use cremation::error::StdError;
use cremation::host::{
    Api, BankMsg, BlockInfo, Coin, ContractInfo, CosmosMsg, Cw20ReceiveMsg, Env, MessageInfo, Payload,
    Reply, ReplyOn, Response, Timestamp, WasmMsg,
};
use cremation::math::Decimal;

const BURNING_ADDR: &str = "contract0";

fn lunc_tax() -> HostDecimal {
    HostDecimal::permille(5)
}

fn mock_env() -> Env {
    Env {
        block: BlockInfo { time: Timestamp::from_nanos(1_571_797_419_879_305_533) },
        contract: ContractInfo { address: BURNING_ADDR.to_string() },
    }
}

fn mock_info(sender: &str, funds: &[Coin]) -> MessageInfo {
    MessageInfo { sender: sender.to_string(), funds: funds.to_vec() }
}

fn coin(amount: u128, denom: &str) -> Coin {
    Coin { denom: denom.to_string(), amount }
}

fn default_config() -> DevelopmentConfig {
    DevelopmentConfig { fee_ratio: Decimal::percent(2), beneficiary: "beneficiary".to_string() }
}

fn setup(owner: &str) -> State {
    let init_msg =
        InstantiateMsg { owner: owner.to_string(), development_config: default_config() };
    instantiate(mock_env(), mock_info("deployer", &[]), init_msg, &Api::new()).unwrap()
}

fn run(state: &mut State, sender: &str, msg: ExecuteMsg) -> Result<Response, ContractError> {
    execute(state, mock_env(), mock_info(sender, &[]), msg, &Answers::new(), &Api::new())
}

fn whitelist(state: &State) -> Vec<RewardInfo> {
    match query(state, mock_env(), QueryMsg::RewardWhitelist {}).unwrap() {
        QueryResponse::RewardWhitelist(w) => w.reward_whitelist,
        other => panic!("unexpected answer {:?}", other),
    }
}

fn burned(state: &State) -> u128 {
    match query(state, mock_env(), QueryMsg::BurnedAmount {}).unwrap() {
        QueryResponse::BurnedAmount(b) => b.burned_amount,
        other => panic!("unexpected answer {:?}", other),
    }
}

fn mock_reward_list(len: u64) -> Vec<RewardInfo> {
    let mut reward_list = Vec::new();
    for i in 0..len {
        let token = format!("token{}", i);
        let reward_ratio = Decimal::percent((i + 1) * 10);
        reward_list.push(RewardInfo { token, reward_ratio });
    }
    reward_list
}

fn execute_add_multi_rewards_to_whitelist(
    state: &mut State,
    owner: &str,
    rewards_info: Vec<RewardInfo>,
) {
    for reward_info in rewards_info {
        let msg = ExecuteMsg::AddToRewardWhitelist { reward_info };
        run(state, owner, msg).unwrap();
    }
}

/// A chain in miniature: the burner, the bank and the reward tokens.
struct World {
    state: State,
    bank: HashMap<String, u128>,
    tokens: HashMap<String, HashMap<String, u128>>,
}

struct SetupContractsRes {
    reward_list: Vec<RewardInfo>,
}

impl World {
    fn new(funded: &[(&str, u128)]) -> World {
        let mut bank = HashMap::new();
        for (who, amount) in funded {
            bank.insert(who.to_string(), *amount);
        }
        World { state: setup("owner"), bank, tokens: HashMap::new() }
    }

    fn bank_balance(&self, who: &str) -> u128 {
        *self.bank.get(who).unwrap_or(&0)
    }

    fn token_balance(&self, token: &str, who: &str) -> u128 {
        self.tokens.get(token).and_then(|t| t.get(who)).copied().unwrap_or(0)
    }

    fn held(&self) -> Answers {
        let mut held = Answers::new();
        for (token, balances) in self.tokens.iter() {
            held.insert(token.clone(), Ok(*balances.get(BURNING_ADDR).unwrap_or(&0)));
        }
        held
    }

    fn apply(&mut self, res: &Response) {
        for sub in res.messages.iter() {
            match &sub.msg {
                CosmosMsg::Bank(BankMsg::Send { to_address, amount }) => {
                    for c in amount {
                        *self.bank.get_mut(BURNING_ADDR).unwrap() -= c.amount;
                        *self.bank.entry(to_address.clone()).or_insert(0) += c.amount;
                    }
                }
                CosmosMsg::Bank(BankMsg::Burn { amount }) => {
                    for c in amount {
                        *self.bank.get_mut(BURNING_ADDR).unwrap() -= c.amount;
                    }
                }
                CosmosMsg::Wasm(WasmMsg::Execute {
                    contract_addr,
                    msg: Payload::Cw20Transfer { recipient, amount },
                    ..
                }) => {
                    let token = self.tokens.get_mut(contract_addr).unwrap();
                    *token.get_mut(BURNING_ADDR).unwrap() -= *amount;
                    *token.entry(recipient.clone()).or_insert(0) += *amount;
                }
                other => panic!("unexpected message {:?}", other),
            }
        }
    }

    fn execute_contract(
        &mut self,
        sender: &str,
        msg: ExecuteMsg,
        funds: &[Coin],
    ) -> Result<Response, ContractError> {
        for c in funds {
            assert!(self.bank_balance(sender) >= c.amount);
        }
        let held = self.held();
        let res = execute(&mut self.state, mock_env(), mock_info(sender, funds), msg, &held, &Api::new())?;
        for c in funds {
            *self.bank.get_mut(sender).unwrap() -= c.amount;
            *self.bank.entry(BURNING_ADDR.to_string()).or_insert(0) += c.amount;
        }
        self.apply(&res);
        Ok(res)
    }

    fn setup_multi_test_contracts(
        &mut self,
        owner: &str,
        init_cw20_reward: u128,
        development_config: Option<DevelopmentConfig>,
    ) -> SetupContractsRes {
        let development_config = development_config.unwrap_or(default_config());
        self.state = instantiate(
            mock_env(),
            mock_info("deployer", &[]),
            InstantiateMsg { owner: owner.to_string(), development_config }, &Api::new(),
        )
        .unwrap();
        let mut token_addrs = vec![];
        for i in 0..10 {
            let token_addr = format!("contract{}", i + 1);
            let mut balances = HashMap::new();
            balances.insert(BURNING_ADDR.to_string(), init_cw20_reward);
            self.tokens.insert(token_addr.clone(), balances);
            token_addrs.push(token_addr);
        }
        let mut reward_list = vec![];
        for i in 0..10 {
            let reward_ratio = Decimal::percent((i + 1) as u64 * 10);
            let reward_info = RewardInfo { token: token_addrs[i].clone(), reward_ratio };
            reward_list.push(reward_info.clone());
            self.execute_contract(owner, ExecuteMsg::AddToRewardWhitelist { reward_info }, &[])
                .unwrap();
        }
        SetupContractsRes { reward_list }
    }
}

fn host(d: Decimal) -> HostDecimal {
    HostDecimal::raw(d.atomics)
}

// 1. init properly
#[test]
fn init_properly() {
    let owner = "owner";
    let development_config = default_config();
    let state = setup(owner);

    match query(&state, mock_env(), QueryMsg::Owner {}).unwrap() {
        QueryResponse::Owner(res) => assert_eq!(res.owner, owner.to_string()),
        other => panic!("unexpected answer {:?}", other),
    }
    assert_eq!(whitelist(&state).len(), 0);
    assert_eq!(burned(&state), Uint128::zero().u128());
    match query(&state, mock_env(), QueryMsg::DevelopmentConfig {}).unwrap() {
        QueryResponse::DevelopmentConfig(res) => assert_eq!(res.0, development_config),
        other => panic!("unexpected answer {:?}", other),
    }
    match query(&state, mock_env(), QueryMsg::SwapRouter {}).unwrap() {
        QueryResponse::SwapRouter(res) => assert_eq!(res.swap_router, None),
        other => panic!("unexpected answer {:?}", other),
    }
}

#[test]
fn init_refuses_fee_ratio_of_one() {
    let init_msg = InstantiateMsg {
        owner: "owner".to_string(),
        development_config: DevelopmentConfig {
            fee_ratio: Decimal::one(),
            beneficiary: "beneficiary".to_string(),
        },
    };
    let err = instantiate(mock_env(), mock_info("deployer", &[]), init_msg, &Api::new()).unwrap_err();
    assert_eq!(err, ContractError::FeeRatioMustBeLessThanOne {});
}

// 2a. add reward to whitelist properly
#[test]
fn add_to_reward_whitelist_properly() {
    let owner = "owner";
    let mut state = setup(owner);

    let token = "token";
    let reward_ratio = Decimal::percent(10);
    let reward_info = RewardInfo { token: token.to_string(), reward_ratio };
    let msg = ExecuteMsg::AddToRewardWhitelist { reward_info };
    let res = run(&mut state, owner, msg).unwrap();

    assert_eq!(3, res.attributes.len());
    assert_eq!(res.attributes[0].key, "action");
    assert_eq!(res.attributes[0].value, "add_to_reward_whitelist");
    assert_eq!(res.attributes[1].key, "token");
    assert_eq!(res.attributes[1].value, token);
    assert_eq!(res.attributes[2].key, "reward_ratio");
    assert_eq!(res.attributes[2].value, HostDecimal::percent(10).to_string());
    assert_eq!(res.attributes[2].value, "0.1");
    assert_eq!(res.attributes[2].value, reward_ratio.to_string());

    let list = whitelist(&state);
    assert_eq!(list.len(), 1);
    assert_eq!(list[0].token, token.to_string());
    assert_eq!(list[0].reward_ratio, reward_ratio);

    let reward_list_len = 10;
    let rewards_info = mock_reward_list(reward_list_len);
    execute_add_multi_rewards_to_whitelist(&mut state, owner, rewards_info);
    assert_eq!(whitelist(&state).len(), 11);
}

// 2b. add reward to whitelist not authorized
#[test]
fn fail_to_add_to_reward_whitelist_not_authorized() {
    let mut state = setup("owner");
    let reward_info = RewardInfo { token: "token".to_string(), reward_ratio: Decimal::percent(10) };
    let msg = ExecuteMsg::AddToRewardWhitelist { reward_info };
    let res = run(&mut state, "anyone", msg);
    assert!(res.is_err());
    let err = res.unwrap_err();
    assert_eq!(err, ContractError::Unauthorized {});
}

// 2c. add reward to whitelist with zero ratio
#[test]
fn fail_to_add_to_reward_whitelist_with_zero_ratio() {
    let owner = "owner";
    let mut state = setup(owner);
    let reward_info = RewardInfo { token: "token".to_string(), reward_ratio: Decimal::zero() };
    let msg = ExecuteMsg::AddToRewardWhitelist { reward_info };
    let res = run(&mut state, owner, msg);
    assert!(res.is_err());
    let err = res.unwrap_err();
    assert_eq!(err, ContractError::ZeroRatio {});
}

// 2d. add reward already in whitelist
#[test]
fn fail_to_add_to_reward_whitelist_already_in_whitelist() {
    let owner = "owner";
    let mut state = setup(owner);
    let reward_list_len = 10;
    let reward_list = mock_reward_list(reward_list_len);
    execute_add_multi_rewards_to_whitelist(&mut state, owner, reward_list.clone());

    let rand_id = psuedo_rand(reward_list_len);
    let reward_info = reward_list[rand_id].to_owned();
    let msg = ExecuteMsg::AddToRewardWhitelist { reward_info };
    let res = run(&mut state, owner, msg);
    assert!(res.is_err());
    let err = res.unwrap_err();
    assert_eq!(err, ContractError::AlreadyExists {});
}

// 3a. remove reward from whitelist properly
#[test]
fn remove_from_reward_whitelist_properly() {
    let owner = "owner";
    let mut state = setup(owner);
    let reward_list_len = 10;
    let reward_list = mock_reward_list(reward_list_len);
    execute_add_multi_rewards_to_whitelist(&mut state, owner, reward_list.clone());

    let rand_id = psuedo_rand(reward_list_len);
    let reward_info = reward_list[rand_id].to_owned();
    let token = reward_info.token.to_string();
    let msg = ExecuteMsg::RemoveFromRewardWhitelist { token: token.clone() };
    let res = run(&mut state, owner, msg).unwrap();

    assert_eq!(2, res.attributes.len());
    assert_eq!(res.attributes[0].key, "action");
    assert_eq!(res.attributes[0].value, "remove_from_reward_whitelist");
    assert_eq!(res.attributes[1].key, "token");
    assert_eq!(res.attributes[1].value, token);

    let list = whitelist(&state);
    assert_eq!(list.len(), (reward_list_len - 1) as usize);
    for reward_info in list {
        assert_ne!(reward_info.token, token);
    }
}

// 3b. remove reward from whitelist not authorized
#[test]
fn fail_to_remove_from_reward_whitelist_not_authorized() {
    let owner = "owner";
    let mut state = setup(owner);
    let token = "token";
    let reward_info = RewardInfo { token: token.to_string(), reward_ratio: Decimal::percent(10) };
    let msg = ExecuteMsg::AddToRewardWhitelist { reward_info };
    let res = run(&mut state, owner, msg).unwrap();
    assert_eq!(3, res.attributes.len());

    let msg = ExecuteMsg::RemoveFromRewardWhitelist { token: token.to_string() };
    let res = run(&mut state, "anyone", msg);
    assert!(res.is_err());
    let err = res.unwrap_err();
    assert_eq!(err, ContractError::Unauthorized {});
}

// 3c. remove reward from whitelist not in whitelist
#[test]
fn fail_to_remove_from_reward_whitelist_not_in_whitelist() {
    let owner = "owner";
    let mut state = setup(owner);
    let reward_list = mock_reward_list(5);
    execute_add_multi_rewards_to_whitelist(&mut state, owner, reward_list);

    let msg =
        ExecuteMsg::RemoveFromRewardWhitelist { token: "token-not-in-whitelist".to_string() };
    let res = run(&mut state, owner, msg);
    assert!(res.is_err());
    let err = res.unwrap_err();
    assert_eq!(err, ContractError::NotInWhitelist {});
}

// 4a. update reward info properly
#[test]
fn update_reward_info_properly() {
    let owner = "owner";
    let mut state = setup(owner);
    let reward_list_len = 10;
    let reward_list = mock_reward_list(reward_list_len);
    execute_add_multi_rewards_to_whitelist(&mut state, owner, reward_list.clone());

    let rand_id = psuedo_rand(reward_list_len);
    let token = reward_list[rand_id].token.clone();
    let new_reward_ratio = Decimal::percent(50);
    let reward_info = RewardInfo { token: token.clone(), reward_ratio: new_reward_ratio };
    let msg = ExecuteMsg::UpdateRewardInfo { reward_info };
    let res = run(&mut state, owner, msg).unwrap();
    assert_eq!(3, res.attributes.len());
    assert_eq!(res.attributes[0].value, "update_reward_info");
    assert_eq!(res.attributes[2].value, HostDecimal::percent(50).to_string());

    let list = whitelist(&state);
    assert_eq!(list.len(), reward_list_len as usize);
    let updated = list.iter().find(|r| r.token == token).unwrap();
    assert_eq!(updated.reward_ratio, new_reward_ratio);
}

// 4b. update reward info not authorized
#[test]
fn fail_to_update_reward_info_not_authorized() {
    let owner = "owner";
    let mut state = setup(owner);
    let reward_list = mock_reward_list(5);
    execute_add_multi_rewards_to_whitelist(&mut state, owner, reward_list.clone());
    let reward_info =
        RewardInfo { token: reward_list[0].token.clone(), reward_ratio: Decimal::percent(50) };
    let res = run(&mut state, "anyone", ExecuteMsg::UpdateRewardInfo { reward_info });
    assert!(res.is_err());
    assert_eq!(res.unwrap_err(), ContractError::Unauthorized {});
}

// 4c. update reward info with zero ratio
#[test]
fn fail_to_update_reward_info_with_zero_ratio() {
    let owner = "owner";
    let mut state = setup(owner);
    let reward_list = mock_reward_list(5);
    execute_add_multi_rewards_to_whitelist(&mut state, owner, reward_list.clone());
    let reward_info =
        RewardInfo { token: reward_list[0].token.clone(), reward_ratio: Decimal::zero() };
    let res = run(&mut state, owner, ExecuteMsg::UpdateRewardInfo { reward_info });
    assert!(res.is_err());
    assert_eq!(res.unwrap_err(), ContractError::ZeroRatio {});
}

// 4d. update reward info not in whitelist
#[test]
fn fail_to_update_reward_info_not_in_whitelist() {
    let owner = "owner";
    let mut state = setup(owner);
    let reward_list = mock_reward_list(5);
    execute_add_multi_rewards_to_whitelist(&mut state, owner, reward_list);
    let reward_info = RewardInfo {
        token: "token-not-in-whitelist".to_string(),
        reward_ratio: Decimal::percent(50),
    };
    let res = run(&mut state, owner, ExecuteMsg::UpdateRewardInfo { reward_info });
    assert!(res.is_err());
    assert_eq!(res.unwrap_err(), ContractError::NotInWhitelist {});
}

// 5a. burn properly
#[test]
fn burn_properly() {
    let owner = "owner";
    let burner = "burner";
    let burner_funds = vec![coin(1_000_000, "uluna")];
    let mut app = World::new(&[(burner, 1_000_000)]);

    let cw20_reward = 1_000_000_000;
    let development_config = default_config();
    let setup_res =
        app.setup_multi_test_contracts(owner, cw20_reward, Some(development_config.clone()));
    let reward_list = setup_res.reward_list;

    let burn_amount = Uint128::new(burner_funds[0].amount);
    let _res = app
        .execute_contract(burner, ExecuteMsg::Burn {}, &[coin(burn_amount.u128(), "uluna")])
        .unwrap();

    let beneficiary_balance = app.bank_balance(&development_config.beneficiary);
    let development_fee = burn_amount * host(development_config.fee_ratio);
    assert_eq!(beneficiary_balance, development_fee.u128());
    assert_eq!(beneficiary_balance, 20_000);
    let send_tax = development_fee * lunc_tax();
    assert_eq!(send_tax.u128(), 100);
    let actual_burned_amount = burn_amount - development_fee - send_tax;
    assert_eq!(actual_burned_amount.u128(), 979_900);

    assert_eq!(burned(&app.state), actual_burned_amount.u128());

    // what stays behind is the tax that the chain would take on the fee
    assert_eq!(app.bank_balance(BURNING_ADDR), send_tax.u128());

    for reward in reward_list {
        let reward_token_balance = app.token_balance(&reward.token, burner);
        let expected_reward_amount = actual_burned_amount * host(reward.reward_ratio);
        assert_eq!(reward_token_balance, expected_reward_amount.u128());
    }
}

// 5b. burn zero amount
#[test]
fn fail_to_burn_zero_amount() {
    let owner = "owner";
    let burner = "burner";
    let mut app = World::new(&[]);
    app.setup_multi_test_contracts(owner, 1000, None);

    let res = app.execute_contract(burner, ExecuteMsg::Burn {}, &[]);
    assert!(res.is_err());
    let err = res.unwrap_err();
    assert_eq!(ContractError::ZeroAmount {}, err);
}

// 5c. burn not enough rewards
#[test]
fn burn_not_enough_rewards() {
    let owner = "owner";
    let burner = "burner";
    let burner_funds = vec![coin(1_000_000, "uluna")];
    let mut app = World::new(&[(burner, 1_000_000)]);

    let cw20_reward = 0;
    let development_config = default_config();
    let setup_res =
        app.setup_multi_test_contracts(owner, cw20_reward, Some(development_config.clone()));
    let reward_list = setup_res.reward_list;

    let burn_amount = Uint128::new(burner_funds[0].amount);
    let res = app
        .execute_contract(burner, ExecuteMsg::Burn {}, &[coin(burn_amount.u128(), "uluna")])
        .unwrap();
    // fee and burn only: no token pays out
    assert_eq!(res.messages.len(), 2);

    let beneficiary_balance = app.bank_balance(&development_config.beneficiary);
    let development_fee = burn_amount * host(development_config.fee_ratio);
    assert_eq!(beneficiary_balance, development_fee.u128());

    let send_tax = development_fee * lunc_tax();
    let actual_burned_amount = burn_amount - development_fee - send_tax;
    assert_eq!(burned(&app.state), actual_burned_amount.u128());

    for reward in reward_list {
        assert_eq!(app.token_balance(&reward.token, burner), Uint128::zero().u128());
    }
}

// 5d. burned amount increase
#[test]
fn burned_amount_should_increase() {
    let owner = "owner";
    let burner = "burner";
    let mut app = World::new(&[(burner, 1_000_000)]);

    let cw20_reward = 1_000_000_000;
    let development_config = default_config();
    app.setup_multi_test_contracts(owner, cw20_reward, Some(development_config.clone()));

    let mut total_burned = Uint128::zero();
    let mut total_development_fee = Uint128::zero();
    for _ in 0..10 {
        let burn_amount = Uint128::new(1000);
        let development_fee = burn_amount * host(development_config.fee_ratio);
        total_burned += burn_amount - development_fee;
        total_development_fee += development_fee;

        app.execute_contract(burner, ExecuteMsg::Burn {}, &[coin(burn_amount.u128(), "uluna")])
            .unwrap();
        assert_eq!(burned(&app.state), total_burned.u128());
        assert_eq!(
            app.bank_balance(&development_config.beneficiary),
            total_development_fee.u128()
        );
    }
}

// ---- edge cases and refusals ----

#[test]
fn burn_caps_reward_at_holding_and_keeps_address_order() {
    let owner = "owner";
    let mut state = setup(owner);
    // added out of order; paid in address order
    for (token, percent) in [("tokb", 50u64), ("toka", 10u64), ("tokc", 100u64)] {
        let reward_info =
            RewardInfo { token: token.to_string(), reward_ratio: Decimal::percent(percent) };
        run(&mut state, owner, ExecuteMsg::AddToRewardWhitelist { reward_info }).unwrap();
    }
    let list = whitelist(&state);
    assert_eq!(
        list.iter().map(|r| r.token.as_str()).collect::<Vec<_>>(),
        vec!["toka", "tokb", "tokc"]
    );

    let mut held = Answers::new();
    held.insert("toka".to_string(), Ok(1_000_000));
    held.insert("tokb".to_string(), Ok(7)); // less than the share
    held.insert("tokc".to_string(), Ok(0)); // nothing to pay from
    let info = mock_info("burner", &[coin(1000, "uluna")]);
    let res = execute(&mut state, mock_env(), info, ExecuteMsg::Burn {}, &held, &Api::new()).unwrap();

    // 1000 * 2% = 20; 20 * 0.5% = 0; 980 burned
    assert_eq!(burned(&state), 980);
    assert_eq!(res.messages.len(), 4);
    assert_eq!(
        res.messages[0].msg,
        CosmosMsg::Bank(BankMsg::Send {
            to_address: "beneficiary".to_string(),
            amount: vec![coin(20, "uluna")]
        })
    );
    assert_eq!(res.messages[1].msg, CosmosMsg::Bank(BankMsg::Burn { amount: vec![coin(980, "uluna")] }));
    assert_eq!(
        res.messages[2].msg,
        CosmosMsg::Wasm(WasmMsg::Execute {
            contract_addr: "toka".to_string(),
            msg: Payload::Cw20Transfer { recipient: "burner".to_string(), amount: 98 },
            funds: vec![]
        })
    );
    assert_eq!(
        res.messages[3].msg,
        CosmosMsg::Wasm(WasmMsg::Execute {
            contract_addr: "tokb".to_string(),
            msg: Payload::Cw20Transfer { recipient: "burner".to_string(), amount: 7 },
            funds: vec![]
        })
    );
    let attrs: Vec<(&str, &str)> =
        res.attributes.iter().map(|a| (a.key.as_str(), a.value.as_str())).collect();
    assert_eq!(
        attrs,
        vec![
            ("action", "burn"),
            ("development_fee", "20"),
            ("burn_amount", "980"),
            ("token", "toka"),
            ("reward", "98"),
            ("token", "tokb"),
            ("reward", "7"),
        ]
    );
}

#[test]
fn burn_fails_unchanged_when_a_token_does_not_answer() {
    let owner = "owner";
    let mut state = setup(owner);
    let reward_info = RewardInfo { token: "toka".to_string(), reward_ratio: Decimal::percent(10) };
    run(&mut state, owner, ExecuteMsg::AddToRewardWhitelist { reward_info }).unwrap();

    let mut held = Answers::new();
    held.insert("toka".to_string(), Err(StdError::generic_err("no such contract")));
    let info = mock_info("burner", &[coin(1000, "uluna")]);
    let err = execute(&mut state, mock_env(), info, ExecuteMsg::Burn {}, &held, &Api::new()).unwrap_err();
    assert_eq!(err, ContractError::StdError(StdError::generic_err("no such contract")));
    assert_eq!(burned(&state), 0);

    // a token without any answer counts as one that failed
    let info = mock_info("burner", &[coin(1000, "uluna")]);
    let err =
        execute(&mut state, mock_env(), info, ExecuteMsg::Burn {}, &Answers::new(), &Api::new()).unwrap_err();
    assert_eq!(err, ContractError::StdError(StdError::NotFound { kind: "toka".to_string() }));
}

#[test]
fn update_development_config_and_set_swap_router() {
    let owner = "owner";
    let mut state = setup(owner);

    let err = run(
        &mut state,
        "anyone",
        ExecuteMsg::UpdateDevelopmentConfig { beneficiary: None, fee_ratio: None },
    )
    .unwrap_err();
    assert_eq!(err, ContractError::Unauthorized {});

    let err = run(
        &mut state,
        owner,
        ExecuteMsg::UpdateDevelopmentConfig {
            beneficiary: Some("other".to_string()),
            fee_ratio: Some(Decimal::one()),
        },
    )
    .unwrap_err();
    assert_eq!(err, ContractError::FeeRatioMustBeLessThanOne {});
    assert_eq!(state.development_fee_beneficiary, "beneficiary");

    let res = run(
        &mut state,
        owner,
        ExecuteMsg::UpdateDevelopmentConfig {
            beneficiary: Some("other".to_string()),
            fee_ratio: Some(Decimal::permille(25)),
        },
    )
    .unwrap();
    let attrs: Vec<(&str, &str)> =
        res.attributes.iter().map(|a| (a.key.as_str(), a.value.as_str())).collect();
    assert_eq!(
        attrs,
        vec![
            ("action", "update_development_config"),
            ("fee_ratio", "0.025"),
            ("beneficiary", "other")
        ]
    );
    assert_eq!(state.development_fee_ratio, Decimal::permille(25));
    assert_eq!(state.development_fee_beneficiary, "other");

    let err = run(&mut state, "anyone", ExecuteMsg::SetSwapRouter { router: "router".into() })
        .unwrap_err();
    assert_eq!(err, ContractError::Unauthorized {});
    let res =
        run(&mut state, owner, ExecuteMsg::SetSwapRouter { router: "router".into() }).unwrap();
    assert_eq!(res.attributes[1].value, "router");
    assert_eq!(state.swap_router, Some("router".to_string()));
}

fn uluna() -> AssetInfo {
    AssetInfo::NativeToken { denom: "uluna".to_string() }
}

#[test]
fn swap_and_burn_is_single_flight() {
    let owner = "owner";
    let mut state = setup(owner);
    let paths = vec![AssetInfo::Token { contract_addr: "mid".to_string() }];

    // no router yet
    let info = mock_info("alice", &[coin(1000, "uusd")]);
    let msg = ExecuteMsg::SwapAndBurn { denom: "uusd".to_string(), swap_paths: paths.clone() };
    let err = execute(&mut state, mock_env(), info, msg, &Answers::new(), &Api::new()).unwrap_err();
    assert_eq!(err, ContractError::StdError(StdError::not_found("swap_router")));
    assert!(!state.cache.locked);

    run(&mut state, owner, ExecuteMsg::SetSwapRouter { router: "router".into() }).unwrap();

    // nothing attached in that denomination
    let info = mock_info("alice", &[coin(1000, "uluna")]);
    let msg = ExecuteMsg::SwapAndBurn { denom: "uusd".to_string(), swap_paths: vec![] };
    let err = execute(&mut state, mock_env(), info, msg, &Answers::new(), &Api::new()).unwrap_err();
    assert_eq!(err, ContractError::ZeroAmount {});

    // a continuation with nothing in flight is refused
    let err = reply(&mut state, mock_env(), Reply { id: 1 }, 500, &Answers::new()).unwrap_err();
    assert_eq!(err, ContractError::AlreadyUnlocked {});

    let info = mock_info("alice", &[coin(1000, "uusd")]);
    let msg = ExecuteMsg::SwapAndBurn { denom: "uusd".to_string(), swap_paths: paths.clone() };
    let res = execute(&mut state, mock_env(), info, msg, &Answers::new(), &Api::new()).unwrap();
    assert!(state.cache.locked);
    assert_eq!(state.cache.burner, "alice");
    assert_eq!(res.messages.len(), 1);
    assert_eq!(res.messages[0].id, 1);
    assert_eq!(res.messages[0].reply_on, ReplyOn::Success);
    let mid = AssetInfo::Token { contract_addr: "mid".to_string() };
    assert_eq!(
        res.messages[0].msg,
        CosmosMsg::Wasm(WasmMsg::Execute {
            contract_addr: "router".to_string(),
            msg: Payload::Router {
                msg: RouterExecuteMsg::ExecuteSwapOperations {
                    operations: vec![
                        SwapOperation::TerraPort {
                            offer_asset_info: AssetInfo::NativeToken { denom: "uusd".into() },
                            ask_asset_info: mid.clone()
                        },
                        SwapOperation::TerraPort {
                            offer_asset_info: mid,
                            ask_asset_info: uluna()
                        },
                    ],
                    minimum_receive: None,
                    to: None,
                    deadline: None
                }
            },
            // 1000 less 0.5 %
            funds: vec![coin(995, "uusd")]
        })
    );

    // a second settlement cannot begin, by coins or by tokens
    let before = format!("{:?}", state);
    let info = mock_info("bob", &[coin(1000, "uusd")]);
    let msg = ExecuteMsg::SwapAndBurn { denom: "uusd".to_string(), swap_paths: vec![] };
    let err = execute(&mut state, mock_env(), info, msg, &Answers::new(), &Api::new()).unwrap_err();
    assert_eq!(err, ContractError::Locked {});
    let msg = ExecuteMsg::Receive(Cw20ReceiveMsg {
        sender: "bob".to_string(),
        amount: 5,
        msg: Ok(Cw20HookMsg::SwapAndBurn { swap_paths: vec![] }),
    });
    let err = execute(&mut state, mock_env(), mock_info("tok", &[]), msg, &Answers::new(), &Api::new())
        .unwrap_err();
    assert_eq!(err, ContractError::Locked {});
    assert_eq!(before, format!("{:?}", state));

    // a continuation with a foreign tag is refused
    let err = reply(&mut state, mock_env(), Reply { id: 2 }, 500, &Answers::new()).unwrap_err();
    assert_eq!(err, ContractError::InvalidReplyMsg {});
    assert!(state.cache.locked);

    // the continuation burns for the recorded actor and frees the lock
    let res = reply(&mut state, mock_env(), Reply { id: 1 }, 500, &Answers::new()).unwrap();
    assert!(!state.cache.locked);
    // 500 * 2% = 10; 10 * 0.5% = 0; 490 burned
    assert_eq!(burned(&state), 490);
    assert_eq!(res.messages.len(), 2);
    assert_eq!(res.attributes[2].value, "490");
}

#[test]
fn receive_cw20_begins_a_token_swap() {
    let owner = "owner";
    let mut state = setup(owner);
    run(&mut state, owner, ExecuteMsg::SetSwapRouter { router: "router".into() }).unwrap();

    let msg = ExecuteMsg::Receive(Cw20ReceiveMsg {
        sender: "bob".to_string(),
        amount: 5,
        msg: Err(StdError::generic_err("bad hook")),
    });
    let err = execute(&mut state, mock_env(), mock_info("tok", &[]), msg, &Answers::new(), &Api::new())
        .unwrap_err();
    assert_eq!(err, ContractError::StdError(StdError::generic_err("bad hook")));
    assert!(!state.cache.locked);

    let msg = ExecuteMsg::Receive(Cw20ReceiveMsg {
        sender: "bob".to_string(),
        amount: 5,
        msg: Ok(Cw20HookMsg::SwapAndBurn { swap_paths: vec![] }),
    });
    let res =
        execute(&mut state, mock_env(), mock_info("tok", &[]), msg, &Answers::new(), &Api::new()).unwrap();
    assert!(state.cache.locked);
    assert_eq!(state.cache.burner, "bob");
    assert_eq!(
        res.messages[0].msg,
        CosmosMsg::Wasm(WasmMsg::Execute {
            contract_addr: "tok".to_string(),
            msg: Payload::Cw20Send {
                contract: "router".to_string(),
                amount: 5,
                msg: RouterExecuteMsg::ExecuteSwapOperations {
                    operations: vec![SwapOperation::TerraPort {
                        offer_asset_info: AssetInfo::Token { contract_addr: "tok".into() },
                        ask_asset_info: uluna()
                    }],
                    minimum_receive: None,
                    to: None,
                    deadline: None
                }
            },
            funds: vec![]
        })
    );
}

#[test]
fn clock_index_stays_below_range() {
    for range in [1u64, 2, 7, 10] {
        assert!((psuedo_rand(range) as u64) < range);
    }
    assert_eq!(rand_at(1_700_000_003, 10), 3);
    assert_eq!(rand_at(9, 10), 9);
    assert_eq!(rand_at(10, 10), 0);
}

#[test]
fn lock_is_taken_once_and_released_once() {
    let mut state = setup("owner");
    let free = state.cache.clone();
    assert_eq!(state.cache.complete().unwrap_err(), ContractError::AlreadyUnlocked {});
    assert_eq!(state.cache, free);

    state.cache.begin("alice".to_string()).unwrap();
    let held = state.cache.clone();
    assert!(held.locked);
    assert_eq!(held.burner, "alice");
    assert_eq!(state.cache.begin("bob".to_string()).unwrap_err(), ContractError::Locked {});
    assert_eq!(state.cache, held);

    assert_eq!(state.cache.complete().unwrap(), "alice");
    assert!(!state.cache.locked);
    state.cache.begin("bob".to_string()).unwrap();
    assert_eq!(state.cache.burner, "bob");
}

fn refusing(address: &str) -> Api {
    let mut api = Api::new();
    api.reject(address.to_string(), StdError::generic_err("Invalid input: address not normalized"));
    api
}

fn invalid() -> ContractError {
    ContractError::StdError(StdError::generic_err("Invalid input: address not normalized"))
}

#[test]
fn burner_addresses_are_checked_where_the_handler_reaches_them() {
    let owner = "owner";
    let setup_msg = |owner: &str, beneficiary: &str, percent: u64| InstantiateMsg {
        owner: owner.to_string(),
        development_config: DevelopmentConfig {
            fee_ratio: Decimal::percent(percent),
            beneficiary: beneficiary.to_string(),
        },
    };
    // set-up: owner, then fee, then beneficiary
    let info = || mock_info("deployer", &[]);
    let err = instantiate(mock_env(), info(), setup_msg("BAD", "b", 100), &refusing("BAD"))
        .unwrap_err();
    assert_eq!(err, invalid());
    let err =
        instantiate(mock_env(), info(), setup_msg("o", "BAD", 100), &refusing("BAD")).unwrap_err();
    assert_eq!(err, ContractError::FeeRatioMustBeLessThanOne {});
    let err =
        instantiate(mock_env(), info(), setup_msg("o", "BAD", 2), &refusing("BAD")).unwrap_err();
    assert_eq!(err, invalid());

    let mut state = setup(owner);
    let before = format!("{:?}", state);
    let api = refusing("BAD");
    let held = Answers::new();
    let bad_reward = |percent: u64| RewardInfo {
        token: "BAD".to_string(),
        reward_ratio: Decimal::percent(percent),
    };

    // the sender is looked at before the address is
    let msg = ExecuteMsg::SetSwapRouter { router: "BAD".to_string() };
    let err = execute(&mut state, mock_env(), mock_info("anyone", &[]), msg, &held, &api)
        .unwrap_err();
    assert_eq!(err, ContractError::Unauthorized {});
    // and so is the ratio
    let msg = ExecuteMsg::AddToRewardWhitelist { reward_info: bad_reward(0) };
    let err =
        execute(&mut state, mock_env(), mock_info(owner, &[]), msg, &held, &api).unwrap_err();
    assert_eq!(err, ContractError::ZeroRatio {});

    for msg in [
        ExecuteMsg::SetSwapRouter { router: "BAD".to_string() },
        ExecuteMsg::AddToRewardWhitelist { reward_info: bad_reward(10) },
        ExecuteMsg::UpdateRewardInfo { reward_info: bad_reward(10) },
        ExecuteMsg::RemoveFromRewardWhitelist { token: "BAD".to_string() },
        ExecuteMsg::UpdateDevelopmentConfig {
            beneficiary: Some("BAD".to_string()),
            fee_ratio: Some(Decimal::percent(5)),
        },
        ExecuteMsg::Receive(Cw20ReceiveMsg {
            sender: "BAD".to_string(),
            amount: 5,
            msg: Ok(Cw20HookMsg::SwapAndBurn { swap_paths: vec![] }),
        }),
    ] {
        let err = execute(&mut state, mock_env(), mock_info(owner, &[]), msg, &held, &api)
            .unwrap_err();
        assert_eq!(err, invalid());
        assert_eq!(before, format!("{:?}", state));
    }
}
