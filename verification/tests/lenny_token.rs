use cosmwasm_std::testing::{mock_dependencies, mock_env as host_env, mock_info as host_info};
use cosmwasm_std::testing::{MockApi, MockQuerier, MockStorage};
use cosmwasm_std::{Addr, Decimal as HostDecimal, OwnedDeps, Uint128};
use cremation::cremation_token::error::ContractError;
use cremation::cremation_token::helper::{is_buy_operation, is_sell_operation};
use cremation::cremation_token::msg::{Dex, QueryMsg, QueryResponse};
use cremation::cremation_token::state::{DexConfigs, FractionFormat, TaxInfo};
use cremation::error::StdError;
use cremation::host::{
    Api, BlockInfo, ContractInfo, CosmosMsg, Env, MessageInfo, Response, Timestamp, WasmMsg,
};
use cremation::lenny_token::contract::{
    execute, instantiate, query, SWAP_COLLECTED_TAX_THRESHOLD,
};
use cremation::lenny_token::msg::{ExecuteMsg, InstantiateMsg};
use cremation::lenny_token::state::State;
use cw20::Cw20Coin;
use cw20_base::msg::InstantiateMsg as Cw20InstantiateMsg;

type Base = OwnedDeps<MockStorage, MockApi, MockQuerier>;

/// The token with the base token module beside it: the base keeps token
/// info and allowances, the library the taxed balances.
struct Token {
    state: State,
    base: Base,
}

fn mock_env() -> Env {
    Env {
        block: BlockInfo { time: Timestamp::from_nanos(host_env().block.time.nanos()) },
        contract: ContractInfo { address: host_env().contract.address.to_string() },
    }
}

fn mock_info(sender: &str) -> MessageInfo {
    MessageInfo { sender: sender.to_string(), funds: vec![] }
}

fn mock_cw20_instantiate_msg(initial_balances: Vec<Cw20Coin>) -> Cw20InstantiateMsg {
    Cw20InstantiateMsg {
        name: "Lenny Coin".to_string(),
        symbol: "LENNY".to_string(),
        decimals: 6,
        initial_balances,
        mint: None,
        marketing: None,
    }
}

fn from_base(e: cw20_base::ContractError) -> ContractError {
    match e {
        cw20_base::ContractError::Expired {} => ContractError::Expired {},
        cw20_base::ContractError::NoAllowance {} => ContractError::NoAllowance {},
        cw20_base::ContractError::Std(cosmwasm_std::StdError::Overflow { .. }) => {
            ContractError::Std(StdError::overflow())
        }
        other => ContractError::Std(StdError::generic_err(&other.to_string())),
    }
}

fn get_dex_configs() -> DexConfigs {
    DexConfigs {
        terraswap_router: "terraswap_router".to_string(),
        terraswap_pairs: vec!["terraswap_pair".to_string()],
        terraport_router: "terraport_router".to_string(),
        terraport_pairs: vec!["terraport_pair".to_string(), "terraport_pair2".to_string()],
    }
}

fn instantiate_only(init_msg: InstantiateMsg, cw20_msg: Cw20InstantiateMsg) -> Token {
    let mut base = mock_dependencies();
    let mut state = instantiate(mock_env(), mock_info("creator"), init_msg, &Api::new()).unwrap();
    for coin in cw20_msg.initial_balances.iter() {
        state.token.balances.credit(&coin.address, coin.amount.u128());
    }
    cw20_base::contract::instantiate(
        base.as_mut(),
        host_env(),
        host_info("creator", &[]),
        cw20_msg,
    )
    .unwrap();
    Token { state, base }
}

fn setup_contract(init_msg: InstantiateMsg, cw20_msg: Cw20InstantiateMsg) -> Token {
    let mut token = instantiate_only(init_msg, cw20_msg);
    let dex_configs = get_dex_configs();
    exec(
        &mut token,
        mock_env(),
        "creator",
        ExecuteMsg::SetDexConfigs {
            terraswap_router: dex_configs.terraswap_router,
            terraswap_pairs: dex_configs.terraswap_pairs,
            terraport_router: dex_configs.terraport_router,
            terraport_pairs: dex_configs.terraport_pairs,
        },
    )
    .unwrap();
    token
}

fn increase_allowance(token: &mut Token, owner: &str, spender: &str, amount: Uint128) {
    cw20_base::allowances::execute_increase_allowance(
        token.base.as_mut(),
        host_env(),
        host_info(owner, &[]),
        spender.to_string(),
        amount,
        None,
    )
    .unwrap();
}

fn exec(
    token: &mut Token,
    env: Env,
    sender: &str,
    msg: ExecuteMsg,
) -> Result<Response, ContractError> {
    let allowance = match &msg {
        ExecuteMsg::TransferFrom { owner, amount, .. }
        | ExecuteMsg::SendFrom { owner, amount, .. } => cw20_base::allowances::deduct_allowance(
            token.base.as_mut().storage,
            &Addr::unchecked(owner.clone()),
            &Addr::unchecked(sender),
            &host_env().block,
            Uint128::new(*amount),
        )
        .map(|_| ())
        .map_err(from_base),
        _ => Ok(()),
    };
    execute(&mut token.state, env, mock_info(sender), msg, allowance, &Api::new())
}

fn query_balance(token: &Token, address: &str) -> Uint128 {
    match query(&token.state, mock_env(), QueryMsg::Balance { address: address.to_string() }, &Api::new())
        .unwrap()
    {
        QueryResponse::Balance(res) => Uint128::new(res.balance),
        other => panic!("unexpected answer {:?}", other),
    }
}

fn tax_attr(res: &Response) -> Option<String> {
    res.attributes.iter().find(|attr| attr.key == "cw20_tax_amount").map(|a| a.value.clone())
}

fn rate(numerator: u128, denominator: u128) -> FractionFormat {
    FractionFormat { numerator, denominator }
}

fn strings(list: &[&str]) -> Vec<String> {
    list.iter().map(|a| a.to_string()).collect()
}

fn funded(addresses: &[String], amount: Uint128) -> Vec<Cw20Coin> {
    addresses.iter().map(|addr| Cw20Coin { address: addr.clone(), amount }).collect()
}

#[test]
fn testing_proper_initialization() {
    let owner = "owner";
    let tax_rate = rate(8, 100);
    let total_supply = Uint128::new(1_000_000_000_000);
    let msg = InstantiateMsg {
        owner: owner.to_string(),
        swap_tax_to_token: "cremat_token".to_string(),
        tax_info: TaxInfo {
            buy_tax: Some(tax_rate.clone()),
            sell_tax: Some(tax_rate.clone()),
            transfer_tax: None,
        },
    };
    let cw20_instantiate_msg = Cw20InstantiateMsg {
        name: "Lenny Coin".to_string(),
        symbol: "CREMAT".to_string(),
        decimals: 6,
        initial_balances: vec![Cw20Coin { address: owner.to_string(), amount: total_supply }],
        mint: None,
        marketing: None,
    };
    let token = setup_contract(msg, cw20_instantiate_msg);

    // check token_info
    let token_info_res = cw20_base::contract::query_token_info(token.base.as_ref()).unwrap();
    assert_eq!(token_info_res.name, "Lenny Coin");
    assert_eq!(token_info_res.symbol, "CREMAT");
    assert_eq!(token_info_res.decimals, 6);
    assert_eq!(token_info_res.total_supply, total_supply);

    // check owner balance
    assert_eq!(query_balance(&token, owner), total_supply);

    // check owner
    match query(&token.state, mock_env(), QueryMsg::Owner {}, &Api::new()).unwrap() {
        QueryResponse::Owner(res) => assert_eq!(res.owner, owner),
        other => panic!("unexpected answer {:?}", other),
    }

    // check config
    let dex_configs = get_dex_configs();
    match query(&token.state, mock_env(), QueryMsg::DexConfigs {}, &Api::new()).unwrap() {
        QueryResponse::DexConfigs(config_res) => {
            assert_eq!(config_res.terraswap_router, dex_configs.terraswap_router);
            assert_eq!(config_res.terraswap_pairs, dex_configs.terraswap_pairs);
            assert_eq!(config_res.terraport_router, dex_configs.terraport_router);
            assert_eq!(config_res.terraport_pairs, dex_configs.terraport_pairs);
        }
        other => panic!("unexpected answer {:?}", other),
    }

    // check tax_info
    match query(&token.state, mock_env(), QueryMsg::TaxInfo {}, &Api::new()).unwrap() {
        QueryResponse::TaxInfo(tax_info_res) => {
            assert_eq!(tax_info_res.buy_tax.atomics, HostDecimal::percent(8).atomics().u128());
            assert_eq!(tax_info_res.sell_tax.atomics, HostDecimal::percent(8).atomics().u128());
            assert_eq!(tax_info_res.transfer_tax.atomics, HostDecimal::zero().atomics().u128());
        }
        other => panic!("unexpected answer {:?}", other),
    }

    // check collect tax address
    match query(&token.state, mock_env(), QueryMsg::CollectTaxAddress {}, &Api::new()).unwrap() {
        QueryResponse::CollectTaxAddress(res) => assert_eq!(res.collect_tax_address, owner),
        other => panic!("unexpected answer {:?}", other),
    }

    // check tax free address
    for (address, expected) in [(owner, true), ("no_tax_free_addr", false)] {
        match query(
            &token.state,
            mock_env(),
            QueryMsg::TaxFreeAddress { address: address.to_string() }, &Api::new(),
        )
        .unwrap()
        {
            QueryResponse::TaxFreeAddress(res) => assert_eq!(res.tax_free, expected),
            other => panic!("unexpected answer {:?}", other),
        }
    }
    assert_eq!(token.state.swap_tax_to_token, "cremat_token");
}

fn check_venue_tax(
    res: &Response,
    dex_configs: &DexConfigs,
    sender: &String,
    recipient: &String,
    collect_tax_wallet: &String,
    movers: &[String],
    pair_addresses: &[String],
    amount: Uint128,
    buy_tax: FractionFormat,
    sell_tax: FractionFormat,
) {
    let is_sell = is_sell_operation(dex_configs, sender, recipient);
    let is_buy = is_buy_operation(dex_configs, sender, recipient);
    let is_tax_free = sender == collect_tax_wallet || recipient == collect_tax_wallet;
    if is_sell && !is_tax_free {
        // selling by user
        assert!(movers.contains(sender));
        let expected_tax_amount = amount.multiply_ratio(sell_tax.numerator, sell_tax.denominator);
        let tax_opt = tax_attr(res);
        assert!(tax_opt.is_some());
        assert_eq!(tax_opt.unwrap(), expected_tax_amount.to_string());
    } else if is_buy && !is_tax_free {
        // only a pair can sell for a user
        assert!(pair_addresses.contains(sender));
        let expected_tax_amount = amount.multiply_ratio(buy_tax.numerator, buy_tax.denominator);
        let tax_opt = tax_attr(res);
        assert!(tax_opt.is_some());
        assert_eq!(tax_opt.unwrap(), expected_tax_amount.to_string());
    } else {
        assert!(tax_attr(res).is_none());
    }
}

// test collect tax when execute send cw20
#[test]
fn collect_tax_when_execute_send() {
    let owner = "owner-tax-free".to_string();
    let buy_tax = rate(7, 100);
    let sell_tax = rate(15, 100);

    let user_addresses = vec!["user1".to_string(), "user2".to_string(), owner.clone()];
    let contract_addresses = strings(&["contract1", "contract2"]);
    let dex_configs = get_dex_configs();
    let pair_addresses =
        [dex_configs.terraswap_pairs.clone(), dex_configs.terraport_pairs.clone()].concat();
    let router_addresses =
        vec![dex_configs.terraswap_router.clone(), dex_configs.terraport_router.clone()];
    let addresses = [
        user_addresses.clone(),
        contract_addresses.clone(),
        pair_addresses.clone(),
        router_addresses.clone(),
    ]
    .concat();
    let movers = [user_addresses.clone(), contract_addresses.clone()].concat();

    let init_amount = Uint128::new(1000);
    let init_msg = InstantiateMsg {
        owner: owner.to_string(),
        swap_tax_to_token: "cremat_token".to_string(),
        tax_info: TaxInfo {
            buy_tax: Some(buy_tax.clone()),
            sell_tax: Some(sell_tax.clone()),
            transfer_tax: None,
        },
    };
    let mut token =
        setup_contract(init_msg, mock_cw20_instantiate_msg(funded(&addresses, init_amount)));

    let collect_tax_wallet = owner.clone();
    for sender in addresses.iter() {
        for recipient in addresses.iter() {
            // `send` only works with a smart contract
            if user_addresses.contains(recipient) {
                continue;
            }
            let send_amount = Uint128::new(100);

            let sender_balance_before = query_balance(&token, sender);
            let recipient_balance_before = query_balance(&token, recipient);
            let collect_tax_wallet_balance_before = query_balance(&token, &collect_tax_wallet);

            let msg = ExecuteMsg::Send {
                contract: recipient.to_string(),
                amount: send_amount.u128(),
                msg: vec![],
            };
            let res = exec(&mut token, mock_env(), sender, msg).unwrap();
            check_venue_tax(
                &res,
                &dex_configs,
                sender,
                recipient,
                &collect_tax_wallet,
                &movers,
                &pair_addresses,
                send_amount,
                buy_tax,
                sell_tax,
            );

            let sender_balance_after = query_balance(&token, sender);
            let recipient_balance_after = query_balance(&token, recipient);
            let collect_tax_wallet_balance_after = query_balance(&token, &collect_tax_wallet);

            if sender == &collect_tax_wallet {
                assert_eq!(
                    sender_balance_before - sender_balance_after,
                    recipient_balance_after - recipient_balance_before
                );
            } else {
                assert_eq!(
                    sender_balance_before - sender_balance_after,
                    (recipient_balance_after - recipient_balance_before)
                        + (collect_tax_wallet_balance_after - collect_tax_wallet_balance_before)
                );
            }
        }
    }
}

// owner approves spender; spender sends from owner -> recipient
#[test]
fn collect_tax_when_execute_send_from() {
    let owner = "owner-tax-free".to_string();
    let buy_tax = rate(7, 100);
    let sell_tax = rate(15, 100);

    let user_addresses = vec!["user1".to_string(), "user2".to_string(), owner.clone()];
    let contract_addresses = strings(&["contract1", "contract2"]);
    let pair_addresses = strings(&["terraswap_pair", "terraport_pair"]);
    let router_addresses = strings(&["terraswap_router", "terraport_router"]);
    let addresses = [
        user_addresses.clone(),
        contract_addresses.clone(),
        pair_addresses.clone(),
        router_addresses.clone(),
    ]
    .concat();
    let movers = [user_addresses.clone(), contract_addresses.clone()].concat();

    let init_amount = Uint128::new(1000);
    let init_msg = InstantiateMsg {
        owner: owner.to_string(),
        swap_tax_to_token: "cremat_token".to_string(),
        tax_info: TaxInfo {
            buy_tax: Some(buy_tax.clone()),
            sell_tax: Some(sell_tax.clone()),
            transfer_tax: None,
        },
    };
    let mut token =
        setup_contract(init_msg, mock_cw20_instantiate_msg(funded(&addresses, init_amount)));

    let dex_configs = get_dex_configs();
    let collect_tax_wallet = owner.clone();
    for sender in addresses.iter() {
        for recipient in addresses.iter() {
            // `send_from` only works with a smart contract, and nobody can
            // give an allowance to himself
            if user_addresses.contains(recipient) || sender == recipient {
                continue;
            }
            let allow_amount = Uint128::new(100);
            increase_allowance(&mut token, sender, recipient, allow_amount);

            let sender_balance_before = query_balance(&token, sender);
            let recipient_balance_before = query_balance(&token, recipient);
            let collect_tax_wallet_balance_before = query_balance(&token, &collect_tax_wallet);

            let msg = ExecuteMsg::SendFrom {
                owner: sender.to_string(),
                contract: recipient.to_string(),
                amount: allow_amount.u128(),
                msg: vec![],
            };
            let res = exec(&mut token, mock_env(), recipient, msg).unwrap();
            check_venue_tax(
                &res,
                &dex_configs,
                sender,
                recipient,
                &collect_tax_wallet,
                &movers,
                &pair_addresses,
                allow_amount,
                buy_tax,
                sell_tax,
            );

            let sender_balance_after = query_balance(&token, sender);
            let recipient_balance_after = query_balance(&token, recipient);
            let collect_tax_wallet_balance_after = query_balance(&token, &collect_tax_wallet);

            if sender == &collect_tax_wallet {
                assert_eq!(
                    sender_balance_before - sender_balance_after,
                    recipient_balance_after - recipient_balance_before
                );
            } else {
                assert_eq!(
                    sender_balance_before - sender_balance_after,
                    (recipient_balance_after - recipient_balance_before)
                        + (collect_tax_wallet_balance_after - collect_tax_wallet_balance_before)
                );
            }
        }
    }
}

fn transfer_tax_setup() -> (Token, Vec<String>, String, FractionFormat) {
    let owner = "owner-tax-free".to_string();
    let transfer_tax = rate(7, 100);
    let normal_addresses = vec!["user".to_string(), "contract".to_string(), owner.clone()];
    let pair_addresses = strings(&["terraswap_pair", "terraport_pair"]);
    let router_addresses = strings(&["terraswap_router", "terraport_router"]);
    let addresses = [normal_addresses, pair_addresses, router_addresses].concat();

    let init_amount = Uint128::new(1000);
    let init_msg = InstantiateMsg {
        owner: owner.to_string(),
        swap_tax_to_token: "cremat_token".to_string(),
        tax_info: TaxInfo {
            buy_tax: None,
            sell_tax: None,
            transfer_tax: Some(transfer_tax.clone()),
        },
    };
    let token =
        setup_contract(init_msg, mock_cw20_instantiate_msg(funded(&addresses, init_amount)));
    (token, addresses, owner, transfer_tax)
}

// test collect tax when execute transfer cw20
#[test]
fn collect_tax_when_execute_transfer() {
    let (mut token, addresses, owner, transfer_tax) = transfer_tax_setup();
    let collect_tax_wallet = owner.clone();
    for sender in addresses.iter() {
        for recipient in addresses.iter() {
            let sender_balance_before = query_balance(&token, sender);
            let recipient_balance_before = query_balance(&token, recipient);
            let collect_tax_wallet_balance_before = query_balance(&token, &collect_tax_wallet);

            let transfer_amount = Uint128::new(100);
            let msg = ExecuteMsg::Transfer {
                recipient: recipient.to_string(),
                amount: transfer_amount.u128(),
            };
            let res = exec(&mut token, mock_env(), sender, msg).unwrap();

            if sender == &collect_tax_wallet || recipient == &collect_tax_wallet {
                assert!(tax_attr(&res).is_none());
            } else {
                let expected_tax_amount = transfer_amount
                    .multiply_ratio(transfer_tax.numerator, transfer_tax.denominator);
                let tax_opt = tax_attr(&res);
                assert!(tax_opt.is_some());
                assert_eq!(tax_opt.unwrap(), expected_tax_amount.to_string());
            }

            let sender_balance_after = query_balance(&token, sender);
            let recipient_balance_after = query_balance(&token, recipient);
            let collect_tax_wallet_balance_after = query_balance(&token, &collect_tax_wallet);

            if sender == &collect_tax_wallet || recipient == &collect_tax_wallet {
                assert_eq!(
                    sender_balance_before - sender_balance_after,
                    recipient_balance_after - recipient_balance_before
                );
            } else if sender == recipient {
                assert_eq!(
                    sender_balance_before - sender_balance_after,
                    recipient_balance_before - recipient_balance_after
                );
                assert_eq!(
                    sender_balance_before - sender_balance_after,
                    collect_tax_wallet_balance_after - collect_tax_wallet_balance_before
                );
            } else {
                assert_eq!(
                    sender_balance_before - sender_balance_after,
                    (recipient_balance_after - recipient_balance_before)
                        + (collect_tax_wallet_balance_after - collect_tax_wallet_balance_before)
                );
            }
        }
    }
}

// owner approves spender; then the transfer is made
#[test]
fn collect_transfer_tax_when_execute_transfer_from() {
    let (mut token, addresses, owner, transfer_tax) = transfer_tax_setup();
    let collect_tax_wallet = owner.clone();
    for sender in addresses.iter() {
        for recipient in addresses.iter() {
            // nobody can give an allowance to himself
            if sender == recipient {
                continue;
            }
            let allow_amount = Uint128::new(100);
            increase_allowance(&mut token, sender, recipient, allow_amount);

            let sender_balance_before = query_balance(&token, sender);
            let recipient_balance_before = query_balance(&token, recipient);
            let collect_tax_wallet_balance_before = query_balance(&token, &collect_tax_wallet);

            let transfer_amount = Uint128::new(100);
            let msg = ExecuteMsg::Transfer {
                recipient: recipient.to_string(),
                amount: transfer_amount.u128(),
            };
            let res = exec(&mut token, mock_env(), sender, msg).unwrap();

            if sender == &collect_tax_wallet || recipient == &collect_tax_wallet {
                assert!(tax_attr(&res).is_none());
            } else {
                let expected_tax_amount = transfer_amount
                    .multiply_ratio(transfer_tax.numerator, transfer_tax.denominator);
                let tax_opt = tax_attr(&res);
                assert!(tax_opt.is_some());
                assert_eq!(tax_opt.unwrap(), expected_tax_amount.to_string());
            }

            let sender_balance_after = query_balance(&token, sender);
            let recipient_balance_after = query_balance(&token, recipient);
            let collect_tax_wallet_balance_after = query_balance(&token, &collect_tax_wallet);

            if sender == &collect_tax_wallet || recipient == &collect_tax_wallet {
                assert_eq!(
                    sender_balance_before - sender_balance_after,
                    recipient_balance_after - recipient_balance_before
                );
            } else {
                assert_eq!(
                    sender_balance_before - sender_balance_after,
                    (recipient_balance_after - recipient_balance_before)
                        + (collect_tax_wallet_balance_after - collect_tax_wallet_balance_before)
                );
            }

            // and the allowance itself carries a transfer under the same tax
            let msg = ExecuteMsg::TransferFrom {
                owner: sender.to_string(),
                recipient: recipient.to_string(),
                amount: 10,
            };
            let res = exec(&mut token, mock_env(), recipient, msg).unwrap();
            if sender == &collect_tax_wallet || recipient == &collect_tax_wallet {
                assert!(tax_attr(&res).is_none());
            } else {
                assert_eq!(tax_attr(&res).unwrap(), "0");
            }
        }
    }
}

#[test]
fn trigger_auto_swap_collected_tax() {
    let owner = "owner-tax-free".to_string();
    let seller = "seller".to_string();
    let sell_tax = rate(40, 100);

    let init_msg = InstantiateMsg {
        owner: owner.to_string(),
        swap_tax_to_token: "cremat_token".to_string(),
        tax_info: TaxInfo { buy_tax: None, sell_tax: Some(sell_tax.clone()), transfer_tax: None },
    };
    let mut token = setup_contract(
        init_msg,
        mock_cw20_instantiate_msg(vec![Cw20Coin {
            address: seller.to_string(),
            amount: Uint128::MAX,
        }]),
    );

    let dex_configs = get_dex_configs();
    let pair_addresses =
        [dex_configs.terraswap_pairs.clone(), dex_configs.terraport_pairs.clone()].concat();
    let router_addresses =
        vec![dex_configs.terraswap_router.clone(), dex_configs.terraport_router.clone()];
    let dex_addresses = [router_addresses, pair_addresses].concat();

    for addr in dex_addresses.iter() {
        let sell_amount = Uint128::new(SWAP_COLLECTED_TAX_THRESHOLD)
            * Uint128::new(sell_tax.denominator)
            / Uint128::new(sell_tax.numerator)
            + Uint128::one();
        let msg = ExecuteMsg::Send {
            contract: addr.to_string(),
            amount: sell_amount.u128(),
            msg: vec![],
        };
        let mut env = mock_env();
        env.contract.address = "lenny_token".to_string();
        let res = exec(&mut token, env, &seller, msg).unwrap();
        let auto_swap_msg = res.messages.iter().find(|sub_msg| match sub_msg.msg {
            CosmosMsg::Wasm(WasmMsg::Execute { ref contract_addr, .. }) => {
                contract_addr == "lenny_token"
            }
            _ => false,
        });
        let collected_tax_opt = res
            .attributes
            .iter()
            .find(|attr| attr.key == "action" && attr.value == "collected_tax_swap");

        assert!(auto_swap_msg.is_some());
        assert!(collected_tax_opt.is_some());
    }
}

// test add new pairs after migrate
#[test]
fn add_new_pairs_after_migrate() {
    let owner = "owner-tax-free".to_string();
    let init_msg = InstantiateMsg {
        owner: owner.to_string(),
        swap_tax_to_token: "cremat_token".to_string(),
        tax_info: TaxInfo { buy_tax: None, sell_tax: None, transfer_tax: None },
    };
    let mut token = setup_contract(init_msg, mock_cw20_instantiate_msg(vec![]));

    let new_pair_addresses =
        vec!["terraswap_pair_new1".to_string(), "terraswap_pair_new2".to_string()];
    let msg =
        ExecuteMsg::AddNewPairs { dex: Dex::Terraswap, pair_addresses: new_pair_addresses.clone() };
    exec(&mut token, mock_env(), &owner, msg).unwrap();

    let config_res = match query(&token.state, mock_env(), QueryMsg::DexConfigs {}, &Api::new()).unwrap() {
        QueryResponse::DexConfigs(res) => res,
        other => panic!("unexpected answer {:?}", other),
    };

    let old_dex_config = get_dex_configs();
    let old_terraswap_pairs = old_dex_config.terraswap_pairs;
    let old_terraport_pairs = old_dex_config.terraport_pairs;
    for i in 0..old_terraport_pairs.len() {
        assert_eq!(config_res.terraport_pairs[i], old_terraport_pairs[i]);
    }
    for i in 0..old_terraswap_pairs.len() {
        assert_eq!(config_res.terraswap_pairs[i], old_terraswap_pairs[i]);
    }
    for pair in new_pair_addresses {
        assert!(config_res.terraswap_pairs.contains(&pair));
    }
}

#[test]
fn pairs_can_be_taken_off_again() {
    let owner = "owner-tax-free".to_string();
    let init_msg = InstantiateMsg {
        owner: owner.to_string(),
        swap_tax_to_token: "cremat_token".to_string(),
        tax_info: TaxInfo { buy_tax: Some(rate(1, 10)), sell_tax: None, transfer_tax: None },
    };
    let mut token = setup_contract(
        init_msg,
        mock_cw20_instantiate_msg(funded(&strings(&["terraport_pair2"]), Uint128::new(1000))),
    );
    let send = || ExecuteMsg::Transfer { recipient: "user".to_string(), amount: 100 };
    let res = exec(&mut token, mock_env(), "terraport_pair2", send()).unwrap();
    assert_eq!(tax_attr(&res).unwrap(), "10");

    let msg =
        ExecuteMsg::RemovePair { dex: Dex::Terraport, pair_address: "terraport_pair2".to_string() };
    let err = exec(&mut token, mock_env(), "user", msg.clone()).unwrap_err();
    assert_eq!(err, ContractError::Unauthorized {});
    exec(&mut token, mock_env(), &owner, msg).unwrap();
    assert_eq!(
        token.state.token.dex_configs.clone().unwrap().terraport_pairs,
        vec!["terraport_pair".to_string()]
    );
    let res = exec(&mut token, mock_env(), "terraport_pair2", send()).unwrap();
    assert!(tax_attr(&res).is_none());
}
