use anchor_luna::backend::{Coin, Env, Instruction, MessageInfo, Response, SmartQuery};
use anchor_luna::contract::{
    compute_split, execute, execute_change_portion, execute_deposit, execute_send_to_wallet,
    execute_set_owner, execute_withdraw, instantiate, query, query_aust_balance,
    query_epoch_state, query_state_info, require_owner, QueryResponse,
};
use anchor_luna::decimal::Decimal;
use anchor_luna::error::ContractError;
use anchor_luna::msg::{ExecuteMsg, InstantiateMsg, QueryMsg};
use anchor_luna::state::{ConfigStore, State};

fn mock_env() -> Env {
    Env { contract_address: cosmwasm_std::testing::mock_env().contract.address.to_string() }
}

fn mock_info(sender: &str, funds: Vec<Coin>) -> MessageInfo {
    MessageInfo { sender: sender.to_string(), funds }
}

fn coin(amount: u128, denom: &str) -> Coin {
    Coin { denom: denom.to_string(), amount }
}

fn setup(anchor: Decimal, luna: Decimal) -> ConfigStore {
    let mut store = ConfigStore::new();
    let msg = InstantiateMsg {
        anchor_portion: anchor,
        luna_portion: luna,
        anchor_address: "anchor_address".to_string(),
        denom: "uusd".to_string(),
        token_address: "token_address".to_string(),
    };
    instantiate(&mut store, &mock_info("creator", vec![]), msg).unwrap();
    store
}

fn deposit_stable_payload() -> Vec<u8> {
    "{\"deposit_stable\":{}}".as_bytes().to_vec()
}

#[test]
fn deposit() {
    let mut store = ConfigStore::new();
    let instantiate_msg = InstantiateMsg {
        anchor_portion: Decimal::from_ratio(8 as u128, 10 as u128),
        luna_portion: Decimal::from_ratio(2 as u128, 10 as u128),
        anchor_address: "anchor_address".to_string(),
        denom: "uusd".to_string(),
        token_address: "token_address".to_string(),
    };
    let info = mock_info("creator", vec![]);
    let res = instantiate(&mut store, &info, instantiate_msg).unwrap();
    assert_eq!(0, res.messages.len());
    let state_info = query_state_info(&store).unwrap();
    assert_eq!(
        state_info,
        State {
            anchor_portion: Decimal::from_ratio(8 as u128, 10 as u128),
            luna_portion: Decimal::from_ratio(2 as u128, 10 as u128),
            anchor_address: "anchor_address".to_string(),
            token_address: "token_address".to_string(),
            total_deposit: 0,
            denom: "uusd".to_string(),
            owner: "creator".to_string(),
        }
    );

    let info = mock_info("creator", vec![]);
    let message = ExecuteMsg::ChangePortion {
        anchor_portion: Decimal::from_ratio(7 as u128, 10 as u128),
        luna_portion: Decimal::from_ratio(3 as u128, 10 as u128),
    };
    execute(&mut store, &mock_env(), &info, message, true).unwrap();

    let state_info = query_state_info(&store).unwrap();
    assert_eq!(
        state_info,
        State {
            anchor_portion: Decimal::from_ratio(7 as u128, 10 as u128),
            luna_portion: Decimal::from_ratio(3 as u128, 10 as u128),
            anchor_address: "anchor_address".to_string(),
            token_address: "token_address".to_string(),
            total_deposit: 0,
            denom: "uusd".to_string(),
            owner: "creator".to_string(),
        }
    );

    let x: u128 = 50;
    let y = anchor_luna::decimal::apply_portion(x, Decimal::from_ratio(7 as u128, 10 as u128));
    assert_eq!(35, y);

    let info = mock_info("creator", vec![coin(50, "uusd")]);
    let message = ExecuteMsg::SetOwner { address: "creator1".to_string() };
    execute(&mut store, &mock_env(), &info, message, true).unwrap();
    let state_info = query_state_info(&store).unwrap();
    assert_eq!(state_info.owner, "creator1".to_string());

    let info = mock_info("creator", vec![coin(50, "uusd")]);
    let message = ExecuteMsg::Deposit {};
    let res = execute(&mut store, &mock_env(), &info, message, true).unwrap();
    let state_info = query_state_info(&store).unwrap();
    assert_eq!(state_info.total_deposit, 35);
    assert_eq!(res.messages.len(), 2);
    assert_eq!(
        res.messages[0],
        Instruction::Execute {
            contract_addr: "anchor_address".to_string(),
            funds: vec![coin(35, "uusd")],
            msg: deposit_stable_payload(),
        }
    );
    let info = mock_info("creator", vec![]);
    let message = ExecuteMsg::Withdraw { amount: 100 };
    let res = execute(&mut store, &mock_env(), &info, message, true).unwrap();
    assert_eq!(1, res.messages.len());
    assert_eq!(
        res.messages[0],
        Instruction::Execute {
            contract_addr: "token_address".to_string(),
            funds: vec![],
            msg: cosmwasm_std::to_binary(&cw20::Cw20ExecuteMsg::Send {
                contract: "anchor_address".to_string(),
                amount: cosmwasm_std::Uint128::new(100),
                msg: cosmwasm_std::to_binary(&cw20::Cw20QueryMsg::Balance {
                    address: cosmwasm_std::testing::mock_env().contract.address.to_string()
                })
                .unwrap()
            })
            .unwrap()
            .0,
        }
    );

    let info = mock_info("creator1", vec![]);
    let message = ExecuteMsg::SendToWallet { amount: 100 };
    let res = execute(&mut store, &mock_env(), &info, message, true).unwrap();
    assert_eq!(1, res.messages.len());
    assert_eq!(
        res.messages[0],
        Instruction::Send { to_address: "creator1".to_string(), amount: vec![coin(100, "uusd")] }
    );
}

#[test]
fn deposit_of_fifty_at_eight_to_two() {
    let mut store = setup(Decimal::from_ratio(8, 10), Decimal::from_ratio(2, 10));
    let info = mock_info("anyone", vec![coin(50, "uusd")]);
    let res = execute_deposit(&mut store, &mock_env(), &info).unwrap();
    assert_eq!(
        res,
        Response {
            messages: vec![
                Instruction::Execute {
                    contract_addr: "anchor_address".to_string(),
                    funds: vec![coin(40, "uusd")],
                    msg: deposit_stable_payload(),
                },
                Instruction::Swap { offer_coin: coin(10, "uusd"), ask_denom: "uluna".to_string() },
            ]
        }
    );
    assert_eq!(query_state_info(&store).unwrap().total_deposit, 40);
}

#[test]
fn old_owner_is_refused_after_hand_over() {
    let mut store = setup(Decimal::from_ratio(8, 10), Decimal::from_ratio(2, 10));
    let env = mock_env();
    execute_set_owner(&mut store, &env, &mock_info("creator", vec![]), "heir".to_string(), true)
        .unwrap();
    let half = Decimal::from_ratio(1, 2);
    let before = store.record.clone();
    assert_eq!(
        execute_change_portion(&mut store, &env, &mock_info("creator", vec![]), half, half),
        Err(ContractError::Unauthorized)
    );
    assert_eq!(store.record, before);
    assert_eq!(
        execute_change_portion(&mut store, &env, &mock_info("heir", vec![]), half, half),
        Ok(Response { messages: vec![] })
    );
    let state = query_state_info(&store).unwrap();
    assert_eq!(state.anchor_portion, half);
    assert_eq!(state.luna_portion, half);
    assert_eq!(state.owner, "heir");
}

#[test]
fn change_portion_is_shown_by_the_next_query() {
    let mut store = setup(Decimal::from_ratio(8, 10), Decimal::from_ratio(2, 10));
    let a = Decimal { atomics: 123_456_789_012_345_678 };
    let b = Decimal { atomics: 876_543_210_987_654_322 };
    execute_change_portion(&mut store, &mock_env(), &mock_info("creator", vec![]), a, b).unwrap();
    let state = query_state_info(&store).unwrap();
    assert_eq!(state.anchor_portion, a);
    assert_eq!(state.luna_portion, b);
    assert_eq!(state.total_deposit, 0);
    assert_eq!(state.denom, "uusd");
    assert_eq!(query(&store, &mock_env(), QueryMsg::GetStateInfo {}), Ok(QueryResponse::StateInfo(state)));
}

#[test]
fn portions_off_unit_are_refused() {
    let mut store = setup(Decimal::from_ratio(8, 10), Decimal::from_ratio(2, 10));
    let before = store.record.clone();
    let info = mock_info("creator", vec![]);
    let cases = [
        (Decimal::from_ratio(7, 10), Decimal::from_ratio(2, 10)),
        (Decimal::from_ratio(8, 10), Decimal::from_ratio(3, 10)),
        (Decimal::zero(), Decimal::zero()),
        (Decimal::one(), Decimal::one()),
        (Decimal { atomics: u128::MAX }, Decimal { atomics: 1_000_000_000_000_000_001 }),
        (Decimal { atomics: 1 }, Decimal { atomics: 999_999_999_999_999_998 }),
    ];
    for (a, b) in cases {
        assert_eq!(
            execute_change_portion(&mut store, &mock_env(), &info, a, b),
            Err(ContractError::PortionError)
        );
        assert_eq!(store.record, before);
        let msg = InstantiateMsg {
            anchor_portion: a,
            luna_portion: b,
            anchor_address: "other".to_string(),
            denom: "ukrw".to_string(),
            token_address: "other".to_string(),
        };
        assert_eq!(instantiate(&mut store, &info, msg), Err(ContractError::PortionError));
        assert_eq!(store.record, before);
        let mut empty = ConfigStore::new();
        let msg = InstantiateMsg {
            anchor_portion: a,
            luna_portion: b,
            anchor_address: "other".to_string(),
            denom: "ukrw".to_string(),
            token_address: "other".to_string(),
        };
        assert_eq!(instantiate(&mut empty, &info, msg), Err(ContractError::PortionError));
        assert_eq!(empty.record, None);
    }
}

#[test]
fn unit_portions_at_the_ends_are_accepted() {
    let mut store = setup(Decimal::one(), Decimal::zero());
    let res = execute_deposit(&mut store, &mock_env(), &mock_info("a", vec![coin(7, "uusd")]))
        .unwrap();
    assert_eq!(
        res.messages[0],
        Instruction::Execute {
            contract_addr: "anchor_address".to_string(),
            funds: vec![coin(7, "uusd")],
            msg: deposit_stable_payload(),
        }
    );
    assert_eq!(
        res.messages[1],
        Instruction::Swap { offer_coin: coin(0, "uusd"), ask_denom: "uluna".to_string() }
    );
    assert_eq!(query_state_info(&store).unwrap().total_deposit, 7);
}

#[test]
fn split_rounds_each_part_down() {
    let third = Decimal::from_ratio(1, 3);
    assert_eq!(third.atomics, 333_333_333_333_333_333);
    let rest = Decimal { atomics: 666_666_666_666_666_667 };
    let store = setup(third, rest);
    let state = query_state_info(&store).unwrap();
    assert_eq!(compute_split(10, &state), Ok((3, 6)));
    assert_eq!(compute_split(1, &state), Ok((0, 0)));
    assert_eq!(compute_split(3, &state), Ok((0, 2)));
    assert_eq!(compute_split(3_000_000, &state), Ok((999_999, 2_000_000)));
    assert_eq!(compute_split(0, &state), Err(ContractError::InsufficientFunds));
    let half = setup(Decimal::from_ratio(1, 2), Decimal::from_ratio(1, 2));
    let state = query_state_info(&half).unwrap();
    assert_eq!(compute_split(1, &state), Ok((0, 0)));
    assert_eq!(compute_split(u128::MAX, &state), Ok((u128::MAX / 2, u128::MAX / 2)));
    for d in 1..200u128 {
        let (a, b) = compute_split(d, &state).unwrap();
        assert!(a + b <= d);
        assert!(a + b + 1 >= d);
    }
}

#[test]
fn deposit_without_tracked_funds_is_refused() {
    let mut store = setup(Decimal::from_ratio(8, 10), Decimal::from_ratio(2, 10));
    let before = store.record.clone();
    let env = mock_env();
    for funds in [
        vec![],
        vec![coin(0, "uusd")],
        vec![coin(50, "uluna")],
        vec![coin(50, "uluna"), coin(0, "uusd"), coin(9, "uusd")],
        vec![coin(50, "uusdx"), coin(9, "uus")],
    ] {
        assert_eq!(
            execute_deposit(&mut store, &env, &mock_info("creator", funds)),
            Err(ContractError::InsufficientFunds)
        );
        assert_eq!(store.record, before);
    }
}

#[test]
fn deposit_takes_the_first_coin_of_the_tracked_denomination() {
    let mut store = setup(Decimal::from_ratio(8, 10), Decimal::from_ratio(2, 10));
    let funds = vec![coin(1000, "uluna"), coin(50, "uusd"), coin(500, "uusd")];
    assert_eq!(anchor_luna::backend::find_deposit(&funds, &"uusd".to_string()), 50);
    execute_deposit(&mut store, &mock_env(), &mock_info("x", funds)).unwrap();
    assert_eq!(query_state_info(&store).unwrap().total_deposit, 40);
}

#[test]
fn total_is_the_sum_of_the_first_parts() {
    let mut store = setup(Decimal::from_ratio(1, 3), Decimal { atomics: 666_666_666_666_666_667 });
    let env = mock_env();
    let mut sum: u128 = 0;
    for d in [10u128, 1, 0, 7, 3_000_000, 0, 99] {
        let state = query_state_info(&store).unwrap();
        let res = execute_deposit(&mut store, &env, &mock_info("x", vec![coin(d, "uusd")]));
        match compute_split(d, &state) {
            Ok((a, _)) => {
                assert!(res.is_ok());
                sum += a;
            }
            Err(e) => assert_eq!(res, Err(e)),
        }
        assert_eq!(query_state_info(&store).unwrap().total_deposit, sum);
    }
    assert_eq!(sum, 3 + 0 + 2 + 999_999 + 32);
}

#[test]
fn only_the_owner_may_administer() {
    let mut store = setup(Decimal::from_ratio(8, 10), Decimal::from_ratio(2, 10));
    let before = store.record.clone();
    let env = mock_env();
    let half = Decimal::from_ratio(1, 2);
    for who in ["creator1", "", "Creator", "creato", "anchor_address"] {
        let info = mock_info(who, vec![coin(5, "uusd")]);
        assert_eq!(
            execute_set_owner(&mut store, &env, &info, who.to_string(), true),
            Err(ContractError::Unauthorized)
        );
        assert_eq!(
            execute_set_owner(&mut store, &env, &info, who.to_string(), false),
            Err(ContractError::Unauthorized)
        );
        assert_eq!(
            execute_change_portion(&mut store, &env, &info, half, half),
            Err(ContractError::Unauthorized)
        );
        assert_eq!(
            execute_change_portion(&mut store, &env, &info, half, Decimal::one()),
            Err(ContractError::Unauthorized)
        );
        assert_eq!(
            execute_send_to_wallet(&store, &env, &info, 5),
            Err(ContractError::Unauthorized)
        );
        assert_eq!(
            execute(&mut store, &env, &info, ExecuteMsg::SendToWallet { amount: 1 }, true),
            Err(ContractError::Unauthorized)
        );
        assert_eq!(store.record, before);
    }
    let state = query_state_info(&store).unwrap();
    assert_eq!(require_owner(&"creator".to_string(), &state), Ok(()));
    assert_eq!(require_owner(&"other".to_string(), &state), Err(ContractError::Unauthorized));
}

#[test]
fn invalid_address_is_refused_for_the_owner() {
    let mut store = setup(Decimal::from_ratio(8, 10), Decimal::from_ratio(2, 10));
    let before = store.record.clone();
    let info = mock_info("creator", vec![]);
    assert_eq!(
        execute_set_owner(&mut store, &mock_env(), &info, "x".to_string(), false),
        Err(ContractError::InvalidAddress)
    );
    assert_eq!(store.record, before);
    assert_eq!(
        execute(
            &mut store,
            &mock_env(),
            &info,
            ExecuteMsg::SetOwner { address: "x".to_string() },
            false
        ),
        Err(ContractError::InvalidAddress)
    );
    assert_eq!(store.record, before);
}

#[test]
fn nothing_works_before_setup() {
    let mut store = ConfigStore::new();
    let env = mock_env();
    let info = mock_info("creator", vec![coin(50, "uusd")]);
    let half = Decimal::from_ratio(1, 2);
    assert_eq!(store.load(), Err(ContractError::NotInitialized));
    assert_eq!(execute_deposit(&mut store, &env, &info), Err(ContractError::NotInitialized));
    assert_eq!(execute_withdraw(&store, &env, &info, 1), Err(ContractError::NotInitialized));
    assert_eq!(execute_send_to_wallet(&store, &env, &info, 1), Err(ContractError::NotInitialized));
    assert_eq!(
        execute_set_owner(&mut store, &env, &info, "a".to_string(), true),
        Err(ContractError::NotInitialized)
    );
    assert_eq!(
        execute_change_portion(&mut store, &env, &info, half, half),
        Err(ContractError::NotInitialized)
    );
    assert_eq!(query_state_info(&store), Err(ContractError::NotInitialized));
    assert_eq!(query_epoch_state(&store), Err(ContractError::NotInitialized));
    assert_eq!(query_aust_balance(&store, &env), Err(ContractError::NotInitialized));
    for msg in [QueryMsg::GetStateInfo {}, QueryMsg::GetEpochState {}, QueryMsg::GetAustBalance {}] {
        assert_eq!(query(&store, &env, msg), Err(ContractError::NotInitialized));
    }
    assert_eq!(store.record, None);
}

#[test]
fn withdraw_is_open_to_anyone_and_changes_nothing() {
    let mut store = setup(Decimal::from_ratio(8, 10), Decimal::from_ratio(2, 10));
    let before = store.record.clone();
    let env = Env { contract_address: "self".to_string() };
    let res = execute_withdraw(&store, &env, &mock_info("stranger", vec![]), 100).unwrap();
    let expected = "{\"send\":{\"contract\":\"anchor_address\",\"amount\":\"100\",\"msg\":\"eyJiYWxhbmNlIjp7ImFkZHJlc3MiOiJzZWxmIn19\"}}";
    assert_eq!(
        res,
        Response {
            messages: vec![Instruction::Execute {
                contract_addr: "token_address".to_string(),
                funds: vec![],
                msg: expected.as_bytes().to_vec(),
            }]
        }
    );
    let res = execute(
        &mut store,
        &env,
        &mock_info("stranger", vec![]),
        ExecuteMsg::Withdraw { amount: 100 },
        false,
    )
    .unwrap();
    assert_eq!(res.messages.len(), 1);
    assert_eq!(store.record, before);
}

#[test]
fn forwarded_queries_carry_their_payloads() {
    let store = setup(Decimal::from_ratio(8, 10), Decimal::from_ratio(2, 10));
    let env = Env { contract_address: "self".to_string() };
    let epoch = SmartQuery {
        contract_addr: "anchor_address".to_string(),
        msg: "{\"epoch_state\":{\"block_height\":null,\"distributed_interest\":null}}"
            .as_bytes()
            .to_vec(),
    };
    assert_eq!(query_epoch_state(&store), Ok(clone_query(&epoch)));
    assert_eq!(query(&store, &env, QueryMsg::GetEpochState {}), Ok(QueryResponse::Forward(epoch)));
    let balance = SmartQuery {
        contract_addr: "token_address".to_string(),
        msg: "{\"balance\":{\"address\":\"self\"}}".as_bytes().to_vec(),
    };
    assert_eq!(query_aust_balance(&store, &env), Ok(clone_query(&balance)));
    assert_eq!(
        query(&store, &env, QueryMsg::GetAustBalance {}),
        Ok(QueryResponse::Forward(balance))
    );
}

fn clone_query(q: &SmartQuery) -> SmartQuery {
    SmartQuery { contract_addr: q.contract_addr.clone(), msg: q.msg.clone() }
}

#[test]
fn setup_makes_the_caller_owner_and_starts_at_zero() {
    let store = setup(Decimal::from_ratio(1, 4), Decimal::from_ratio(3, 4));
    assert_eq!(
        store.record,
        Some(State {
            owner: "creator".to_string(),
            denom: "uusd".to_string(),
            anchor_portion: Decimal { atomics: 250_000_000_000_000_000 },
            luna_portion: Decimal { atomics: 750_000_000_000_000_000 },
            anchor_address: "anchor_address".to_string(),
            token_address: "token_address".to_string(),
            total_deposit: 0,
        })
    );
}

#[test]
fn total_counts_only_the_first_parts_of_deposits() {
    let mut store = setup(Decimal::from_ratio(8, 10), Decimal::from_ratio(2, 10));
    let env = mock_env();
    let owner = |funds| mock_info("creator", funds);
    let total = |store: &ConfigStore| query_state_info(store).unwrap().total_deposit;

    execute(&mut store, &env, &mock_info("a", vec![coin(50, "uusd")]), ExecuteMsg::Deposit {}, true)
        .unwrap();
    assert_eq!(total(&store), 40);
    execute(&mut store, &env, &owner(vec![]), ExecuteMsg::Withdraw { amount: 30 }, true).unwrap();
    execute(&mut store, &env, &owner(vec![]), ExecuteMsg::SendToWallet { amount: 9 }, true)
        .unwrap();
    assert_eq!(total(&store), 40);
    let change = ExecuteMsg::ChangePortion {
        anchor_portion: Decimal::from_ratio(1, 4),
        luna_portion: Decimal::from_ratio(3, 4),
    };
    execute(&mut store, &env, &owner(vec![coin(1000, "uusd")]), change, true).unwrap();
    assert_eq!(total(&store), 40);
    assert_eq!(
        execute(&mut store, &env, &mock_info("a", vec![coin(5, "uluna")]), ExecuteMsg::Deposit {}, true),
        Err(ContractError::InsufficientFunds)
    );
    assert_eq!(
        execute(
            &mut store,
            &env,
            &mock_info("a", vec![coin(5, "uusd")]),
            ExecuteMsg::SetOwner { address: "a".to_string() },
            true
        ),
        Err(ContractError::Unauthorized)
    );
    assert_eq!(total(&store), 40);
    execute(&mut store, &env, &mock_info("b", vec![coin(10, "uusd")]), ExecuteMsg::Deposit {}, true)
        .unwrap();
    assert_eq!(total(&store), 42);
    execute(&mut store, &env, &owner(vec![]), ExecuteMsg::SetOwner { address: "n".to_string() }, true)
        .unwrap();
    execute(&mut store, &env, &mock_info("c", vec![coin(7, "uusd")]), ExecuteMsg::Deposit {}, true)
        .unwrap();
    assert_eq!(total(&store), 43);
}

#[test]
fn deposit_and_withdrawal_do_not_look_at_the_caller() {
    let env = mock_env();
    let mut by_owner = setup(Decimal::from_ratio(8, 10), Decimal::from_ratio(2, 10));
    let mut by_stranger = setup(Decimal::from_ratio(8, 10), Decimal::from_ratio(2, 10));
    let a = execute(
        &mut by_owner,
        &env,
        &mock_info("creator", vec![coin(50, "uusd")]),
        ExecuteMsg::Deposit {},
        true,
    );
    let b = execute(
        &mut by_stranger,
        &env,
        &mock_info("stranger", vec![coin(50, "uusd")]),
        ExecuteMsg::Deposit {},
        false,
    );
    assert!(a.is_ok());
    assert_eq!(a, b);
    assert_eq!(by_owner.record, by_stranger.record);
    let a = execute(&mut by_owner, &env, &mock_info("creator", vec![]), ExecuteMsg::Withdraw { amount: 3 }, true);
    let b = execute(&mut by_stranger, &env, &mock_info("stranger", vec![]), ExecuteMsg::Withdraw { amount: 3 }, true);
    assert!(a.is_ok());
    assert_eq!(a, b);
    assert_eq!(by_owner.record, by_stranger.record);
}
