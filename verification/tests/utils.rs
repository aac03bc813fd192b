use cosmwasm_std::testing::{
    mock_dependencies, mock_env, mock_info, MockApi, MockQuerier, MockStorage,
};
use cosmwasm_std::{attr, to_json_binary, Addr, Attribute, OwnedDeps, Uint128};
use cw20::Cw20ExecuteMsg;
use cw20_base::contract::{execute_burn, execute_mint};
use cw20_base::state::{MinterData, TokenInfo, BALANCES, TOKEN_INFO};
use vewild::consts::{apply_decimals, MAX_LOCK_PERIOD, TOKEN_DECIMALS, TOKEN_NAME, TOKEN_SYMBOL};
use vewild::contract::instantiate;
use vewild::cw20_client::{CW20Client, WasmMsg};
use vewild::env::{Env, MessageInfo};
use vewild::error::ContractError;
use vewild::events::ContractEvent;
use vewild::internal::{check_reserves, claim, set_balance, update_lock};
use vewild::msg::InstantiateMsg;
use vewild::response::{SupplyChange, TransferMsg};
use vewild::state::{TokenState, UserState};

type Host = OwnedDeps<MockStorage, MockApi, MockQuerier>;

const MOCK_LOCKED_TOKEN: &str = "cw20";

fn library_env(env: &cosmwasm_std::Env) -> Env {
    Env {
        block_height: env.block.height,
        block_time: env.block.time.seconds(),
        contract_address: env.contract.address.to_string(),
    }
}

fn sender(address: &str) -> MessageInfo {
    MessageInfo { sender: address.to_string() }
}

/// Sets up the ledger of the escrowed balance as the host does, and gives
/// the contract's first global record.
fn mock_instantiate(host: &mut Host, env: &cosmwasm_std::Env) -> TokenState {
    let data = TokenInfo {
        name: TOKEN_NAME.to_string(),
        symbol: TOKEN_SYMBOL.to_string(),
        decimals: TOKEN_DECIMALS,
        total_supply: Uint128::zero(),
        mint: Some(MinterData { minter: env.contract.address.clone(), cap: None }),
    };
    TOKEN_INFO.save(&mut host.storage, &data).unwrap();
    let (token_state, _response) = instantiate(
        &library_env(env),
        InstantiateMsg { locked_token: MOCK_LOCKED_TOKEN.to_string(), distribution_period: 1000 },
    )
    .unwrap();
    token_state
}

/// Carries the supply changes out on the ledger, as the host does, and
/// gives what the ledger reports of them.
fn apply_supply_changes(
    host: &mut Host,
    env: &cosmwasm_std::Env,
    changes: &[SupplyChange],
) -> Vec<Attribute> {
    let mut attributes = vec![];
    for change in changes {
        let response = match change {
            SupplyChange::Mint { to, amount } => execute_mint(
                host.as_mut(),
                env.clone(),
                mock_info(env.contract.address.as_str(), &[]),
                to.clone(),
                Uint128::new(*amount),
            )
            .unwrap(),
            SupplyChange::Burn { from, amount } => {
                execute_burn(host.as_mut(), env.clone(), mock_info(from, &[]), Uint128::new(*amount))
                    .unwrap()
            }
        };
        attributes.extend(response.attributes);
    }
    attributes
}

fn ledger_balance(host: &Host, address: &str) -> u128 {
    BALANCES.load(&host.storage, &Addr::unchecked(address)).unwrap().u128()
}

fn ledger_supply(host: &Host) -> u128 {
    TOKEN_INFO.load(&host.storage).unwrap().total_supply.u128()
}

#[test]
fn tests_test_claim_with_reward() {
    let mut host = mock_dependencies();
    let env = mock_env();
    let mut token_state = mock_instantiate(&mut host, &env);

    let user_addr = "user".to_string();
    let mut user_state = UserState::default();

    let initial_user_balance = apply_decimals(1000);
    let user_locked_until_delta = 1000u64;
    let user_locked_balance = apply_decimals(1000);
    let reward_per_token = 300000u128;

    let minted =
        set_balance(&mut token_state, &mut user_state, &user_addr, initial_user_balance).unwrap();
    apply_supply_changes(&mut host, &env, &minted.supply_changes);

    token_state.reward_per_token = reward_per_token;
    user_state.locked_balance = user_locked_balance;
    user_state.locked_until = env.block.time.plus_seconds(user_locked_until_delta).seconds();

    let current_block = env.block.height;

    let mut expected_token_state = token_state.clone();
    expected_token_state.reward_per_token = reward_per_token;
    expected_token_state.last_accrue_block = current_block;

    let expected_pending_reward = user_state.pending_reward(token_state.reward_per_token);
    let expected_balance = (user_state.locked_balance * 1000u128) / (MAX_LOCK_PERIOD as u128);

    let mut expected_user_state = user_state;
    expected_user_state.balance = expected_balance;
    expected_user_state.reward_snapshot = reward_per_token;

    let resp = claim(&mut token_state, &mut user_state, &library_env(&env), &sender("user")).unwrap();
    let attributes = apply_supply_changes(&mut host, &env, &resp.supply_changes);

    expected_token_state.total_supply = expected_balance;

    assert_eq!(token_state, expected_token_state);
    assert_eq!(user_state, expected_user_state);
    assert_eq!(ledger_balance(&host, "user"), expected_balance);
    assert_eq!(ledger_supply(&host), token_state.total_supply);

    assert_eq!(expected_pending_reward, 300_000_000);
    assert_eq!(
        resp.messages,
        vec![TransferMsg::Transfer { recipient: user_addr.clone(), amount: expected_pending_reward }]
    );
    let expected_message = WasmMsg {
        contract_addr: token_state.locked_token.clone(),
        msg: to_json_binary(
            &(Cw20ExecuteMsg::Transfer {
                recipient: user_addr.clone(),
                amount: Uint128::new(expected_pending_reward),
            }),
        )
        .unwrap()
        .0,
    };
    assert_eq!(
        CW20Client::new(token_state.locked_token.clone()).encode_all(&resp.messages).unwrap(),
        vec![expected_message]
    );
    assert_eq!(
        resp.events,
        vec![ContractEvent::make_claim(user_addr.clone(), expected_pending_reward, expected_balance)]
    );
    assert_eq!(
        attributes,
        vec![
            attr("action", "burn"),
            attr("from", user_addr.clone()),
            attr("amount", Uint128::new(user_locked_balance - expected_balance)),
        ]
    );
}

#[test]
fn tests_test_update_lock() {
    let mut host = mock_dependencies();
    let env = mock_env();
    let mut token_state = mock_instantiate(&mut host, &env);

    let user_addr = "user".to_string();
    let mut user_state = UserState::default();
    user_state.locked_balance = 1000u128;

    // 1. Set non-zero balance

    let new_locked_until = env.block.time.plus_seconds(300000).seconds();

    let resp = update_lock(
        &mut token_state,
        &mut user_state,
        &library_env(&env),
        &user_addr,
        new_locked_until,
    )
    .unwrap();
    let attributes = apply_supply_changes(&mut host, &env, &resp.supply_changes);

    assert_eq!(ledger_balance(&host, "user"), 2u128); //(1000 * 300000)/126144000 = 2
    assert_eq!(user_state.balance, 2u128);
    assert_eq!(user_state.locked_until, new_locked_until);
    assert_eq!(token_state.total_supply, 2u128);

    assert_eq!(resp.supply_changes, vec![SupplyChange::Mint { to: user_addr.clone(), amount: 2 }]);
    assert_eq!(
        attributes,
        vec![attr("action", "mint"), attr("to", user_addr.clone()), attr("amount", "2")]
    );
    assert!(resp.messages.is_empty());
    assert!(resp.events.is_empty());

    // 2. Set zero balance

    let resp = update_lock(
        &mut token_state,
        &mut user_state,
        &library_env(&env),
        &user_addr,
        env.block.time.seconds(),
    )
    .unwrap();
    let attributes = apply_supply_changes(&mut host, &env, &resp.supply_changes);

    assert_eq!(ledger_balance(&host, "user"), 0u128); //(1000 * 0)/126144000 = 0
    assert_eq!(user_state.balance, 0u128);
    assert_eq!(token_state.total_supply, 0u128);

    assert_eq!(resp.supply_changes, vec![SupplyChange::Burn { from: user_addr.clone(), amount: 2 }]);
    assert_eq!(
        attributes,
        vec![attr("action", "burn"), attr("from", user_addr.clone()), attr("amount", "2")]
    );
}

#[test]
fn tests_test_set_balance_burn() {
    let mut host = mock_dependencies();
    let env = mock_env();
    let mut token_state = mock_instantiate(&mut host, &env);

    token_state.reward_per_token = 10u128;
    token_state.total_supply = 1000u128;

    let user_addr = "user".to_string();
    let mut user_state = UserState::default();
    user_state.reward_snapshot = 10u128;
    user_state.balance = 100u128;

    // the ledger holds what the records say: 100 for the user out of 1000
    apply_supply_changes(
        &mut host,
        &env,
        &[
            SupplyChange::Mint { to: "user".to_string(), amount: 100 },
            SupplyChange::Mint { to: "others".to_string(), amount: 900 },
        ],
    );

    assert_eq!(ledger_balance(&host, "user"), 100u128);

    let resp = set_balance(&mut token_state, &mut user_state, &user_addr, 30u128).unwrap();
    let attributes = apply_supply_changes(&mut host, &env, &resp.supply_changes);

    assert_eq!(resp.supply_changes, vec![SupplyChange::Burn { from: user_addr.clone(), amount: 70 }]);
    assert_eq!(
        attributes,
        vec![attr("action", "burn"), attr("from", user_addr.clone()), attr("amount", "70")]
    );

    // Ensure that cw20 state and our states are synced
    assert_eq!(token_state.total_supply, ledger_supply(&host));
    assert_eq!(user_state.balance, ledger_balance(&host, "user"));
    assert_eq!(token_state.total_supply, 930);
    assert_eq!(user_state.balance, 30);
}

#[test]
fn tests_test_set_balance_mint() {
    let mut host = mock_dependencies();
    let env = mock_env();
    let mut token_state = mock_instantiate(&mut host, &env);

    token_state.reward_per_token = 10u128;
    token_state.total_supply = 1000u128;

    let user_addr = "user".to_string();
    let mut user_state = UserState::default();
    user_state.reward_snapshot = 10u128;

    // the ledger holds what the records say: nothing for the user out of 1000
    apply_supply_changes(
        &mut host,
        &env,
        &[SupplyChange::Mint { to: "others".to_string(), amount: 1000 }],
    );

    let resp = set_balance(&mut token_state, &mut user_state, &user_addr, 100u128).unwrap();
    let attributes = apply_supply_changes(&mut host, &env, &resp.supply_changes);

    assert_eq!(resp.supply_changes, vec![SupplyChange::Mint { to: user_addr.clone(), amount: 100 }]);
    assert_eq!(
        attributes,
        vec![attr("action", "mint"), attr("to", user_addr.clone()), attr("amount", "100")]
    );

    // Ensure that cw20 state and our states are synced
    assert_eq!(token_state.total_supply, ledger_supply(&host));
    assert_eq!(user_state.balance, ledger_balance(&host, "user"));
    assert_eq!(token_state.total_supply, 1100);
    assert_eq!(user_state.balance, 100);
}

#[test]
fn tests_test_set_balance_errors() {
    let mut host = mock_dependencies();
    let env = mock_env();
    let mut token_state = mock_instantiate(&mut host, &env);

    token_state.reward_per_token = 10u128;
    token_state.total_supply = 1000u128;

    let user_addr = "user".to_string();

    // Claim first error
    let mut user_state = UserState::default();
    user_state.reward_snapshot = 5u128;
    let token_before = token_state.clone();
    let user_before = user_state;

    let error = set_balance(&mut token_state, &mut user_state, &user_addr, 100u128).unwrap_err();
    assert_eq!(error, ContractError::ClaimFirst {});
    assert_eq!(token_state, token_before);
    assert_eq!(user_state, user_before);
}

#[test]
fn tests_test_check_reserves() {
    let mut host = mock_dependencies();
    let mut env = mock_env();
    let mut token_state = mock_instantiate(&mut host, &env);
    // 1. enough balance
    token_state.total_locked = 1000u128;

    env.block.height += 500;
    check_reserves(&token_state, 1000u128, &library_env(&env)).unwrap();

    // 2. not enough balance
    let mut host = mock_dependencies();
    let env = mock_env();
    let mut token_state = mock_instantiate(&mut host, &env);
    token_state.total_locked = 1000u128;

    let err = check_reserves(&token_state, 100u128, &library_env(&env)).unwrap_err();
    assert_eq!(err, ContractError::InsufficientReserves {});
}
