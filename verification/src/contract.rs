//! The entry points: one function for each request the contract accepts.
//!
//! Each takes the records it works on as the host has loaded them, and the
//! contract's holdings of the locked token where it has to check them: the
//! holdings as the token's ledger reports them before any instruction of
//! this request is carried out. On success the records are as the host has
//! to store them; on failure they are untouched.
//!
//! Every entry point has a predicate that says where it stays within the
//! range of its integers, and a function that tests it. `try_execute` is
//! the entry point for a caller that cannot prove the predicate.

use crate::consts::{MAX_LOCK_PERIOD, MIN_LOCK_PERIOD, WITHDRAW_DELAY};
use crate::env::{Env, MessageInfo};
use crate::error::ContractError;
use crate::events::ContractEvent;
use crate::internal::{
    agrees, balance_defined, balance_outcome, can_check_reserves, can_claim, can_set_balance,
    can_update_lock, check_reserves, claim, claim_defined, claim_outcome, lock_seconds,
    reserves_cover, reserves_defined, set_balance, update_lock, update_lock_defined,
    update_lock_outcome, Outcome,
};
use crate::msg::{ExecuteMsg, InstantiateMsg};
use crate::response::{Effects, Response, TransferMsg};
use crate::state::{TokenState, UpdateRewardRateInput, UserState};
use vstd::prelude::*;

verus! {

/// `res` and the record after the call are what an operation on the global
/// record alone was to give: on success `expected` and `effects`, on
/// failure the error and the record as it was.
pub open spec fn agrees_global(
    res: Result<Response, ContractError>,
    refusal: Option<ContractError>,
    expected: TokenState,
    effects: Effects,
    token_before: TokenState,
    token_after: TokenState,
) -> bool {
    match refusal {
        None => {
            &&& res is Ok
            &&& res->Ok_0@ == effects
            &&& token_after == expected
        },
        Some(error) => {
            &&& res == Err::<Response, ContractError>(error)
            &&& token_after == token_before
        },
    }
}

/// The state of a contract created at block `current_block`.
pub open spec fn initial_state(
    locked_token: String,
    distribution_period: u64,
    current_block: u64,
) -> TokenState {
    TokenState {
        total_supply: 0,
        total_locked: 0,
        distribution_period,
        locked_token,
        last_accrue_block: current_block,
        last_income_block: current_block,
        reward_per_token: 0,
        reward_rate_stored: 0,
    }
}

/// Creates the contract's global record: nothing locked, nothing earned,
/// both checkpoints at the current block. A distribution period of zero is
/// refused.
pub fn instantiate(
    env: &Env,
    msg: InstantiateMsg,
) -> (res: Result<(TokenState, Response), ContractError>)
    ensures
        msg.distribution_period == 0 ==> res == Err::<(TokenState, Response), ContractError>(
            ContractError::ZeroDistributionPeriod,
        ),
        msg.distribution_period != 0 ==> res is Ok && res->Ok_0.0 == initial_state(
            msg.locked_token,
            msg.distribution_period,
            env.block_height,
        ) && res->Ok_0.1@ == TokenState::period_effects(msg.distribution_period),
{
    let mut token_state = TokenState::default();
    let current_block: u64 = env.block_height;
    assert(token_state.period_change_defined(current_block, msg.distribution_period)) by {
        assert(token_state.unvested_income(current_block) == 0);
    }
    let response = token_state.set_distribution_period(current_block, msg.distribution_period)?;
    token_state.locked_token = msg.locked_token;
    token_state.last_accrue_block = current_block;
    Ok((token_state, response))
}

/// Why a lock until `new_locked_until` is refused, if it is: the time left
/// until then lies outside the admissible periods, or the lock would end
/// earlier than the account's present one.
pub open spec fn lock_refusal(
    user_state: UserState,
    env: Env,
    new_locked_until: u64,
) -> Option<ContractError> {
    if lock_seconds(new_locked_until, env.block_time) < MIN_LOCK_PERIOD {
        Some(ContractError::LockPeriodTooShort)
    } else if lock_seconds(new_locked_until, env.block_time) > MAX_LOCK_PERIOD {
        Some(ContractError::LockPeriodTooLong)
    } else if new_locked_until < user_state.locked_until {
        Some(ContractError::CannotReduceLockedTime)
    } else {
        None
    }
}

/// The global record once `amount` more is locked.
pub open spec fn funded_token(settled: Outcome, amount: u128) -> TokenState {
    TokenState {
        total_locked: (settled.token_state.total_locked + amount) as u128,
        ..settled.token_state
    }
}

/// The account once it has locked `amount` more.
pub open spec fn funded_user(settled: Outcome, amount: u128) -> UserState {
    UserState {
        locked_balance: (settled.user_state.locked_balance + amount) as u128,
        ..settled.user_state
    }
}

/// The request to pull a deposit of `amount` from the sender, none for a
/// deposit of nothing.
pub open spec fn deposit_effects(env: Env, info: MessageInfo, amount: u128) -> Effects {
    Effects {
        messages: if amount != 0 {
            seq![
                TransferMsg::TransferFrom {
                    owner: info.sender,
                    recipient: env.contract_address,
                    amount,
                },
            ]
        } else {
            Seq::empty()
        },
        ..Effects::none()
    }
}

/// Where `execute_lock` stays within range.
pub open spec fn lock_defined(
    token_state: TokenState,
    user_state: UserState,
    env: Env,
    info: MessageInfo,
    amount: u128,
    new_locked_until: u64,
) -> bool {
    let settled = claim_outcome(token_state, user_state, env, info);
    let relocked = update_lock_outcome(
        funded_token(settled, amount),
        funded_user(settled, amount),
        env,
        info.sender,
        new_locked_until,
    )->Ok_0;
    lock_refusal(user_state, env, new_locked_until) is None ==> {
        &&& claim_defined(token_state, user_state, env)
        &&& settled.user_state.locked_balance + amount <= u128::MAX
        &&& settled.token_state.total_locked + amount <= u128::MAX
        &&& update_lock_defined(
            funded_token(settled, amount),
            funded_user(settled, amount),
            env,
            new_locked_until,
        )
        &&& reserves_defined(relocked.token_state, env)
    }
}

/// What `execute_lock` does: the reward is settled, `amount` is added to
/// the principal, the lock ends at `new_locked_until` and the balance is
/// what the new principal is worth until then.
pub open spec fn lock_outcome(
    token_state: TokenState,
    user_state: UserState,
    reserve_balance: u128,
    env: Env,
    info: MessageInfo,
    amount: u128,
    new_locked_until: u64,
) -> Result<Outcome, ContractError> {
    let settled = claim_outcome(token_state, user_state, env, info);
    let relocked = update_lock_outcome(
        funded_token(settled, amount),
        funded_user(settled, amount),
        env,
        info.sender,
        new_locked_until,
    )->Ok_0;
    match lock_refusal(user_state, env, new_locked_until) {
        Some(error) => Err(error),
        None => if !reserves_cover(relocked.token_state, reserve_balance, env) {
            Err(ContractError::InsufficientReserves)
        } else {
            Ok(
                Outcome {
                    effects: settled.effects.then_also(deposit_effects(env, info, amount)).then_also(
                        relocked.effects,
                    ).then_also(
                        Effects::event(
                            ContractEvent::Lock {
                                account: info.sender,
                                locked_balance: relocked.user_state.locked_balance,
                                ve_balance: relocked.user_state.balance,
                                locked_until: new_locked_until,
                            },
                        ),
                    ),
                    ..relocked
                },
            )
        },
    }
}

/// Whether `execute_lock` stays within range.
pub fn can_lock(
    token_state: &TokenState,
    user_state: &UserState,
    env: &Env,
    info: &MessageInfo,
    amount: u128,
    new_locked_until: u64,
) -> (ok: bool)
    ensures
        ok == lock_defined(*token_state, *user_state, *env, *info, amount, new_locked_until),
{
    let lock_seconds: u64 = if new_locked_until > env.block_time {
        new_locked_until - env.block_time
    } else {
        0
    };
    if lock_seconds < MIN_LOCK_PERIOD || lock_seconds > MAX_LOCK_PERIOD || new_locked_until
        < user_state.locked_until {
        return true;
    }
    if !can_claim(token_state, user_state, env) {
        return false;
    }
    let mut token = token_state.clone();
    let mut user = *user_state;
    let _ = claim(&mut token, &mut user, env, info);
    match (user.locked_balance.checked_add(amount), token.total_locked.checked_add(amount)) {
        (Some(locked_balance), Some(total_locked)) => {
            user.locked_balance = locked_balance;
            token.total_locked = total_locked;
        },
        _ => {
            return false;
        },
    }
    if !can_update_lock(&token, &user, env, new_locked_until) {
        return false;
    }
    let _ = update_lock(&mut token, &mut user, env, &info.sender, new_locked_until);
    can_check_reserves(&token, env)
}

/// Locks `amount` more of the sender's tokens, which may be nothing, and
/// moves the end of the lock to `new_locked_until`.
pub fn execute_lock(
    token_state: &mut TokenState,
    user_state: &mut UserState,
    reserve_balance: u128,
    env: &Env,
    info: &MessageInfo,
    amount: u128,
    new_locked_until: u64,
) -> (res: Result<Response, ContractError>)
    requires
        lock_defined(*old(token_state), *old(user_state), *env, *info, amount, new_locked_until),
    ensures
        agrees(
            res,
            lock_outcome(
                *old(token_state),
                *old(user_state),
                reserve_balance,
                *env,
                *info,
                amount,
                new_locked_until,
            ),
            *old(token_state),
            *old(user_state),
            *final(token_state),
            *final(user_state),
        ),
{
    let lock_seconds: u64 = if new_locked_until > env.block_time {
        new_locked_until - env.block_time
    } else {
        0
    };
    if lock_seconds < MIN_LOCK_PERIOD {
        return Err(ContractError::LockPeriodTooShort);
    }
    if lock_seconds > MAX_LOCK_PERIOD {
        return Err(ContractError::LockPeriodTooLong);
    }
    if new_locked_until < user_state.locked_until {
        return Err(ContractError::CannotReduceLockedTime);
    }
    let token_before = token_state.clone();
    let user_before = *user_state;

    let mut response = claim(token_state, user_state, env, info)?;
    if amount != 0 {
        user_state.locked_balance = user_state.locked_balance + amount;
        token_state.total_locked = token_state.total_locked + amount;
        response.messages.push(
            TransferMsg::TransferFrom {
                owner: info.sender.clone(),
                recipient: env.contract_address.clone(),
                amount,
            },
        );
    }
    let relocked = update_lock(token_state, user_state, env, &info.sender, new_locked_until)?;
    response.absorb(relocked);

    match check_reserves(token_state, reserve_balance, env) {
        Err(error) => {
            *token_state = token_before;
            *user_state = user_before;
            return Err(error);
        },
        Ok(()) => {},
    }
    response.events.push(
        ContractEvent::make_lock(
            info.sender.clone(),
            user_state.locked_balance,
            user_state.balance,
            new_locked_until,
        ),
    );
    let ghost expected = lock_outcome(
        *old(token_state),
        *old(user_state),
        reserve_balance,
        *env,
        *info,
        amount,
        new_locked_until,
    )->Ok_0.effects;
    assert(response@.messages =~= expected.messages);
    assert(response@.supply_changes =~= expected.supply_changes);
    assert(response@.events =~= expected.events);
    Ok(response)
}

/// Why a request to withdraw is refused, if it is.
pub open spec fn request_refusal(user_state: UserState, env: Env) -> Option<ContractError> {
    if user_state.locked_balance == 0 {
        Some(ContractError::NothingToWithdraw)
    } else if env.block_time < user_state.locked_until {
        Some(ContractError::WithdrawBeforeUnlock)
    } else {
        None
    }
}

/// Where `execute_request_withdraw` stays within range.
pub open spec fn request_defined(token_state: TokenState, user_state: UserState, env: Env) -> bool {
    request_refusal(user_state, env) is None ==> {
        &&& claim_defined(token_state, user_state, env)
        &&& env.block_time + WITHDRAW_DELAY <= u64::MAX
    }
}

/// What `execute_request_withdraw` does: the reward is settled and the
/// principal can be withdrawn once the delay has passed.
pub open spec fn request_outcome(
    token_state: TokenState,
    user_state: UserState,
    env: Env,
    info: MessageInfo,
) -> Result<Outcome, ContractError> {
    let settled = claim_outcome(token_state, user_state, env, info);
    let withdraw_at = (env.block_time + WITHDRAW_DELAY) as u64;
    match request_refusal(user_state, env) {
        Some(error) => Err(error),
        None => Ok(
            Outcome {
                user_state: UserState { withdraw_at, ..settled.user_state },
                effects: settled.effects.then_also(
                    Effects::event(
                        ContractEvent::WithdrawRequest {
                            account: info.sender,
                            amount: user_state.locked_balance,
                            withdraw_at,
                        },
                    ),
                ),
                ..settled
            },
        ),
    }
}

/// Whether `execute_request_withdraw` stays within range.
pub fn can_request_withdraw(
    token_state: &TokenState,
    user_state: &UserState,
    env: &Env,
) -> (ok: bool)
    ensures
        ok == request_defined(*token_state, *user_state, *env),
{
    if user_state.locked_balance == 0 || env.block_time < user_state.locked_until {
        return true;
    }
    can_claim(token_state, user_state, env) && env.block_time.checked_add(WITHDRAW_DELAY).is_some()
}

/// Asks for the sender's principal back. It can be withdrawn once the
/// withdrawal delay has passed.
pub fn execute_request_withdraw(
    token_state: &mut TokenState,
    user_state: &mut UserState,
    env: &Env,
    info: &MessageInfo,
) -> (res: Result<Response, ContractError>)
    requires
        request_defined(*old(token_state), *old(user_state), *env),
    ensures
        agrees(
            res,
            request_outcome(*old(token_state), *old(user_state), *env, *info),
            *old(token_state),
            *old(user_state),
            *final(token_state),
            *final(user_state),
        ),
{
    let withdraw_amount: u128 = user_state.locked_balance;
    if withdraw_amount == 0 {
        return Err(ContractError::NothingToWithdraw);
    }
    let current_time: u64 = env.block_time;
    if current_time < user_state.locked_until {
        return Err(ContractError::WithdrawBeforeUnlock);
    }
    let mut response = claim(token_state, user_state, env, info)?;
    let withdraw_at: u64 = current_time + WITHDRAW_DELAY;
    user_state.withdraw_at = withdraw_at;
    response.events.push(
        ContractEvent::make_withdraw_request(info.sender.clone(), withdraw_amount, withdraw_at),
    );
    let ghost expected = request_outcome(*old(token_state), *old(user_state), *env, *info)->Ok_0.effects;
    assert(response@.messages =~= expected.messages);
    assert(response@.supply_changes =~= expected.supply_changes);
    assert(response@.events =~= expected.events);
    Ok(response)
}

/// A withdrawal is refused unless one was requested and its delay is over.
pub open spec fn withdraw_refused(user_state: UserState, env: Env) -> bool {
    env.block_time < user_state.withdraw_at || user_state.withdraw_at == 0
}

/// The global record once the account's principal has left it.
pub open spec fn released_token(settled: Outcome) -> TokenState {
    TokenState {
        total_locked: (settled.token_state.total_locked - settled.user_state.locked_balance) as u128,
        ..settled.token_state
    }
}

/// The account once its principal has left it.
pub open spec fn released_user(settled: Outcome) -> UserState {
    UserState { locked_balance: 0, withdraw_at: 0, ..settled.user_state }
}

/// Where `execute_withdraw` stays within range.
pub open spec fn withdraw_defined(
    token_state: TokenState,
    user_state: UserState,
    env: Env,
    info: MessageInfo,
) -> bool {
    let settled = claim_outcome(token_state, user_state, env, info);
    let emptied = balance_outcome(released_token(settled), released_user(settled), info.sender, 0)->Ok_0;
    !withdraw_refused(user_state, env) ==> {
        &&& claim_defined(token_state, user_state, env)
        &&& settled.user_state.locked_balance <= settled.token_state.total_locked
        &&& balance_defined(released_token(settled), released_user(settled), 0)
        &&& reserves_defined(emptied.token_state, env)
    }
}

/// What `execute_withdraw` does: the reward is settled, the principal
/// leaves the account and the total and is paid back, and the balance goes
/// to nothing.
pub open spec fn withdraw_outcome(
    token_state: TokenState,
    user_state: UserState,
    reserve_balance: u128,
    env: Env,
    info: MessageInfo,
) -> Result<Outcome, ContractError> {
    let settled = claim_outcome(token_state, user_state, env, info);
    let emptied = balance_outcome(released_token(settled), released_user(settled), info.sender, 0)->Ok_0;
    let amount = settled.user_state.locked_balance;
    if withdraw_refused(user_state, env) {
        Err(ContractError::WithdrawDelayNotOver)
    } else if !reserves_cover(emptied.token_state, reserve_balance, env) {
        Err(ContractError::InsufficientReserves)
    } else {
        Ok(
            Outcome {
                effects: settled.effects.then_also(emptied.effects).then_also(
                    Effects::message(TransferMsg::Transfer { recipient: info.sender, amount }),
                ).then_also(Effects::event(ContractEvent::Withdraw { account: info.sender, amount })),
                ..emptied
            },
        )
    }
}

/// Whether `execute_withdraw` stays within range.
pub fn can_withdraw(
    token_state: &TokenState,
    user_state: &UserState,
    env: &Env,
    info: &MessageInfo,
) -> (ok: bool)
    ensures
        ok == withdraw_defined(*token_state, *user_state, *env, *info),
{
    if env.block_time < user_state.withdraw_at || user_state.withdraw_at == 0 {
        return true;
    }
    if !can_claim(token_state, user_state, env) {
        return false;
    }
    let mut token = token_state.clone();
    let mut user = *user_state;
    let _ = claim(&mut token, &mut user, env, info);
    if user.locked_balance > token.total_locked {
        return false;
    }
    token.total_locked = token.total_locked - user.locked_balance;
    user.locked_balance = 0;
    user.withdraw_at = 0;
    if !can_set_balance(&token, &user, 0) {
        return false;
    }
    let _ = set_balance(&mut token, &mut user, &info.sender, 0);
    can_check_reserves(&token, env)
}

/// Pays the sender's principal back, once a withdrawal was requested and
/// its delay is over.
pub fn execute_withdraw(
    token_state: &mut TokenState,
    user_state: &mut UserState,
    reserve_balance: u128,
    env: &Env,
    info: &MessageInfo,
) -> (res: Result<Response, ContractError>)
    requires
        withdraw_defined(*old(token_state), *old(user_state), *env, *info),
    ensures
        agrees(
            res,
            withdraw_outcome(*old(token_state), *old(user_state), reserve_balance, *env, *info),
            *old(token_state),
            *old(user_state),
            *final(token_state),
            *final(user_state),
        ),
{
    let withdraw_at: u64 = user_state.withdraw_at;
    let current_time: u64 = env.block_time;
    if current_time < withdraw_at || withdraw_at == 0 {
        return Err(ContractError::WithdrawDelayNotOver);
    }
    let token_before = token_state.clone();
    let user_before = *user_state;

    let mut response = claim(token_state, user_state, env, info)?;
    let withdraw_amount: u128 = user_state.locked_balance;
    user_state.withdraw_at = 0;
    token_state.total_locked = token_state.total_locked - withdraw_amount;
    user_state.locked_balance = 0;

    let emptied = set_balance(token_state, user_state, &info.sender, 0)?;
    response.absorb(emptied);
    response.messages.push(
        TransferMsg::Transfer { recipient: info.sender.clone(), amount: withdraw_amount },
    );
    match check_reserves(token_state, reserve_balance, env) {
        Err(error) => {
            *token_state = token_before;
            *user_state = user_before;
            return Err(error);
        },
        Ok(()) => {},
    }
    response.events.push(ContractEvent::make_withdraw(info.sender.clone(), withdraw_amount));
    assert(response@ =~~= withdraw_outcome(
        *old(token_state),
        *old(user_state),
        reserve_balance,
        *env,
        *info,
    )->Ok_0.effects);
    Ok(response)
}

/// Where `execute_claim` stays within range.
pub open spec fn claim_checked_defined(
    token_state: TokenState,
    user_state: UserState,
    env: Env,
    info: MessageInfo,
) -> bool {
    &&& claim_defined(token_state, user_state, env)
    &&& reserves_defined(claim_outcome(token_state, user_state, env, info).token_state, env)
}

/// What `execute_claim` does: a claim, refused where the reserves do not
/// cover what is owed after it.
pub open spec fn claim_checked_outcome(
    token_state: TokenState,
    user_state: UserState,
    reserve_balance: u128,
    env: Env,
    info: MessageInfo,
) -> Result<Outcome, ContractError> {
    let settled = claim_outcome(token_state, user_state, env, info);
    if !reserves_cover(settled.token_state, reserve_balance, env) {
        Err(ContractError::InsufficientReserves)
    } else {
        Ok(settled)
    }
}

/// Whether `execute_claim` stays within range.
pub fn can_execute_claim(
    token_state: &TokenState,
    user_state: &UserState,
    env: &Env,
    info: &MessageInfo,
) -> (ok: bool)
    ensures
        ok == claim_checked_defined(*token_state, *user_state, *env, *info),
{
    if !can_claim(token_state, user_state, env) {
        return false;
    }
    let mut token = token_state.clone();
    let mut user = *user_state;
    let _ = claim(&mut token, &mut user, env, info);
    can_check_reserves(&token, env)
}

/// Pays the sender the reward earned since the last claim.
pub fn execute_claim(
    token_state: &mut TokenState,
    user_state: &mut UserState,
    reserve_balance: u128,
    env: &Env,
    info: &MessageInfo,
) -> (res: Result<Response, ContractError>)
    requires
        claim_checked_defined(*old(token_state), *old(user_state), *env, *info),
    ensures
        agrees(
            res,
            claim_checked_outcome(*old(token_state), *old(user_state), reserve_balance, *env, *info),
            *old(token_state),
            *old(user_state),
            *final(token_state),
            *final(user_state),
        ),
{
    let token_before = token_state.clone();
    let user_before = *user_state;
    let response = claim(token_state, user_state, env, info)?;
    match check_reserves(token_state, reserve_balance, env) {
        Err(error) => {
            *token_state = token_before;
            *user_state = user_before;
            return Err(error);
        },
        Ok(()) => {},
    }
    Ok(response)
}

/// The request that `execute_add_income` makes of `update_reward_rate`: the
/// income is spread over the period in force.
pub open spec fn income_request(
    token_state: TokenState,
    env: Env,
    add_amount: u128,
) -> UpdateRewardRateInput {
    UpdateRewardRateInput {
        add_amount,
        new_distribution_period: token_state.distribution_period,
        current_block: env.block_height,
    }
}

/// The global record after an income of `add_amount`.
pub open spec fn income_state(token_state: TokenState, env: Env, add_amount: u128) -> TokenState {
    token_state.accrued(env.block_height).renormalized(income_request(token_state, env, add_amount))
}

/// Where `execute_add_income` stays within range.
pub open spec fn income_defined(token_state: TokenState, env: Env, add_amount: u128) -> bool {
    &&& token_state.accrue_defined(env.block_height)
    &&& token_state.accrued(env.block_height).update_defined(
        income_request(token_state, env, add_amount),
    )
    &&& reserves_defined(income_state(token_state, env, add_amount), env)
}

/// Why an income is refused, if it is: the reserves do not cover what is
/// owed once it is counted.
pub open spec fn income_refusal(
    token_state: TokenState,
    reserve_balance: u128,
    env: Env,
    add_amount: u128,
) -> Option<ContractError> {
    if !reserves_cover(income_state(token_state, env, add_amount), reserve_balance, env) {
        Some(ContractError::InsufficientReserves)
    } else {
        None
    }
}

/// What `execute_add_income` asks of the host and reports.
pub open spec fn income_effects(
    token_state: TokenState,
    env: Env,
    info: MessageInfo,
    add_amount: u128,
) -> Effects {
    Effects::message(
        TransferMsg::TransferFrom {
            owner: info.sender,
            recipient: env.contract_address,
            amount: add_amount,
        },
    ).then_also(
        Effects::event(
            ContractEvent::NewIncome {
                add_amount,
                remaining_amount: token_state.accrued(env.block_height).unvested_income(
                    env.block_height,
                ) as u128,
                reward_rate: income_state(token_state, env, add_amount).reward_rate_stored,
            },
        ),
    )
}

/// Whether `execute_add_income` stays within range.
pub fn can_add_income(token_state: &TokenState, env: &Env, add_amount: u128) -> (ok: bool)
    ensures
        ok == income_defined(*token_state, *env, add_amount),
{
    if !token_state.can_accrue(env.block_height) {
        return false;
    }
    let mut token = token_state.clone();
    let _ = token.accrue(env.block_height);
    let input = UpdateRewardRateInput {
        add_amount,
        new_distribution_period: token.distribution_period,
        current_block: env.block_height,
    };
    if !token.can_update_reward_rate(input) {
        return false;
    }
    let _ = token.update_reward_rate(input);
    can_check_reserves(&token, env)
}

/// Takes `add_amount` from the sender as income and streams it, with what
/// is still unpaid of earlier income, over the distribution period from
/// this block on.
pub fn execute_add_income(
    token_state: &mut TokenState,
    reserve_balance: u128,
    env: &Env,
    info: &MessageInfo,
    add_amount: u128,
) -> (res: Result<Response, ContractError>)
    requires
        income_defined(*old(token_state), *env, add_amount),
    ensures
        agrees_global(
            res,
            income_refusal(*old(token_state), reserve_balance, *env, add_amount),
            income_state(*old(token_state), *env, add_amount),
            income_effects(*old(token_state), *env, *info, add_amount),
            *old(token_state),
            *final(token_state),
        ),
{
    let token_before = token_state.clone();
    let current_block: u64 = env.block_height;
    token_state.accrue(current_block)?;
    let mut response = Response::new();
    response.messages.push(
        TransferMsg::TransferFrom {
            owner: info.sender.clone(),
            recipient: env.contract_address.clone(),
            amount: add_amount,
        },
    );
    let unvested_income: u128 = token_state.update_reward_rate(
        UpdateRewardRateInput {
            add_amount,
            new_distribution_period: token_state.distribution_period,
            current_block,
        },
    )?;
    match check_reserves(token_state, reserve_balance, env) {
        Err(error) => {
            *token_state = token_before;
            return Err(error);
        },
        Ok(()) => {},
    }
    response.events.push(
        ContractEvent::make_new_income(add_amount, unvested_income, token_state.reward_rate_stored),
    );
    assert(response@ =~~= income_effects(*old(token_state), *env, *info, add_amount));
    Ok(response)
}

/// Why a change of the distribution period is refused, if it is.
pub open spec fn period_refusal(new_distribution_period: u64) -> Option<ContractError> {
    if new_distribution_period == 0 {
        Some(ContractError::ZeroDistributionPeriod)
    } else {
        None
    }
}

/// Changes the number of blocks over which income is streamed out.
pub fn execute_set_distribution_period(
    token_state: &mut TokenState,
    env: &Env,
    new_distribution_period: u64,
) -> (res: Result<Response, ContractError>)
    requires
        old(token_state).period_change_defined(env.block_height, new_distribution_period),
    ensures
        agrees_global(
            res,
            period_refusal(new_distribution_period),
            old(token_state).with_period(env.block_height, new_distribution_period),
            TokenState::period_effects(new_distribution_period),
            *old(token_state),
            *final(token_state),
        ),
{
    token_state.set_distribution_period(env.block_height, new_distribution_period)
}

/// Where `execute` stays within range: where the entry point that serves
/// `msg` does.
pub open spec fn execute_defined(
    token_state: TokenState,
    user_state: UserState,
    env: Env,
    info: MessageInfo,
    msg: ExecuteMsg,
) -> bool {
    match msg {
        ExecuteMsg::Lock { amount, new_locked_until } => lock_defined(
            token_state,
            user_state,
            env,
            info,
            amount,
            new_locked_until,
        ),
        ExecuteMsg::RequestWithdraw => request_defined(token_state, user_state, env),
        ExecuteMsg::Withdraw => withdraw_defined(token_state, user_state, env, info),
        ExecuteMsg::Claim => claim_checked_defined(token_state, user_state, env, info),
        ExecuteMsg::AddIncome { add_amount } => income_defined(token_state, env, add_amount),
        ExecuteMsg::SetDistributionPeriod { blocks } => token_state.period_change_defined(
            env.block_height,
            blocks,
        ),
    }
}

/// What the contract does with `msg`, sent by `info.sender` whose account
/// is `user_state`, in the block `env`, while it holds `reserve_balance` of
/// the locked token.
pub open spec fn execute_outcome(
    token_state: TokenState,
    user_state: UserState,
    reserve_balance: u128,
    env: Env,
    info: MessageInfo,
    msg: ExecuteMsg,
) -> Result<Outcome, ContractError> {
    match msg {
        ExecuteMsg::Lock { amount, new_locked_until } => lock_outcome(
            token_state,
            user_state,
            reserve_balance,
            env,
            info,
            amount,
            new_locked_until,
        ),
        ExecuteMsg::RequestWithdraw => request_outcome(token_state, user_state, env, info),
        ExecuteMsg::Withdraw => withdraw_outcome(token_state, user_state, reserve_balance, env, info),
        ExecuteMsg::Claim => claim_checked_outcome(token_state, user_state, reserve_balance, env, info),
        ExecuteMsg::AddIncome { add_amount } => match income_refusal(
            token_state,
            reserve_balance,
            env,
            add_amount,
        ) {
            Some(error) => Err(error),
            None => Ok(
                Outcome {
                    token_state: income_state(token_state, env, add_amount),
                    user_state,
                    effects: income_effects(token_state, env, info, add_amount),
                },
            ),
        },
        ExecuteMsg::SetDistributionPeriod { blocks } => match period_refusal(blocks) {
            Some(error) => Err(error),
            None => Ok(
                Outcome {
                    token_state: token_state.with_period(env.block_height, blocks),
                    user_state,
                    effects: TokenState::period_effects(blocks),
                },
            ),
        },
    }
}

/// Whether `execute` stays within range on `msg`.
pub fn can_execute(
    token_state: &TokenState,
    user_state: &UserState,
    env: &Env,
    info: &MessageInfo,
    msg: &ExecuteMsg,
) -> (ok: bool)
    ensures
        ok == execute_defined(*token_state, *user_state, *env, *info, *msg),
{
    match msg {
        ExecuteMsg::Lock { amount, new_locked_until } => can_lock(
            token_state,
            user_state,
            env,
            info,
            *amount,
            *new_locked_until,
        ),
        ExecuteMsg::RequestWithdraw => can_request_withdraw(token_state, user_state, env),
        ExecuteMsg::Withdraw => can_withdraw(token_state, user_state, env, info),
        ExecuteMsg::Claim => can_execute_claim(token_state, user_state, env, info),
        ExecuteMsg::AddIncome { add_amount } => can_add_income(token_state, env, *add_amount),
        ExecuteMsg::SetDistributionPeriod { blocks } => token_state.can_set_distribution_period(
            env.block_height,
            *blocks,
        ),
    }
}

/// Serves `msg` with the entry point made for it.
pub fn execute(
    token_state: &mut TokenState,
    user_state: &mut UserState,
    reserve_balance: u128,
    env: &Env,
    info: &MessageInfo,
    msg: ExecuteMsg,
) -> (res: Result<Response, ContractError>)
    requires
        execute_defined(*old(token_state), *old(user_state), *env, *info, msg),
    ensures
        agrees(
            res,
            execute_outcome(*old(token_state), *old(user_state), reserve_balance, *env, *info, msg),
            *old(token_state),
            *old(user_state),
            *final(token_state),
            *final(user_state),
        ),
{
    match msg {
        ExecuteMsg::Lock { amount, new_locked_until } => execute_lock(
            token_state,
            user_state,
            reserve_balance,
            env,
            info,
            amount,
            new_locked_until,
        ),
        ExecuteMsg::Claim => execute_claim(token_state, user_state, reserve_balance, env, info),
        ExecuteMsg::SetDistributionPeriod { blocks } => execute_set_distribution_period(
            token_state,
            env,
            blocks,
        ),
        ExecuteMsg::RequestWithdraw => execute_request_withdraw(token_state, user_state, env, info),
        ExecuteMsg::Withdraw => execute_withdraw(token_state, user_state, reserve_balance, env, info),
        ExecuteMsg::AddIncome { add_amount } => execute_add_income(
            token_state,
            reserve_balance,
            env,
            info,
            add_amount,
        ),
    }
}

/// Serves `msg` where that stays within range, and does nothing where it
/// does not.
pub fn try_execute(
    token_state: &mut TokenState,
    user_state: &mut UserState,
    reserve_balance: u128,
    env: &Env,
    info: &MessageInfo,
    msg: ExecuteMsg,
) -> (res: Option<Result<Response, ContractError>>)
    ensures
        execute_defined(*old(token_state), *old(user_state), *env, *info, msg) ==> res is Some
            && agrees(
            res->Some_0,
            execute_outcome(*old(token_state), *old(user_state), reserve_balance, *env, *info, msg),
            *old(token_state),
            *old(user_state),
            *final(token_state),
            *final(user_state),
        ),
        !execute_defined(*old(token_state), *old(user_state), *env, *info, msg) ==> res is None
            && *final(token_state) == *old(token_state) && *final(user_state) == *old(user_state),
{
    if can_execute(token_state, user_state, env, info, &msg) {
        Some(execute(token_state, user_state, reserve_balance, env, info, msg))
    } else {
        None
    }
}

} // verus!
