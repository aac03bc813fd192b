//! The steps that the entry points are made of: settling an account's
//! reward, recomputing its decayed balance, keeping the supply equal to the
//! balances, and checking that the contract can pay what it owes.

use crate::consts::MAX_LOCK_PERIOD;
use crate::env::{Env, MessageInfo};
use crate::error::ContractError;
use crate::events::ContractEvent;
use crate::response::{Effects, Response, SupplyChange, TransferMsg};
use crate::state::{TokenState, UserState};
use vstd::prelude::*;

verus! {

/// What an operation on the global record and one account leaves behind.
pub struct Outcome {
    pub token_state: TokenState,
    pub user_state: UserState,
    pub effects: Effects,
}

/// `res` and the states after the call are what `expected` says: on success
/// its states and effects, on failure its error and the states as they were.
pub open spec fn agrees(
    res: Result<Response, ContractError>,
    expected: Result<Outcome, ContractError>,
    token_before: TokenState,
    user_before: UserState,
    token_after: TokenState,
    user_after: UserState,
) -> bool {
    match expected {
        Ok(outcome) => {
            &&& res is Ok
            &&& res->Ok_0@ == outcome.effects
            &&& token_after == outcome.token_state
            &&& user_after == outcome.user_state
        },
        Err(error) => {
            &&& res == Err::<Response, ContractError>(error)
            &&& token_after == token_before
            &&& user_after == user_before
        },
    }
}

/// Where the reserve check stays within range.
pub open spec fn reserves_defined(token_state: TokenState, env: Env) -> bool {
    &&& token_state.last_income_block <= env.block_height
    &&& token_state.total_locked + token_state.unvested_income(env.block_height) <= u128::MAX
}

/// The contract holds at least the locked principal and the income that is
/// not paid out yet.
pub open spec fn reserves_cover(token_state: TokenState, reserve_balance: u128, env: Env) -> bool {
    reserve_balance >= token_state.total_locked + token_state.unvested_income(env.block_height)
}

/// Where `set_balance` stays within range: the supply can take what is
/// minted and give what is burned. A call with reward unclaimed is refused
/// before anything is computed.
pub open spec fn balance_defined(
    token_state: TokenState,
    user_state: UserState,
    amount: u128,
) -> bool {
    user_state.reward_snapshot == token_state.reward_per_token ==> {
        &&& token_state.total_supply - user_state.balance + amount <= u128::MAX
        &&& user_state.balance <= amount || user_state.balance - amount <= token_state.total_supply
    }
}

/// What the ledger of the escrowed balance has to do when the balance of
/// `account` goes from `balance` to `amount`.
pub open spec fn supply_changes(account: String, balance: u128, amount: u128) -> Seq<SupplyChange> {
    if amount > balance {
        seq![SupplyChange::Mint { to: account, amount: (amount - balance) as u128 }]
    } else if amount < balance {
        seq![SupplyChange::Burn { from: account, amount: (balance - amount) as u128 }]
    } else {
        Seq::empty()
    }
}

/// What `set_balance` does: the account's balance becomes `amount` and the
/// supply changes by the same difference.
pub open spec fn balance_outcome(
    token_state: TokenState,
    user_state: UserState,
    account: String,
    amount: u128,
) -> Result<Outcome, ContractError> {
    if user_state.reward_snapshot != token_state.reward_per_token {
        Err(ContractError::ClaimFirst)
    } else {
        Ok(
            Outcome {
                token_state: TokenState {
                    total_supply: (token_state.total_supply - user_state.balance + amount) as u128,
                    ..token_state
                },
                user_state: UserState { balance: amount, ..user_state },
                effects: Effects {
                    supply_changes: supply_changes(account, user_state.balance, amount),
                    ..Effects::none()
                },
            },
        )
    }
}

/// Seconds from `now` until `locked_until`, none where that time has come.
pub open spec fn lock_seconds(locked_until: u64, now: u64) -> int {
    if locked_until > now {
        locked_until - now
    } else {
        0
    }
}

/// The escrowed balance of `locked_balance` locked until `locked_until`:
/// the share of the principal that the time left is of the longest lock.
pub open spec fn decayed_balance(locked_balance: u128, locked_until: u64, now: u64) -> int {
    locked_balance * lock_seconds(locked_until, now) / (MAX_LOCK_PERIOD as int)
}

/// Where `update_lock` stays within range.
pub open spec fn update_lock_defined(
    token_state: TokenState,
    user_state: UserState,
    env: Env,
    new_locked_until: u64,
) -> bool {
    &&& user_state.locked_balance * lock_seconds(new_locked_until, env.block_time) <= u128::MAX
    &&& balance_defined(
        token_state,
        user_state,
        decayed_balance(user_state.locked_balance, new_locked_until, env.block_time) as u128,
    )
}

/// What `update_lock` does: the lock ends at `new_locked_until` and the
/// balance is what the principal is worth for the time left.
pub open spec fn update_lock_outcome(
    token_state: TokenState,
    user_state: UserState,
    env: Env,
    account: String,
    new_locked_until: u64,
) -> Result<Outcome, ContractError> {
    balance_outcome(
        token_state,
        UserState { locked_until: new_locked_until, ..user_state },
        account,
        decayed_balance(user_state.locked_balance, new_locked_until, env.block_time) as u128,
    )
}

/// The account as `claim` hands it to `update_lock`: settled against the
/// accumulator after the accrual.
pub open spec fn settled_user(
    token_state: TokenState,
    user_state: UserState,
    env: Env,
) -> UserState {
    UserState {
        reward_snapshot: token_state.accrued(env.block_height).reward_per_token,
        ..user_state
    }
}

/// Where `claim` stays within range.
pub open spec fn claim_defined(token_state: TokenState, user_state: UserState, env: Env) -> bool {
    &&& token_state.accrue_defined(env.block_height)
    &&& user_state.reward_defined(token_state.accrued(env.block_height).reward_per_token)
    &&& update_lock_defined(
        token_state.accrued(env.block_height),
        settled_user(token_state, user_state, env),
        env,
        user_state.locked_until,
    )
}

/// Reward paid by `claim`.
pub open spec fn claim_amount(token_state: TokenState, user_state: UserState, env: Env) -> u128 {
    user_state.reward_due(token_state.accrued(env.block_height).reward_per_token) as u128
}

/// What `claim` does: an accrual, the reward due paid out and recorded
/// where there is any, and the balance decayed to the current time.
pub open spec fn claim_outcome(
    token_state: TokenState,
    user_state: UserState,
    env: Env,
    info: MessageInfo,
) -> Outcome {
    let decayed = update_lock_outcome(
        token_state.accrued(env.block_height),
        settled_user(token_state, user_state, env),
        env,
        info.sender,
        user_state.locked_until,
    )->Ok_0;
    let reward = claim_amount(token_state, user_state, env);
    if reward == 0 {
        decayed
    } else {
        Outcome {
            effects: Effects {
                messages: seq![TransferMsg::Transfer { recipient: info.sender, amount: reward }],
                events: seq![
                    ContractEvent::Claim {
                        account: info.sender,
                        claim_amount: reward,
                        ve_balance: decayed.user_state.balance,
                    },
                ],
                ..decayed.effects
            },
            ..decayed
        }
    }
}

/// The escrowed balance never exceeds the principal while the time left is
/// at most the longest lock, and with any principal it reaches it only
/// where the time left is the longest lock.
pub proof fn lemma_decay_bound(locked_balance: u128, locked_until: u64, now: u64)
    requires
        lock_seconds(locked_until, now) <= MAX_LOCK_PERIOD,
    ensures
        0 <= decayed_balance(locked_balance, locked_until, now) <= locked_balance,
        locked_balance > 0 && decayed_balance(locked_balance, locked_until, now) == locked_balance
            ==> lock_seconds(locked_until, now) == MAX_LOCK_PERIOD,
        lock_seconds(locked_until, now) == 0 ==> decayed_balance(locked_balance, locked_until, now)
            == 0,
{
    let seconds = lock_seconds(locked_until, now);
    let longest = MAX_LOCK_PERIOD as int;
    let principal = locked_balance as int;
    assert(0 <= principal * seconds / longest <= principal && (principal > 0 && principal * seconds
        / longest == principal ==> seconds == longest) && (seconds == 0 ==> principal * seconds
        / longest == 0)) by (nonlinear_arith)
        requires
            0 <= seconds <= longest,
            longest > 0,
            0 <= principal,
    ;
}

/// Whether the reserve check stays within range.
pub fn can_check_reserves(token_state: &TokenState, env: &Env) -> (ok: bool)
    ensures
        ok == reserves_defined(*token_state, *env),
{
    if env.block_height < token_state.last_income_block {
        return false;
    }
    match token_state.checked_remaining_income(env.block_height) {
        None => false,
        Some(unvested) => token_state.total_locked.checked_add(unvested).is_some(),
    }
}

/// Whether `set_balance` stays within range.
pub fn can_set_balance(token_state: &TokenState, user_state: &UserState, amount: u128) -> (ok: bool)
    ensures
        ok == balance_defined(*token_state, *user_state, amount),
{
    if user_state.reward_snapshot != token_state.reward_per_token {
        true
    } else if amount > user_state.balance {
        token_state.total_supply.checked_add(amount - user_state.balance).is_some()
    } else {
        user_state.balance - amount <= token_state.total_supply
    }
}

/// Whether `update_lock` stays within range.
pub fn can_update_lock(
    token_state: &TokenState,
    user_state: &UserState,
    env: &Env,
    new_locked_until: u64,
) -> (ok: bool)
    ensures
        ok == update_lock_defined(*token_state, *user_state, *env, new_locked_until),
{
    let lock_seconds: u128 = if new_locked_until > env.block_time {
        (new_locked_until - env.block_time) as u128
    } else {
        0
    };
    match user_state.locked_balance.checked_mul(lock_seconds) {
        None => false,
        Some(weighted) => can_set_balance(token_state, user_state, weighted / (MAX_LOCK_PERIOD as u128)),
    }
}

/// Whether `claim` stays within range.
pub fn can_claim(token_state: &TokenState, user_state: &UserState, env: &Env) -> (ok: bool)
    ensures
        ok == claim_defined(*token_state, *user_state, *env),
{
    if !token_state.can_accrue(env.block_height) {
        return false;
    }
    let mut accrued = token_state.clone();
    let _ = accrued.accrue(env.block_height);
    if !user_state.can_settle(accrued.reward_per_token) {
        return false;
    }
    let mut settled = *user_state;
    settled.reward_snapshot = accrued.reward_per_token;
    can_update_lock(&accrued, &settled, env, settled.locked_until)
}

/// Fails unless the contract's holdings of the locked token, as the token's
/// ledger reports them, cover the locked principal and the income that is
/// not yet paid out.
pub fn check_reserves(
    token_state: &TokenState,
    reserve_balance: u128,
    env: &Env,
) -> (res: Result<(), ContractError>)
    requires
        reserves_defined(*token_state, *env),
    ensures
        reserves_cover(*token_state, reserve_balance, *env) ==> res == Ok::<(), ContractError>(()),
        !reserves_cover(*token_state, reserve_balance, *env) ==> res == Err::<(), ContractError>(
            ContractError::InsufficientReserves,
        ),
{
    let unvested_income: u128 = token_state.remaining_income(env.block_height);
    if reserve_balance < token_state.total_locked + unvested_income {
        return Err(ContractError::InsufficientReserves);
    }
    Ok(())
}

/// Pays the sender the reward earned since the last claim and lets the
/// balance decay to the current time. Always succeeds.
pub fn claim(
    token_state: &mut TokenState,
    user_state: &mut UserState,
    env: &Env,
    info: &MessageInfo,
) -> (res: Result<Response, ContractError>)
    requires
        claim_defined(*old(token_state), *old(user_state), *env),
    ensures
        agrees(
            res,
            Ok(claim_outcome(*old(token_state), *old(user_state), *env, *info)),
            *old(token_state),
            *old(user_state),
            *final(token_state),
            *final(user_state),
        ),
        final(token_state).reward_per_token >= old(token_state).reward_per_token,
        final(user_state).reward_snapshot == final(token_state).reward_per_token,
{
    token_state.accrue(env.block_height)?;
    let pending_reward: u128 = user_state.pending_reward(token_state.reward_per_token);
    user_state.reward_snapshot = token_state.reward_per_token;
    let locked_until: u64 = user_state.locked_until;
    let mut response = update_lock(token_state, user_state, env, &info.sender, locked_until)?;
    if pending_reward != 0 {
        response.messages.push(
            TransferMsg::Transfer { recipient: info.sender.clone(), amount: pending_reward },
        );
        response.events.push(
            ContractEvent::make_claim(info.sender.clone(), pending_reward, user_state.balance),
        );
    }
    assert(response@ =~~= claim_outcome(*old(token_state), *old(user_state), *env, *info).effects);
    Ok(response)
}

/// Moves the end of the lock of `account` to `new_locked_until` and sets
/// its balance to what its principal is worth for the time left. Refused
/// while the account has reward unclaimed.
pub fn update_lock(
    token_state: &mut TokenState,
    user_state: &mut UserState,
    env: &Env,
    account: &String,
    new_locked_until: u64,
) -> (res: Result<Response, ContractError>)
    requires
        update_lock_defined(*old(token_state), *old(user_state), *env, new_locked_until),
    ensures
        agrees(
            res,
            update_lock_outcome(*old(token_state), *old(user_state), *env, *account, new_locked_until),
            *old(token_state),
            *old(user_state),
            *final(token_state),
            *final(user_state),
        ),
{
    let lock_seconds: u128 = if new_locked_until > env.block_time {
        (new_locked_until - env.block_time) as u128
    } else {
        0
    };
    let new_balance: u128 = (user_state.locked_balance * lock_seconds) / (MAX_LOCK_PERIOD as u128);
    let locked_until: u64 = user_state.locked_until;
    user_state.locked_until = new_locked_until;
    let res = set_balance(token_state, user_state, account, new_balance);
    if res.is_err() {
        user_state.locked_until = locked_until;
    }
    res
}

/// Sets the balance of `account` to `amount` and the supply with it, and
/// tells the ledger what to mint or burn. Refused while the account has
/// reward unclaimed, which a change of its balance would lose.
pub fn set_balance(
    token_state: &mut TokenState,
    user_state: &mut UserState,
    account: &String,
    amount: u128,
) -> (res: Result<Response, ContractError>)
    requires
        balance_defined(*old(token_state), *old(user_state), amount),
    ensures
        agrees(
            res,
            balance_outcome(*old(token_state), *old(user_state), *account, amount),
            *old(token_state),
            *old(user_state),
            *final(token_state),
            *final(user_state),
        ),
{
    if user_state.reward_snapshot != token_state.reward_per_token {
        return Err(ContractError::ClaimFirst);
    }
    let mut response = Response::new();
    if amount > user_state.balance {
        let minted: u128 = amount - user_state.balance;
        token_state.total_supply = token_state.total_supply + minted;
        response.supply_changes.push(SupplyChange::Mint { to: account.clone(), amount: minted });
    } else if amount < user_state.balance {
        let burned: u128 = user_state.balance - amount;
        token_state.total_supply = token_state.total_supply - burned;
        response.supply_changes.push(SupplyChange::Burn { from: account.clone(), amount: burned });
    }
    user_state.balance = amount;
    assert(response@ =~~= balance_outcome(
        *old(token_state),
        *old(user_state),
        *account,
        amount,
    )->Ok_0.effects);
    Ok(response)
}

} // verus!
