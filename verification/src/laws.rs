//! What holds of the contract whatever is asked of it, stated over the
//! functions that say what each operation does.
//!
//! The contract as a whole is its global record and the records of its
//! accounts. An account that never locked anything has the record of all
//! zeros, so the accounts are a fixed sequence here. A request is carried
//! out on the global record and the sender's account; a request that is
//! refused, or that falls outside the range in which its operation is
//! defined, leaves everything as it was.

use crate::consts::{MAX_LOCK_PERIOD, SCALE};
use crate::contract::{
    execute_defined, execute_outcome, funded_token, funded_user, released_token, released_user,
};
use crate::env::{Env, MessageInfo};
use crate::error::ContractError;
use crate::internal::{
    balance_outcome, claim_amount, claim_outcome, lemma_decay_bound, lock_seconds, reserves_cover,
    update_lock_outcome, Outcome,
};
use crate::msg::ExecuteMsg;
use crate::response::SupplyChange;
use crate::state::{TokenState, UpdateRewardRateInput, UserState};
use vstd::prelude::*;

verus! {

/// The global record and every account.
pub struct Book {
    pub token_state: TokenState,
    pub accounts: Seq<UserState>,
}

/// One request: who sends it, as an index into the accounts, in which
/// block, with which holdings of the locked token, and what it asks.
pub struct Step {
    pub account: int,
    pub reserve_balance: u128,
    pub env: Env,
    pub info: MessageInfo,
    pub msg: ExecuteMsg,
}

/// Sum of the locked principal of `accounts`.
pub open spec fn locked_sum(accounts: Seq<UserState>) -> int
    decreases accounts.len(),
{
    if accounts.len() == 0 {
        0
    } else {
        locked_sum(accounts.drop_last()) + accounts.last().locked_balance
    }
}

/// Sum of the escrowed balances of `accounts`.
pub open spec fn balance_sum(accounts: Seq<UserState>) -> int
    decreases accounts.len(),
{
    if accounts.len() == 0 {
        0
    } else {
        balance_sum(accounts.drop_last()) + accounts.last().balance
    }
}

/// The totals of the global record are the sums over the accounts.
pub open spec fn conserved(book: Book) -> bool {
    &&& book.token_state.total_locked == locked_sum(book.accounts)
    &&& book.token_state.total_supply == balance_sum(book.accounts)
}

/// Whether `step` is carried out on `book`: its sender is one of the
/// accounts and the operation is defined.
pub open spec fn admitted(book: Book, step: Step) -> bool {
    &&& 0 <= step.account < book.accounts.len()
    &&& execute_defined(book.token_state, book.accounts[step.account], step.env, step.info, step.msg)
}

/// What `step` makes of `book`.
pub open spec fn attempt(book: Book, step: Step) -> Result<Outcome, ContractError> {
    execute_outcome(
        book.token_state,
        book.accounts[step.account],
        step.reserve_balance,
        step.env,
        step.info,
        step.msg,
    )
}

/// The contract after `step`.
pub open spec fn after(book: Book, step: Step) -> Book {
    if admitted(book, step) && attempt(book, step) is Ok {
        Book {
            token_state: attempt(book, step)->Ok_0.token_state,
            accounts: book.accounts.update(step.account, attempt(book, step)->Ok_0.user_state),
        }
    } else {
        book
    }
}

/// The contract after `steps`, one after the other.
pub open spec fn after_all(book: Book, steps: Seq<Step>) -> Book
    decreases steps.len(),
{
    if steps.len() == 0 {
        book
    } else {
        after(after_all(book, steps.drop_last()), steps.last())
    }
}

/// The balance does not exceed the principal, and the lock ends no later
/// than the longest lock from `now`.
pub open spec fn decay_bounded(user_state: UserState, now: u64) -> bool {
    &&& user_state.balance <= user_state.locked_balance
    &&& lock_seconds(user_state.locked_until, now) <= MAX_LOCK_PERIOD
}

/// Whether `msg` is served by recomputing the sender's balance.
pub open spec fn touches_account(msg: ExecuteMsg) -> bool {
    msg is Lock || msg is RequestWithdraw || msg is Withdraw || msg is Claim
}

proof fn lemma_sums_after_update(accounts: Seq<UserState>, index: int, account: UserState)
    requires
        0 <= index < accounts.len(),
    ensures
        locked_sum(accounts.update(index, account)) == locked_sum(accounts)
            - accounts[index].locked_balance + account.locked_balance,
        balance_sum(accounts.update(index, account)) == balance_sum(accounts)
            - accounts[index].balance + account.balance,
    decreases accounts.len(),
{
    let updated = accounts.update(index, account);
    if index == accounts.len() - 1 {
        assert(updated.drop_last() =~= accounts.drop_last());
    } else {
        lemma_sums_after_update(accounts.drop_last(), index, account);
        assert(updated.drop_last() =~= accounts.drop_last().update(index, account));
    }
}

/// A successful operation changes the total of the locked principal by
/// what it changes the sender's principal, and the supply by what it
/// changes the sender's balance.
pub proof fn lemma_totals_move_with_account(
    token_state: TokenState,
    user_state: UserState,
    reserve_balance: u128,
    env: Env,
    info: MessageInfo,
    msg: ExecuteMsg,
)
    requires
        execute_defined(token_state, user_state, env, info, msg),
        execute_outcome(token_state, user_state, reserve_balance, env, info, msg) is Ok,
    ensures
        ({
            let outcome = execute_outcome(token_state, user_state, reserve_balance, env, info, msg)->Ok_0;
            &&& outcome.token_state.total_locked - token_state.total_locked
                == outcome.user_state.locked_balance - user_state.locked_balance
            &&& outcome.token_state.total_supply - token_state.total_supply
                == outcome.user_state.balance - user_state.balance
        }),
{
}

/// Conservation, one request: where the totals are the sums over the
/// accounts before a request, they are after it.
pub proof fn lemma_step_conserves(book: Book, step: Step)
    requires
        conserved(book),
    ensures
        conserved(after(book, step)),
{
    if admitted(book, step) && attempt(book, step) is Ok {
        lemma_totals_move_with_account(
            book.token_state,
            book.accounts[step.account],
            step.reserve_balance,
            step.env,
            step.info,
            step.msg,
        );
        lemma_sums_after_update(book.accounts, step.account, attempt(book, step)->Ok_0.user_state);
    }
}

/// Conservation: where the totals are the sums over the accounts at the
/// start, they are after every sequence of requests.
pub proof fn lemma_conservation(book: Book, steps: Seq<Step>)
    requires
        conserved(book),
    ensures
        conserved(after_all(book, steps)),
    decreases steps.len(),
{
    if steps.len() > 0 {
        lemma_conservation(book, steps.drop_last());
        lemma_step_conserves(after_all(book, steps.drop_last()), steps.last());
    }
}

/// No request lowers the reward earned per unit.
pub proof fn lemma_step_accumulates(book: Book, step: Step)
    ensures
        after(book, step).token_state.reward_per_token >= book.token_state.reward_per_token,
{
}

/// Monotonic accumulator: the reward earned per unit never goes down,
/// whatever the sequence of requests.
pub proof fn lemma_accumulator_monotonic(book: Book, steps: Seq<Step>)
    ensures
        after_all(book, steps).token_state.reward_per_token >= book.token_state.reward_per_token,
    decreases steps.len(),
{
    if steps.len() > 0 {
        lemma_accumulator_monotonic(book, steps.drop_last());
        lemma_step_accumulates(after_all(book, steps.drop_last()), steps.last());
    }
}

/// No double accrual: after an accrual at a block nothing is pending at
/// that block, so a second accrual there changes nothing.
pub proof fn lemma_accrue_twice(token_state: TokenState, current_block: u64)
    requires
        token_state.accrue_defined(current_block),
    ensures
        token_state.accrued(current_block).pending_per_token(current_block) == 0,
        token_state.accrued(current_block).accrue_defined(current_block),
        token_state.accrued(current_block).accrued(current_block) == token_state.accrued(
            current_block,
        ),
{
    let once = token_state.accrued(current_block);
    let rate = once.rate_at(current_block) as int;
    let supply = once.total_supply as int;
    if supply != 0 {
        assert(rate * 0 / supply == 0) by (nonlinear_arith)
            requires
                supply > 0,
        ;
    }
}

/// Decay bound, at the moment of a request: a request that recomputes the
/// sender's balance leaves it at no more than the principal, and with any
/// principal at exactly the principal only where the lock runs for the
/// longest period from now.
pub proof fn lemma_decay_bound_on_touch(
    token_state: TokenState,
    user_state: UserState,
    reserve_balance: u128,
    env: Env,
    info: MessageInfo,
    msg: ExecuteMsg,
)
    requires
        execute_defined(token_state, user_state, env, info, msg),
        execute_outcome(token_state, user_state, reserve_balance, env, info, msg) is Ok,
        touches_account(msg),
        lock_seconds(user_state.locked_until, env.block_time) <= MAX_LOCK_PERIOD,
    ensures
        ({
            let account = execute_outcome(
                token_state,
                user_state,
                reserve_balance,
                env,
                info,
                msg,
            )->Ok_0.user_state;
            &&& decay_bounded(account, env.block_time)
            &&& account.locked_balance > 0 && account.balance == account.locked_balance
                ==> lock_seconds(account.locked_until, env.block_time) == MAX_LOCK_PERIOD
            &&& lock_seconds(account.locked_until, env.block_time) == 0 ==> account.balance == 0
        }),
{
    let account = execute_outcome(token_state, user_state, reserve_balance, env, info, msg)->Ok_0.user_state;
    lemma_decay_bound(account.locked_balance, account.locked_until, env.block_time);
    if msg is Lock {
        lemma_decay_bound(user_state.locked_balance, user_state.locked_until, env.block_time);
    }
}

/// Decay bound, kept: an account whose balance is within its principal and
/// whose lock is within the longest period stays so under every request,
/// and as time goes on.
pub proof fn lemma_decay_bound_kept(
    token_state: TokenState,
    user_state: UserState,
    reserve_balance: u128,
    env: Env,
    info: MessageInfo,
    msg: ExecuteMsg,
    later: u64,
)
    requires
        execute_defined(token_state, user_state, env, info, msg),
        execute_outcome(token_state, user_state, reserve_balance, env, info, msg) is Ok,
        decay_bounded(user_state, env.block_time),
        env.block_time <= later,
    ensures
        decay_bounded(
            execute_outcome(token_state, user_state, reserve_balance, env, info, msg)->Ok_0.user_state,
            later,
        ),
{
    if touches_account(msg) {
        lemma_decay_bound_on_touch(token_state, user_state, reserve_balance, env, info, msg);
    }
}

/// Every account of `book` has its balance within its principal and its
/// lock within the longest period from `now`.
pub open spec fn all_decay_bounded(book: Book, now: u64) -> bool {
    forall|i: int| 0 <= i < book.accounts.len() ==> decay_bounded(#[trigger] book.accounts[i], now)
}

/// The time of the last of `steps`, `start` where there is none.
pub open spec fn latest(steps: Seq<Step>, start: u64) -> u64 {
    if steps.len() == 0 {
        start
    } else {
        steps.last().env.block_time
    }
}

/// The times of `steps` never go back, from `start` on.
pub open spec fn in_order(steps: Seq<Step>, start: u64) -> bool
    decreases steps.len(),
{
    steps.len() == 0 || (in_order(steps.drop_last(), start) && latest(steps.drop_last(), start)
        <= steps.last().env.block_time)
}

/// Decay bound: where every balance is within its principal and every
/// lock within the longest period at the start, they are after every
/// sequence of requests whose times never go back.
pub proof fn lemma_decay_bound_always(book: Book, steps: Seq<Step>, start: u64)
    requires
        all_decay_bounded(book, start),
        in_order(steps, start),
    ensures
        all_decay_bounded(after_all(book, steps), latest(steps, start)),
        after_all(book, steps).accounts.len() == book.accounts.len(),
    decreases steps.len(),
{
    if steps.len() > 0 {
        let before = after_all(book, steps.drop_last());
        let step = steps.last();
        let now = step.env.block_time;
        lemma_decay_bound_always(book, steps.drop_last(), start);
        assert forall|i: int| 0 <= i < after(before, step).accounts.len() implies decay_bounded(
            #[trigger] after(before, step).accounts[i],
            now,
        ) by {
            assert(decay_bounded(before.accounts[i], latest(steps.drop_last(), start)));
            if admitted(before, step) && attempt(before, step) is Ok && i == step.account {
                lemma_decay_bound_kept(
                    before.token_state,
                    before.accounts[i],
                    step.reserve_balance,
                    step.env,
                    step.info,
                    step.msg,
                    now,
                );
            }
        }
    }
}

/// Reward fairness: two accounts with the same balance and the same
/// snapshot are due the same reward at every value of the accumulator, and
/// are paid the same by a claim in the same block.
pub proof fn lemma_reward_fairness(
    token_state: TokenState,
    first: UserState,
    second: UserState,
    reward_per_token: u128,
    env: Env,
)
    requires
        first.balance == second.balance,
        first.reward_snapshot == second.reward_snapshot,
    ensures
        first.reward_due(reward_per_token) == second.reward_due(reward_per_token),
        claim_amount(token_state, first, env) == claim_amount(token_state, second, env),
{
}

/// What `changes` add to the supply of the escrowed balance: what they
/// mint less what they burn.
pub open spec fn net_minted(changes: Seq<SupplyChange>) -> int
    decreases changes.len(),
{
    if changes.len() == 0 {
        0
    } else {
        net_minted(changes.drop_last()) + match changes.last() {
            SupplyChange::Mint { amount, .. } => amount as int,
            SupplyChange::Burn { amount, .. } => -(amount as int),
        }
    }
}

/// Whose holdings `change` is made to.
pub open spec fn holder(change: SupplyChange) -> String {
    match change {
        SupplyChange::Mint { to, .. } => to,
        SupplyChange::Burn { from, .. } => from,
    }
}

/// Whether `msg` is served with a check of the reserves at its end.
pub open spec fn checks_reserves(msg: ExecuteMsg) -> bool {
    msg is Lock || msg is Withdraw || msg is Claim || msg is AddIncome
}

proof fn lemma_net_minted_of_two(first: Seq<SupplyChange>, second: Seq<SupplyChange>)
    ensures
        net_minted(first + second) == net_minted(first) + net_minted(second),
    decreases second.len(),
{
    if second.len() == 0 {
        assert(first + second =~= first);
    } else {
        lemma_net_minted_of_two(first, second.drop_last());
        assert((first + second).drop_last() =~= first + second.drop_last());
    }
}

proof fn lemma_net_minted_of_one(changes: Seq<SupplyChange>)
    requires
        changes.len() <= 1,
    ensures
        changes.len() == 0 ==> net_minted(changes) == 0,
        changes.len() == 1 && changes[0] is Mint ==> net_minted(changes) == changes[0]->Mint_amount,
        changes.len() == 1 && changes[0] is Burn ==> net_minted(changes) == -changes[0]->Burn_amount,
{
    if changes.len() == 1 {
        assert(net_minted(changes.drop_last()) == 0);
        assert(changes.last() == changes[0]);
    }
}

/// The ledger follows the accounts: what a successful request tells the
/// ledger of the escrowed balance to mint, less what it tells it to burn,
/// is what the request adds to the sender's balance and to the supply; and
/// each of these changes is to the sender's holdings.
pub proof fn lemma_ledger_follows(
    token_state: TokenState,
    user_state: UserState,
    reserve_balance: u128,
    env: Env,
    info: MessageInfo,
    msg: ExecuteMsg,
)
    requires
        execute_defined(token_state, user_state, env, info, msg),
        execute_outcome(token_state, user_state, reserve_balance, env, info, msg) is Ok,
    ensures
        ({
            let outcome = execute_outcome(token_state, user_state, reserve_balance, env, info, msg)->Ok_0;
            &&& net_minted(outcome.effects.supply_changes) == outcome.user_state.balance
                - user_state.balance
            &&& net_minted(outcome.effects.supply_changes) == outcome.token_state.total_supply
                - token_state.total_supply
            &&& forall|i: int|
                0 <= i < outcome.effects.supply_changes.len() ==> holder(
                    #[trigger] outcome.effects.supply_changes[i],
                ) == info.sender
        }),
{
    let outcome = execute_outcome(token_state, user_state, reserve_balance, env, info, msg)->Ok_0;
    lemma_totals_move_with_account(token_state, user_state, reserve_balance, env, info, msg);
    let settled = claim_outcome(token_state, user_state, env, info);
    lemma_net_minted_of_one(settled.effects.supply_changes);
    match msg {
        ExecuteMsg::Lock { amount, new_locked_until } => {
            let relocked = update_lock_outcome(
                funded_token(settled, amount),
                funded_user(settled, amount),
                env,
                info.sender,
                new_locked_until,
            )->Ok_0;
            lemma_net_minted_of_one(relocked.effects.supply_changes);
            lemma_net_minted_of_two(
                settled.effects.supply_changes,
                relocked.effects.supply_changes,
            );
            assert(outcome.effects.supply_changes =~= settled.effects.supply_changes
                + relocked.effects.supply_changes);
        },
        ExecuteMsg::Withdraw => {
            let emptied = balance_outcome(
                released_token(settled),
                released_user(settled),
                info.sender,
                0,
            )->Ok_0;
            lemma_net_minted_of_one(emptied.effects.supply_changes);
            lemma_net_minted_of_two(settled.effects.supply_changes, emptied.effects.supply_changes);
            assert(outcome.effects.supply_changes =~= settled.effects.supply_changes
                + emptied.effects.supply_changes);
        },
        ExecuteMsg::RequestWithdraw => {
            assert(outcome.effects.supply_changes =~= settled.effects.supply_changes);
        },
        ExecuteMsg::Claim => {},
        ExecuteMsg::AddIncome { .. } => {
            assert(outcome.effects.supply_changes =~= Seq::<SupplyChange>::empty());
        },
        ExecuteMsg::SetDistributionPeriod { .. } => {},
    }
}

/// Solvency: a request that ends with a check of the reserves succeeds only
/// where the contract's holdings cover the locked principal and the income
/// that is not paid out yet, as they stand after the request.
pub proof fn lemma_success_means_solvent(
    token_state: TokenState,
    user_state: UserState,
    reserve_balance: u128,
    env: Env,
    info: MessageInfo,
    msg: ExecuteMsg,
)
    requires
        checks_reserves(msg),
        execute_outcome(token_state, user_state, reserve_balance, env, info, msg) is Ok,
    ensures
        reserves_cover(
            execute_outcome(token_state, user_state, reserve_balance, env, info, msg)->Ok_0.token_state,
            reserve_balance,
            env,
        ),
{
}

/// An account whose snapshot stands at the accumulator is due nothing, as
/// every account is right after a claim.
pub proof fn lemma_settled_is_due_nothing(user_state: UserState)
    ensures
        user_state.reward_due(user_state.reward_snapshot) == 0,
{
    let balance = user_state.balance as int;
    let scale = SCALE as int;
    assert(0 * balance / scale == 0) by (nonlinear_arith)
        requires
            scale > 0,
    ;
}

/// A distribution period that is positive stays so under every request.
pub proof fn lemma_period_stays_positive(book: Book, step: Step)
    requires
        book.token_state.distribution_period > 0,
    ensures
        after(book, step).token_state.distribution_period > 0,
{
}

/// Unvested carry: when the rate is set anew before the distribution
/// period is over, the new rate is the old rate times the blocks that
/// were left, plus the added income, divided by the new period.
pub proof fn lemma_unvested_carry(token_state: TokenState, input: UpdateRewardRateInput)
    requires
        token_state.last_income_block <= input.current_block,
        input.current_block - token_state.last_income_block < token_state.distribution_period,
        token_state.update_defined(input),
        input.current_block == token_state.last_accrue_block,
    ensures
        ({
            let rate = token_state.reward_rate_stored as int;
            let period = token_state.distribution_period as int;
            let elapsed = input.current_block - token_state.last_income_block;
            let new_period = input.new_distribution_period as int;
            token_state.renormalized(input).reward_rate_stored == (rate * (period - elapsed)
                + input.add_amount) / new_period
        }),
        token_state.renormalized(input).distribution_period == input.new_distribution_period,
        token_state.renormalized(input).last_income_block == input.current_block,
{
    let rate = token_state.reward_rate_stored as int;
    let left = token_state.distribution_period - (input.current_block
        - token_state.last_income_block);
    let total = rate * left + input.add_amount;
    let new_period = input.new_distribution_period as int;
    assert(rate * left >= 0) by (nonlinear_arith)
        requires
            rate >= 0,
            left >= 0,
    ;
    assert(0 <= total / new_period <= total) by (nonlinear_arith)
        requires
            0 <= total,
            new_period > 0,
    ;
}

} // verus!
