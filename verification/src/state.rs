//! The two records the contract keeps, and the arithmetic of the reward
//! stream: a global accumulator of reward per unit of escrowed balance, fed
//! by a rate that is active for one distribution period after each income.
//!
//! All amounts are unsigned integers in the token's smallest unit and every
//! division rounds down. An operation is defined where none of its
//! intermediate values leaves the range of its type; each has a predicate
//! that says so, and asks nothing more of its caller.

use crate::consts::SCALE;
use crate::error::ContractError;
use crate::events::ContractEvent;
use crate::response::{Effects, Response};
use vstd::prelude::*;

verus! {

/// The single record shared by all accounts.
#[derive(Debug, PartialEq)]
pub struct TokenState {
    /// Sum of the escrowed balances of all accounts.
    pub total_supply: u128,
    /// Sum of the locked principal of all accounts.
    pub total_locked: u128,
    /// Number of blocks over which an income is streamed out.
    pub distribution_period: u64,
    /// Address of the contract of the token that is locked and paid out.
    pub locked_token: String,
    /// Block of the last accrual.
    pub last_accrue_block: u64,
    /// Block at which the reward rate was last set.
    pub last_income_block: u64,
    /// Reward earned so far by one whole unit of escrowed balance.
    pub reward_per_token: u128,
    /// Reward streamed per block while the distribution period lasts.
    pub reward_rate_stored: u128,
}

/// A request to set the reward rate anew.
#[derive(Clone, Copy, Debug, PartialEq, Eq)]
pub struct UpdateRewardRateInput {
    /// Income to add to what is still unpaid.
    pub add_amount: u128,
    pub new_distribution_period: u64,
    pub current_block: u64,
}

impl Clone for TokenState {
    fn clone(&self) -> (copy: Self)
        ensures
            copy == *self,
    {
        TokenState {
            total_supply: self.total_supply,
            total_locked: self.total_locked,
            distribution_period: self.distribution_period,
            locked_token: self.locked_token.clone(),
            last_accrue_block: self.last_accrue_block,
            last_income_block: self.last_income_block,
            reward_per_token: self.reward_per_token,
            reward_rate_stored: self.reward_rate_stored,
        }
    }
}

impl TokenState {
    /// The rate in force at `current_block`: the stored rate until one
    /// distribution period has passed since the last income, nothing after.
    pub open spec fn rate_at(self, current_block: u64) -> u128 {
        if current_block - self.last_income_block < self.distribution_period {
            self.reward_rate_stored
        } else {
            0
        }
    }

    /// Reward that one whole unit of escrowed balance has earned between the
    /// last accrual and `current_block`: the reward of those blocks divided
    /// by the supply, rounded down, in units of `SCALE`.
    pub open spec fn pending_per_token(self, current_block: u64) -> int {
        if self.total_supply == 0 {
            0
        } else {
            (self.rate_at(current_block) * (current_block - self.last_accrue_block)
                / (self.total_supply as int)) * SCALE
        }
    }

    /// Where `pending_per_token` stays within range: with a supply, neither
    /// checkpoint lies after `current_block`, and neither product overflows.
    pub open spec fn pending_defined(self, current_block: u64) -> bool {
        self.total_supply != 0 ==> {
            &&& self.last_accrue_block <= current_block
            &&& self.last_income_block <= current_block
            &&& self.rate_at(current_block) * (current_block - self.last_accrue_block) <= u128::MAX
            &&& self.pending_per_token(current_block) <= u128::MAX
        }
    }

    /// Where `accrue` stays within range: what is pending does, and the
    /// accumulator can take it.
    pub open spec fn accrue_defined(self, current_block: u64) -> bool {
        &&& self.pending_defined(current_block)
        &&& self.reward_per_token + self.pending_per_token(current_block) <= u128::MAX
    }

    /// The state after an accrual at `current_block`.
    pub open spec fn accrued(self, current_block: u64) -> TokenState {
        TokenState {
            reward_per_token: (self.reward_per_token + self.pending_per_token(current_block)) as u128,
            last_accrue_block: current_block,
            ..self
        }
    }

    /// Income of the running stream that is not paid out yet at
    /// `current_block`: the stored rate times the blocks that are left of the
    /// distribution period.
    pub open spec fn unvested_income(self, current_block: u64) -> int {
        self.reward_rate_stored * (self.distribution_period - vstd::math::min(
            self.distribution_period as int,
            current_block - self.last_income_block,
        ))
    }

    /// Where `update_reward_rate` stays within range. A request at another
    /// block than that of the last accrual is refused before anything is
    /// computed, so nothing is asked of it.
    pub open spec fn update_defined(self, input: UpdateRewardRateInput) -> bool {
        input.current_block == self.last_accrue_block ==> {
            &&& self.last_income_block <= input.current_block
            &&& self.unvested_income(input.current_block) + input.add_amount <= u128::MAX
            &&& input.new_distribution_period != 0
        }
    }

    /// The state after the rate has been set anew: what was unpaid and what
    /// was added, spread evenly over the new period, which starts now.
    pub open spec fn renormalized(self, input: UpdateRewardRateInput) -> TokenState {
        TokenState {
            reward_rate_stored: ((self.unvested_income(input.current_block) + input.add_amount)
                / (input.new_distribution_period as int)) as u128,
            distribution_period: input.new_distribution_period,
            last_income_block: input.current_block,
            ..self
        }
    }

    /// The request that `set_distribution_period` makes of `update_reward_rate`.
    pub open spec fn period_request(
        current_block: u64,
        new_distribution_period: u64,
    ) -> UpdateRewardRateInput {
        UpdateRewardRateInput { add_amount: 0, new_distribution_period, current_block }
    }

    /// Where `set_distribution_period` stays within range. A period of zero
    /// is refused before anything is computed.
    pub open spec fn period_change_defined(
        self,
        current_block: u64,
        new_distribution_period: u64,
    ) -> bool {
        new_distribution_period != 0 ==> {
            &&& self.accrue_defined(current_block)
            &&& self.accrued(current_block).update_defined(
                Self::period_request(current_block, new_distribution_period),
            )
        }
    }

    /// The state after an accrual at `current_block` and a change of the
    /// distribution period at the same block.
    pub open spec fn with_period(
        self,
        current_block: u64,
        new_distribution_period: u64,
    ) -> TokenState {
        self.accrued(current_block).renormalized(
            Self::period_request(current_block, new_distribution_period),
        )
    }

    /// What a successful change of the distribution period reports.
    pub open spec fn period_effects(new_distribution_period: u64) -> Effects {
        Effects::event(ContractEvent::NewDistributionPeriod { value: new_distribution_period })
    }

    /// A state with nothing locked, nothing earned and no token named.
    pub fn default() -> (state: Self)
        ensures
            state.total_supply == 0,
            state.total_locked == 0,
            state.distribution_period == 0,
            state.locked_token@ == Seq::<char>::empty(),
            state.last_accrue_block == 0,
            state.last_income_block == 0,
            state.reward_per_token == 0,
            state.reward_rate_stored == 0,
    {
        TokenState {
            total_supply: 0,
            total_locked: 0,
            distribution_period: 0,
            locked_token: String::new(),
            last_accrue_block: 0,
            last_income_block: 0,
            reward_per_token: 0,
            reward_rate_stored: 0,
        }
    }

    /// Accrues at `current_block`, then spreads what is still unpaid over
    /// `new_distribution_period` blocks from now. A period of zero is refused.
    pub fn set_distribution_period(
        &mut self,
        current_block: u64,
        new_distribution_period: u64,
    ) -> (res: Result<Response, ContractError>)
        requires
            old(self).period_change_defined(current_block, new_distribution_period),
        ensures
            new_distribution_period == 0 ==> res == Err::<Response, ContractError>(
                ContractError::ZeroDistributionPeriod,
            ) && *final(self) == *old(self),
            new_distribution_period != 0 ==> res is Ok && res->Ok_0@ == Self::period_effects(
                new_distribution_period,
            ) && *final(self) == old(self).with_period(current_block, new_distribution_period),
    {
        if new_distribution_period == 0 {
            return Err(ContractError::ZeroDistributionPeriod);
        }
        self.accrue(current_block)?;
        self.update_reward_rate(
            UpdateRewardRateInput { add_amount: 0, new_distribution_period, current_block },
        )?;
        let mut response = Response::new();
        response.events.push(ContractEvent::make_new_distribution_period(new_distribution_period));
        assert(response@ =~~= Self::period_effects(new_distribution_period));
        Ok(response)
    }

    /// Adds to the accumulator what one unit has earned since the last
    /// accrual and moves the accrual checkpoint to `current_block`. A second
    /// accrual at the same block adds nothing.
    pub fn accrue(&mut self, current_block: u64) -> (res: Result<(), ContractError>)
        requires
            old(self).accrue_defined(current_block),
        ensures
            res is Ok,
            *final(self) == old(self).accrued(current_block),
            final(self).reward_per_token >= old(self).reward_per_token,
    {
        let pending: u128 = self.pending_reward_per_token(current_block);
        self.reward_per_token = self.reward_per_token + pending;
        self.last_accrue_block = current_block;
        Ok(())
    }

    /// Reward that one whole unit of escrowed balance has earned since the
    /// last accrual, nothing where there is no supply.
    pub fn pending_reward_per_token(&self, current_block: u64) -> (pending: u128)
        requires
            self.pending_defined(current_block),
        ensures
            pending == self.pending_per_token(current_block),
    {
        if self.total_supply == 0 {
            return 0;
        }
        let blocks_since_last_accrue: u128 = (current_block - self.last_accrue_block) as u128;
        let reward_per_token: u128 = (self.reward_rate(current_block) * blocks_since_last_accrue)
            / self.total_supply;
        reward_per_token * SCALE
    }

    /// Sets the rate so that the income not yet paid out plus `add_amount` is
    /// streamed over the new period from this block on, and returns the
    /// income that was not yet paid out. Refused unless an accrual has been
    /// made at this very block, so that no block is counted at two rates.
    pub fn update_reward_rate(
        &mut self,
        input: UpdateRewardRateInput,
    ) -> (res: Result<u128, ContractError>)
        requires
            old(self).update_defined(input),
        ensures
            input.current_block != old(self).last_accrue_block ==> res == Err::<u128, ContractError>(
                ContractError::AccrueFirst,
            ) && *final(self) == *old(self),
            input.current_block == old(self).last_accrue_block ==> res == Ok::<u128, ContractError>(
                old(self).unvested_income(input.current_block) as u128,
            ) && *final(self) == old(self).renormalized(input),
    {
        if input.current_block != self.last_accrue_block {
            return Err(ContractError::AccrueFirst);
        }
        let unvested_income: u128 = self.remaining_income(input.current_block);
        let new_distribution_period: u128 = input.new_distribution_period as u128;
        self.reward_rate_stored = (unvested_income + input.add_amount) / new_distribution_period;
        self.distribution_period = input.new_distribution_period;
        self.last_income_block = input.current_block;
        Ok(unvested_income)
    }

    /// Whether an accrual at `current_block` stays within range.
    pub fn can_accrue(&self, current_block: u64) -> (ok: bool)
        ensures
            ok == self.accrue_defined(current_block),
    {
        if self.total_supply == 0 {
            return true;
        }
        if current_block < self.last_accrue_block || current_block < self.last_income_block {
            return false;
        }
        let blocks_since_last_accrue: u128 = (current_block - self.last_accrue_block) as u128;
        match self.reward_rate(current_block).checked_mul(blocks_since_last_accrue) {
            None => false,
            Some(streamed) => match (streamed / self.total_supply).checked_mul(SCALE) {
                None => false,
                Some(pending) => self.reward_per_token.checked_add(pending).is_some(),
            },
        }
    }

    /// Whether `update_reward_rate` stays within range on `input`.
    pub fn can_update_reward_rate(&self, input: UpdateRewardRateInput) -> (ok: bool)
        ensures
            ok == self.update_defined(input),
    {
        if input.current_block != self.last_accrue_block {
            return true;
        }
        if input.current_block < self.last_income_block {
            return false;
        }
        match self.checked_remaining_income(input.current_block) {
            None => false,
            Some(unvested) => unvested.checked_add(input.add_amount).is_some()
                && input.new_distribution_period != 0,
        }
    }

    /// Whether `set_distribution_period` stays within range.
    pub fn can_set_distribution_period(
        &self,
        current_block: u64,
        new_distribution_period: u64,
    ) -> (ok: bool)
        ensures
            ok == self.period_change_defined(current_block, new_distribution_period),
    {
        if new_distribution_period == 0 {
            return true;
        }
        if !self.can_accrue(current_block) {
            return false;
        }
        let mut accrued = self.clone();
        let _ = accrued.accrue(current_block);
        accrued.can_update_reward_rate(
            UpdateRewardRateInput { add_amount: 0, new_distribution_period, current_block },
        )
    }

    /// Blocks of the distribution period that are still to come at
    /// `current_block`.
    fn blocks_left(&self, current_block: u64) -> (blocks: u64)
        requires
            self.last_income_block <= current_block,
        ensures
            self.reward_rate_stored * blocks == self.unvested_income(current_block),
            blocks <= self.distribution_period,
    {
        let since_income: u64 = current_block - self.last_income_block;
        let blocks_elapsed: u64 = if self.distribution_period < since_income {
            self.distribution_period
        } else {
            since_income
        };
        self.distribution_period - blocks_elapsed
    }

    /// Income of the running stream that is not paid out yet at
    /// `current_block`, or nothing where that amount is out of range.
    pub fn checked_remaining_income(&self, current_block: u64) -> (unvested: Option<u128>)
        requires
            self.last_income_block <= current_block,
        ensures
            self.unvested_income(current_block) <= u128::MAX ==> unvested == Some(
                self.unvested_income(current_block) as u128,
            ),
            self.unvested_income(current_block) > u128::MAX ==> unvested is None,
    {
        self.reward_rate_stored.checked_mul(self.blocks_left(current_block) as u128)
    }

    /// Income of the running stream that is not paid out yet at
    /// `current_block`.
    pub fn remaining_income(&self, current_block: u64) -> (unvested: u128)
        requires
            self.last_income_block <= current_block,
            self.unvested_income(current_block) <= u128::MAX,
        ensures
            unvested == self.unvested_income(current_block),
    {
        self.reward_rate_stored * (self.blocks_left(current_block) as u128)
    }

    /// The rate in force at `current_block`.
    pub fn reward_rate(&self, current_block: u64) -> (rate: u128)
        requires
            self.last_income_block <= current_block,
        ensures
            rate == self.rate_at(current_block),
    {
        let blocks_elapsed: u64 = current_block - self.last_income_block;
        if blocks_elapsed < self.distribution_period {
            self.reward_rate_stored
        } else {
            0
        }
    }
}

/// The record of one account.
#[derive(Clone, Copy, Debug, PartialEq, Eq)]
pub struct UserState {
    /// Escrowed balance: the weight with which the account earns reward.
    pub balance: u128,
    /// Principal locked by the account.
    pub locked_balance: u128,
    /// Time, in seconds, from which the principal can be unlocked.
    pub locked_until: u64,
    /// Value of the accumulator when the account last claimed.
    pub reward_snapshot: u128,
    /// Time from which a requested withdrawal can be made; zero where none
    /// is requested.
    pub withdraw_at: u64,
}

impl UserState {
    /// Reward the account can claim when the accumulator stands at
    /// `reward_per_token`: the growth since its snapshot times its balance.
    pub open spec fn reward_due(self, reward_per_token: u128) -> int {
        (reward_per_token - self.reward_snapshot) * self.balance / (SCALE as int)
    }

    /// Where `reward_due` stays within range: the snapshot does not lie
    /// above the accumulator and the product does not overflow.
    pub open spec fn reward_defined(self, reward_per_token: u128) -> bool {
        &&& self.reward_snapshot <= reward_per_token
        &&& (reward_per_token - self.reward_snapshot) * self.balance <= u128::MAX
    }

    /// The record of an account that has never locked anything.
    pub fn default() -> (state: Self)
        ensures
            state == (UserState {
                balance: 0,
                locked_balance: 0,
                locked_until: 0,
                reward_snapshot: 0,
                withdraw_at: 0,
            }),
    {
        UserState { balance: 0, locked_balance: 0, locked_until: 0, reward_snapshot: 0, withdraw_at: 0 }
    }

    /// Whether the reward due at `reward_per_token` stays within range.
    pub fn can_settle(&self, reward_per_token: u128) -> (ok: bool)
        ensures
            ok == self.reward_defined(reward_per_token),
    {
        if reward_per_token < self.reward_snapshot {
            return false;
        }
        (reward_per_token - self.reward_snapshot).checked_mul(self.balance).is_some()
    }

    /// Reward the account can claim when the accumulator stands at
    /// `pending_reward_per_token`.
    pub fn pending_reward(&self, pending_reward_per_token: u128) -> (reward: u128)
        requires
            self.reward_defined(pending_reward_per_token),
        ensures
            reward == self.reward_due(pending_reward_per_token),
    {
        let reward_per_token_delta: u128 = pending_reward_per_token - self.reward_snapshot;
        let pending_reward: u128 = reward_per_token_delta * self.balance;
        pending_reward / SCALE
    }
}

} // verus!
