//! The requests the contract accepts and the answers to its queries.

use crate::state::{TokenState, UserState};
use vstd::prelude::*;

verus! {

/// The request that creates the contract.
#[derive(Clone, Debug, PartialEq)]
pub struct InstantiateMsg {
    /// Address of the contract of the token to be locked.
    pub locked_token: String,
    pub distribution_period: u64,
}

/// A request that changes the contract's state.
#[derive(Clone, Debug, PartialEq)]
pub enum ExecuteMsg {
    /// Lock `amount` more, which may be nothing, until `new_locked_until`.
    Lock { amount: u128, new_locked_until: u64 },
    RequestWithdraw,
    Withdraw,
    Claim,
    AddIncome { add_amount: u128 },
    SetDistributionPeriod { blocks: u64 },
}

/// A request that only reads.
#[derive(Clone, Debug, PartialEq)]
pub enum QueryMsg {
    /// The escrowed balance of an address, nothing where it has none.
    Balance { address: String },
    /// Name, decimals and supply of the escrowed balance.
    TokenInfo {},
    RewardRate {},
    PendingAccountReward { address: String },
    UserInfo { address: String },
    VeTokenInfo {},
}

#[derive(Clone, Copy, Debug, PartialEq, Eq)]
pub struct RewardRateResponse {
    pub reward_rate: u128,
}

#[derive(Clone, Copy, Debug, PartialEq, Eq)]
pub struct PendingAccountRewardResponse {
    pub pending_account_reward: u128,
}

/// The global record as it is shown to the public: without the supply,
/// which the ledger of the escrowed balance reports, and without the rate.
#[derive(Clone, Debug, PartialEq)]
pub struct VeTokenInfoResponse {
    pub total_locked: u128,
    pub distribution_period: u64,
    pub locked_token: String,
    pub last_accrue_block: u64,
    pub last_income_block: u64,
    pub reward_per_token: u128,
}

impl VeTokenInfoResponse {
    pub fn from_token_state(token_state: TokenState) -> (response: Self)
        ensures
            response == (VeTokenInfoResponse {
                total_locked: token_state.total_locked,
                distribution_period: token_state.distribution_period,
                locked_token: token_state.locked_token,
                last_accrue_block: token_state.last_accrue_block,
                last_income_block: token_state.last_income_block,
                reward_per_token: token_state.reward_per_token,
            }),
    {
        VeTokenInfoResponse {
            total_locked: token_state.total_locked,
            distribution_period: token_state.distribution_period,
            locked_token: token_state.locked_token,
            last_accrue_block: token_state.last_accrue_block,
            last_income_block: token_state.last_income_block,
            reward_per_token: token_state.reward_per_token,
        }
    }
}

/// The record of an account as it is shown to the public: without its
/// balance, which the ledger of the escrowed balance reports.
#[derive(Clone, Copy, Debug, PartialEq, Eq)]
pub struct UserInfoResponse {
    pub locked_balance: u128,
    pub locked_until: u64,
    pub reward_snapshot: u128,
    pub withdraw_at: u64,
}

impl UserInfoResponse {
    pub fn from_user_state(user_state: UserState) -> (response: Self)
        ensures
            response == (UserInfoResponse {
                locked_balance: user_state.locked_balance,
                locked_until: user_state.locked_until,
                reward_snapshot: user_state.reward_snapshot,
                withdraw_at: user_state.withdraw_at,
            }),
    {
        UserInfoResponse {
            locked_balance: user_state.locked_balance,
            locked_until: user_state.locked_until,
            reward_snapshot: user_state.reward_snapshot,
            withdraw_at: user_state.withdraw_at,
        }
    }
}

/// The answer to a greeting: nothing but that the contract is there.
#[derive(Clone, Copy, Debug, PartialEq, Eq)]
pub struct GreetResp {}

} // verus!
