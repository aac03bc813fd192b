//! The failures an operation can report.

use cosmwasm_std::StdError;
use vstd::prelude::*;
use vstd::string::StringExecFns;

verus! {

/// `cosmwasm_std::StdError`, the host library's error. It is carried
/// through as it comes; nothing is known of what it holds.
#[verifier::external_type_specification]
#[verifier::external_body]
pub struct ExStdError(StdError);

/// Why an operation was refused. A refused operation leaves every state it
/// was given as it found it.
#[derive(Debug, PartialEq)]
pub enum ContractError {
    /// A failure reported by the host library, carried through unchanged.
    Std(StdError),
    /// The reward rate was about to change without an accrual at this block.
    AccrueFirst,
    /// A balance was about to change while reward was still unclaimed.
    ClaimFirst,
    ZeroDistributionPeriod,
    /// The contract holds less of the locked token than it owes.
    InsufficientReserves,
    Unauthorized,
    LockPeriodTooLong,
    CannotReduceLockedTime,
    LockPeriodTooShort,
    NothingToWithdraw,
    WithdrawBeforeUnlock,
    WithdrawDelayNotOver,
    Unimplemented,
    /// A failure reported by the ledger of the escrowed balance, as text.
    CW20BaseError(String),
}

impl ContractError {
    /// The text of every variant but `Std`, whose text is the host library's.
    pub open spec fn text(self) -> Seq<char> {
        match self {
            ContractError::Std(_) => Seq::empty(),
            ContractError::AccrueFirst => "VeToken: accrue first"@,
            ContractError::ClaimFirst => "VeToken: claim first"@,
            ContractError::ZeroDistributionPeriod => "VeToken: distribution period must be >= 100 blocks"@,
            ContractError::InsufficientReserves => "VeToken: reserve balance too low"@,
            ContractError::Unauthorized => "Unauthorized"@,
            ContractError::LockPeriodTooLong => "VeToken: lock time too long"@,
            ContractError::CannotReduceLockedTime => "VeToken: cannot reduce locked time"@,
            ContractError::LockPeriodTooShort => "VeToken: lock time too short"@,
            ContractError::NothingToWithdraw => "VeToken: nothing to withdraw"@,
            ContractError::WithdrawBeforeUnlock => "VeToken: cannot withdraw before unlock"@,
            ContractError::WithdrawDelayNotOver => "VeToken: withdraw delay not over"@,
            ContractError::Unimplemented => "Unimplemented"@,
            ContractError::CW20BaseError(text) => text@,
        }
    }

    /// The error as a line of text for the caller.
    pub fn message(&self) -> (text: String)
        ensures
            !(self is Std) ==> text@ == self.text(),
    {
        match self {
            ContractError::Std(error) => error.to_string(),
            ContractError::AccrueFirst => String::from_str("VeToken: accrue first"),
            ContractError::ClaimFirst => String::from_str("VeToken: claim first"),
            ContractError::ZeroDistributionPeriod => String::from_str(
                "VeToken: distribution period must be >= 100 blocks",
            ),
            ContractError::InsufficientReserves => String::from_str(
                "VeToken: reserve balance too low",
            ),
            ContractError::Unauthorized => String::from_str("Unauthorized"),
            ContractError::LockPeriodTooLong => String::from_str("VeToken: lock time too long"),
            ContractError::CannotReduceLockedTime => String::from_str(
                "VeToken: cannot reduce locked time",
            ),
            ContractError::LockPeriodTooShort => String::from_str("VeToken: lock time too short"),
            ContractError::NothingToWithdraw => String::from_str("VeToken: nothing to withdraw"),
            ContractError::WithdrawBeforeUnlock => String::from_str(
                "VeToken: cannot withdraw before unlock",
            ),
            ContractError::WithdrawDelayNotOver => String::from_str(
                "VeToken: withdraw delay not over",
            ),
            ContractError::Unimplemented => String::from_str("Unimplemented"),
            ContractError::CW20BaseError(text) => text.clone(),
        }
    }
}

} // verus!
