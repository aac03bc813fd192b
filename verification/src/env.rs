//! What the host tells an operation about the call it is serving.

use vstd::prelude::*;

verus! {

/// The block in which the operation runs and the contract's own address.
/// Height and time never decrease from one operation to the next.
#[derive(Clone, Debug, PartialEq)]
pub struct Env {
    /// Index of the block: the clock of the reward stream.
    pub block_height: u64,
    /// Time of the block in seconds: the clock of locks and withdrawals.
    pub block_time: u64,
    pub contract_address: String,
}

/// Who asked for the operation.
#[derive(Clone, Debug, PartialEq)]
pub struct MessageInfo {
    pub sender: String,
}

} // verus!
