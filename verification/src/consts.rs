//! Policy constants of the token.

use vstd::prelude::*;

verus! {

pub const SECONDS_PER_DAY: u64 = 24 * 60 * 60;

/// Shortest admissible lock, in seconds.
pub const MIN_LOCK_PERIOD: u64 = 7 * SECONDS_PER_DAY;

/// Longest admissible lock, in seconds. A lock of this length is worth its
/// whole principal in escrowed balance.
pub const MAX_LOCK_PERIOD: u64 = 1460 * SECONDS_PER_DAY;

/// Seconds between a withdrawal request and the withdrawal itself.
pub const WITHDRAW_DELAY: u64 = 1 * SECONDS_PER_DAY;

pub const TOKEN_NAME: &'static str = "veWILD";

pub const TOKEN_SYMBOL: &'static str = "veWILD";

pub const TOKEN_DECIMALS: u8 = 18;

/// One whole token in its smallest unit: ten to the power `TOKEN_DECIMALS`.
pub const SCALE: u128 = 1_000_000_000_000_000_000;

/// The amount of `amount` whole tokens in the smallest unit.
pub fn apply_decimals(amount: u128) -> (scaled: u128)
    requires
        amount * SCALE <= u128::MAX,
    ensures
        scaled == amount * SCALE,
{
    amount * SCALE
}

} // verus!
