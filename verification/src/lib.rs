//! Accounting core of a vote-escrow token.
//!
//! Participants lock a base token until a chosen time and receive a balance
//! that decays linearly as the unlock time approaches. Income paid into the
//! contract is streamed to the holders of that balance over a distribution
//! period. Every operation is a function of the stored state, the block the
//! host supplies and the caller's request; what has to happen on the token
//! ledgers is returned as instructions for the host to carry out.
//!
//! - [`state`]: the global record and the record of an account, with the
//!   arithmetic of accrual and of the reward rate.
//! - [`internal`]: the steps shared by the entry points: claim, decay of
//!   the balance, reconciliation of the supply, the reserve check.
//! - [`contract`]: the entry points, one for each request.
//! - [`laws`]: what holds of every sequence of requests.
//! - [`response`], [`events`], [`msg`], [`env`], [`error`], [`consts`]: the
//!   values that go in and out.
//! - [`cw20_client`]: the messages to the locked token in the form in which
//!   they are sent.

pub mod consts;
pub mod contract;
pub mod cw20_client;
pub mod env;
pub mod error;
pub mod events;
pub mod internal;
pub mod laws;
pub mod msg;
pub mod response;
pub mod state;
