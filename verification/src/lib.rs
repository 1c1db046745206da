//! Verified decision logic of three Soroban escrow contracts: a two-party
//! escrow with an optional arbiter and a refund deadline, a milestone escrow,
//! and an M-of-N multisig vault.
//!
//! Each contract call is a function from the values that the call reads out of
//! contract storage (and from its arguments) to either an error, or the values
//! it writes back, the token transfers it makes and the events it publishes.

pub mod common;
pub mod escrow_core;
pub mod milestone;
pub mod multisig;
