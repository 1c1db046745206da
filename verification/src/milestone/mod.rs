//! The milestone escrow: a client funds the whole agreement up front, and
//! each milestone is paid to the contractor once its deliverable is submitted
//! and approved, or settled by the arbiter after a dispute.

pub mod behaviour;
pub mod contract;
pub mod laws;
pub mod spec;
pub mod types;
