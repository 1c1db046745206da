//! The two-party escrow: an initiator funds it, and the funds go to the
//! beneficiary on release, back to the initiator on refund, or are split by
//! the arbiter after a dispute.

pub mod behaviour;
pub mod contract;
pub mod laws;
pub mod spec;
pub mod types;
