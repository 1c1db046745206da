//! The M-of-N multisig vault: signers propose token releases, refunds or a
//! new threshold, and a proposal is carried out once enough signers have
//! approved it.

pub mod behaviour;
pub mod contract;
pub mod laws;
pub mod spec;
pub mod types;
