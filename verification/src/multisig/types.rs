use vstd::prelude::*;

use crate::common::{Address, TokenTransfer};

verus! {

/// What a proposal asks for.
#[derive(Clone, Copy, Debug, PartialEq, Eq)]
pub enum MultisigAction {
    /// Pay `amount` of the token from the vault to `to`.
    Release { to: Address, amount: i128 },
    /// Pay `amount` of the token from the vault back to `to`.
    Refund { to: Address, amount: i128 },
    /// Change the number of approvals a proposal needs.
    UpdateThreshold { new_threshold: u32 },
}

/// A proposal as kept in persistent storage under its id.
#[derive(Clone, Copy, Debug, PartialEq, Eq)]
pub struct Proposal {
    pub id: u32,
    pub action: MultisigAction,
    pub approvals_count: u32,
    pub executed: bool,
    pub created_at: u64,
}

/// The vault's configuration, kept in instance storage.
#[derive(Clone, Debug, PartialEq, Eq)]
pub struct MultisigConfig {
    pub signers: Vec<Address>,
    pub threshold: u32,
    pub token: Address,
}

/// Why a call on the vault was refused.
#[derive(Clone, Copy, Debug, PartialEq, Eq, Structural)]
pub enum MultisigError {
    AlreadyInitialized,
    NotInitialized,
    InvalidThreshold,
    NotSigner,
    ProposalNotFound,
    AlreadyApproved,
    AlreadyExecuted,
    ThresholdNotMet,
    InvalidAmount,
    SignersEmpty,
}

/// The contract error code of each error, as the contract reports it.
pub open spec fn multisig_error_code(e: MultisigError) -> u32 {
    match e {
        MultisigError::AlreadyInitialized => 1,
        MultisigError::NotInitialized => 2,
        MultisigError::InvalidThreshold => 3,
        MultisigError::NotSigner => 4,
        MultisigError::ProposalNotFound => 5,
        MultisigError::AlreadyApproved => 6,
        MultisigError::AlreadyExecuted => 7,
        MultisigError::ThresholdNotMet => 8,
        MultisigError::InvalidAmount => 9,
        MultisigError::SignersEmpty => 10,
    }
}

impl MultisigError {
    /// The contract error code of this error.
    pub fn code(&self) -> (c: u32)
        ensures
            c == multisig_error_code(*self),
    {
        match self {
            MultisigError::AlreadyInitialized => 1,
            MultisigError::NotInitialized => 2,
            MultisigError::InvalidThreshold => 3,
            MultisigError::NotSigner => 4,
            MultisigError::ProposalNotFound => 5,
            MultisigError::AlreadyApproved => 6,
            MultisigError::AlreadyExecuted => 7,
            MultisigError::ThresholdNotMet => 8,
            MultisigError::InvalidAmount => 9,
            MultisigError::SignersEmpty => 10,
        }
    }
}

/// An event that a call publishes.
#[derive(Clone, Copy, Debug, PartialEq, Eq)]
pub enum MultisigEvent {
    Initialized { threshold: u32, signers_count: u32 },
    ProposalCreated { proposal_id: u32, proposer: Address },
    Approved { proposal_id: u32, signer: Address },
    Executed { proposal_id: u32 },
}

/// The record that `signer` has approved proposal `proposal_id`.
#[derive(Clone, Copy, Debug, PartialEq, Eq)]
pub struct Approval {
    pub proposal_id: u32,
    pub signer: Address,
}

/// What a successful `initialize` does: the configuration and the proposal
/// count it stores, and its events.
pub struct MultisigSetup {
    pub config: MultisigConfig,
    pub proposal_count: u32,
    pub events: Vec<MultisigEvent>,
}

/// The mathematical content of a [`MultisigSetup`].
pub type MultisigSetupView = (MultisigConfig, u32, Seq<MultisigEvent>);

impl View for MultisigSetup {
    type V = MultisigSetupView;

    open spec fn view(&self) -> MultisigSetupView {
        (self.config, self.proposal_count, self.events@)
    }
}

/// What a later successful call does: the configuration, proposal count and
/// proposal it stores (each only if it writes one; the proposal under its
/// id), the approval it records (if any), the token transfers it makes and
/// the events it publishes, in order.
pub struct MultisigOutcome {
    pub config: Option<MultisigConfig>,
    pub proposal_count: Option<u32>,
    pub proposal: Option<Proposal>,
    pub approval: Option<Approval>,
    pub transfers: Vec<TokenTransfer>,
    pub events: Vec<MultisigEvent>,
}

/// The mathematical content of a [`MultisigOutcome`].
pub type MultisigTransition = (
    Option<MultisigConfig>,
    Option<u32>,
    Option<Proposal>,
    Option<Approval>,
    Seq<TokenTransfer>,
    Seq<MultisigEvent>,
);

impl View for MultisigOutcome {
    type V = MultisigTransition;

    open spec fn view(&self) -> MultisigTransition {
        (
            self.config,
            self.proposal_count,
            self.proposal,
            self.approval,
            self.transfers@,
            self.events@,
        )
    }
}

/// An `initialize` result, with the setup taken by its view.
pub open spec fn multisig_setup_result_view(r: Result<MultisigSetup, MultisigError>) -> Result<
    MultisigSetupView,
    MultisigError,
> {
    match r {
        Ok(s) => Ok(s@),
        Err(e) => Err(e),
    }
}

/// A call's result, with the outcome taken by its view.
pub open spec fn multisig_result_view(r: Result<MultisigOutcome, MultisigError>) -> Result<
    MultisigTransition,
    MultisigError,
> {
    match r {
        Ok(o) => Ok(o@),
        Err(e) => Err(e),
    }
}

/// The multisig vault contract. Its state is the configuration and proposal
/// count in instance storage and the proposals and approvals in persistent
/// storage; each method takes what a call reads and returns what it writes.
pub struct MultisigEscrowContract;

} // verus!
