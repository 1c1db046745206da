use vstd::prelude::*;

use crate::common::{Address, Hash32, TokenTransfer};

verus! {

/// Where an escrow stands in its life.
#[derive(Clone, Copy, Debug, PartialEq, Eq, Structural)]
pub enum EscrowStatus {
    Created,
    Funded,
    Completed,
    Refunded,
    Disputed,
}

/// The escrow record kept in the contract's instance storage.
#[derive(Clone, Copy, Debug, PartialEq, Eq)]
pub struct Escrow {
    pub id: u64,
    pub initiator: Address,
    pub beneficiary: Address,
    pub arbiter: Option<Address>,
    pub token: Address,
    pub amount: i128,
    pub funded_amount: i128,
    pub deadline: u64,
    pub status: EscrowStatus,
    pub created_at: u64,
    pub engagement_id: Hash32,
}

/// Why a call on the escrow was refused.
#[derive(Clone, Copy, Debug, PartialEq, Eq, Structural)]
pub enum EscrowError {
    AlreadyInitialized,
    NotInitialized,
    InvalidAmount,
    InvalidDeadline,
    InvalidStatus,
    Unauthorized,
    DeadlineNotReached,
    DeadlinePassed,
    EscrowAlreadyFunded,
    EscrowNotFunded,
    ArbiterRequired,
    DisputeResolutionMismatch,
}

/// The contract error code of each error, as the contract reports it.
pub open spec fn escrow_error_code(e: EscrowError) -> u32 {
    match e {
        EscrowError::AlreadyInitialized => 1,
        EscrowError::NotInitialized => 2,
        EscrowError::InvalidAmount => 3,
        EscrowError::InvalidDeadline => 4,
        EscrowError::InvalidStatus => 5,
        EscrowError::Unauthorized => 6,
        EscrowError::DeadlineNotReached => 7,
        EscrowError::DeadlinePassed => 8,
        EscrowError::EscrowAlreadyFunded => 9,
        EscrowError::EscrowNotFunded => 10,
        EscrowError::ArbiterRequired => 11,
        EscrowError::DisputeResolutionMismatch => 12,
    }
}

impl EscrowError {
    /// The contract error code of this error.
    pub fn code(&self) -> (c: u32)
        ensures
            c == escrow_error_code(*self),
    {
        match self {
            EscrowError::AlreadyInitialized => 1,
            EscrowError::NotInitialized => 2,
            EscrowError::InvalidAmount => 3,
            EscrowError::InvalidDeadline => 4,
            EscrowError::InvalidStatus => 5,
            EscrowError::Unauthorized => 6,
            EscrowError::DeadlineNotReached => 7,
            EscrowError::DeadlinePassed => 8,
            EscrowError::EscrowAlreadyFunded => 9,
            EscrowError::EscrowNotFunded => 10,
            EscrowError::ArbiterRequired => 11,
            EscrowError::DisputeResolutionMismatch => 12,
        }
    }
}

/// An event that a call publishes.
#[derive(Clone, Copy, Debug, PartialEq, Eq)]
pub enum EscrowEvent {
    Initialized { id: u64, initiator: Address, beneficiary: Address, amount: i128 },
    Deposited { id: u64, from: Address, amount: i128 },
    Released { id: u64, to: Address, amount: i128 },
    Refunded { id: u64, to: Address, amount: i128 },
    Disputed { id: u64, by: Address },
    DisputeResolved { id: u64, beneficiary_amount: i128, initiator_amount: i128 },
}

/// What a successful call does: the escrow record it stores, the token
/// transfers it makes (in order) and the events it publishes (in order).
pub struct EscrowOutcome {
    pub escrow: Escrow,
    pub transfers: Vec<TokenTransfer>,
    pub events: Vec<EscrowEvent>,
}

/// The mathematical content of an [`EscrowOutcome`].
pub type EscrowTransition = (Escrow, Seq<TokenTransfer>, Seq<EscrowEvent>);

impl View for EscrowOutcome {
    type V = EscrowTransition;

    open spec fn view(&self) -> EscrowTransition {
        (self.escrow, self.transfers@, self.events@)
    }
}

/// A call's result, with the outcome taken by its view.
pub open spec fn escrow_result_view(r: Result<EscrowOutcome, EscrowError>) -> Result<
    EscrowTransition,
    EscrowError,
> {
    match r {
        Ok(o) => Ok(o@),
        Err(e) => Err(e),
    }
}

/// The escrow contract. Its state is the escrow record in storage; each
/// method takes what a call reads and returns what it writes.
pub struct EscrowContract;

} // verus!
