use vstd::prelude::*;

use crate::common::{Address, Hash32, TokenTransfer};

verus! {

/// Where a milestone stands.
#[derive(Clone, Copy, Debug, PartialEq, Eq, Structural)]
pub enum MilestoneStatus {
    Pending,
    Submitted,
    Approved,
    Released,
    Disputed,
    Cancelled,
}

/// A milestone as kept in persistent storage under its id.
#[derive(Clone, Copy, Debug, PartialEq, Eq)]
pub struct Milestone {
    pub id: u32,
    pub description_hash: Hash32,
    pub amount: i128,
    pub status: MilestoneStatus,
    pub proof_hash: Option<Hash32>,
    pub submitted_at: u64,
    pub approved_at: u64,
}

/// A milestone as given to `initialize`.
#[derive(Clone, Copy, Debug, PartialEq, Eq)]
pub struct MilestoneInit {
    pub id: u32,
    pub description_hash: Hash32,
    pub amount: i128,
}

/// The agreement as kept in instance storage.
#[derive(Clone, Copy, Debug, PartialEq, Eq)]
pub struct MilestoneEscrow {
    pub client: Address,
    pub contractor: Address,
    pub arbiter: Option<Address>,
    pub token: Address,
    pub total_amount: i128,
    pub released_amount: i128,
    pub is_funded: bool,
    pub milestone_count: u32,
}

/// Why a call on the milestone escrow was refused.
#[derive(Clone, Copy, Debug, PartialEq, Eq, Structural)]
pub enum MilestoneError {
    AlreadyInitialized,
    NotInitialized,
    InvalidMilestoneCount,
    AmountMismatch,
    NotFunded,
    AlreadyFunded,
    MilestoneNotFound,
    InvalidMilestoneStatus,
    Unauthorized,
    ArbiterRequired,
    AllMilestonesProcessed,
    DuplicateMilestone,
}

/// The contract error code of each error, as the contract reports it.
pub open spec fn milestone_error_code(e: MilestoneError) -> u32 {
    match e {
        MilestoneError::AlreadyInitialized => 1,
        MilestoneError::NotInitialized => 2,
        MilestoneError::InvalidMilestoneCount => 3,
        MilestoneError::AmountMismatch => 4,
        MilestoneError::NotFunded => 5,
        MilestoneError::AlreadyFunded => 6,
        MilestoneError::MilestoneNotFound => 7,
        MilestoneError::InvalidMilestoneStatus => 8,
        MilestoneError::Unauthorized => 9,
        MilestoneError::ArbiterRequired => 10,
        MilestoneError::AllMilestonesProcessed => 11,
        MilestoneError::DuplicateMilestone => 12,
    }
}

impl MilestoneError {
    /// The contract error code of this error.
    pub fn code(&self) -> (c: u32)
        ensures
            c == milestone_error_code(*self),
    {
        match self {
            MilestoneError::AlreadyInitialized => 1,
            MilestoneError::NotInitialized => 2,
            MilestoneError::InvalidMilestoneCount => 3,
            MilestoneError::AmountMismatch => 4,
            MilestoneError::NotFunded => 5,
            MilestoneError::AlreadyFunded => 6,
            MilestoneError::MilestoneNotFound => 7,
            MilestoneError::InvalidMilestoneStatus => 8,
            MilestoneError::Unauthorized => 9,
            MilestoneError::ArbiterRequired => 10,
            MilestoneError::AllMilestonesProcessed => 11,
            MilestoneError::DuplicateMilestone => 12,
        }
    }
}

/// An event that a call publishes.
#[derive(Clone, Copy, Debug, PartialEq, Eq)]
pub enum MilestoneEvent {
    Initialized { client: Address, contractor: Address, total_amount: i128, count: u32 },
    Submitted { milestone_id: u32, proof_hash: Hash32 },
    Approved { milestone_id: u32, by: Address },
    Released { milestone_id: u32, to: Address, amount: i128 },
    Disputed { milestone_id: u32, by: Address },
    Resolved { milestone_id: u32, approved: bool },
}

/// What a successful `initialize` does: the agreement it stores, the
/// milestones it stores (each under its own id; no two share one) and its
/// events.
pub struct MilestoneSetup {
    pub config: MilestoneEscrow,
    pub milestones: Vec<Milestone>,
    pub events: Vec<MilestoneEvent>,
}

/// The mathematical content of a [`MilestoneSetup`].
pub type MilestoneSetupView = (MilestoneEscrow, Seq<Milestone>, Seq<MilestoneEvent>);

impl View for MilestoneSetup {
    type V = MilestoneSetupView;

    open spec fn view(&self) -> MilestoneSetupView {
        (self.config, self.milestones@, self.events@)
    }
}

/// What a later successful call does: the agreement it stores (if it writes
/// one), the milestone it stores under the called id (if it writes one), the
/// token transfers it makes and the events it publishes, in order.
pub struct MilestoneOutcome {
    pub config: Option<MilestoneEscrow>,
    pub milestone: Option<Milestone>,
    pub transfers: Vec<TokenTransfer>,
    pub events: Vec<MilestoneEvent>,
}

/// The mathematical content of a [`MilestoneOutcome`].
pub type MilestoneTransition = (
    Option<MilestoneEscrow>,
    Option<Milestone>,
    Seq<TokenTransfer>,
    Seq<MilestoneEvent>,
);

impl View for MilestoneOutcome {
    type V = MilestoneTransition;

    open spec fn view(&self) -> MilestoneTransition {
        (self.config, self.milestone, self.transfers@, self.events@)
    }
}

/// An `initialize` result, with the setup taken by its view.
pub open spec fn setup_result_view(r: Result<MilestoneSetup, MilestoneError>) -> Result<
    MilestoneSetupView,
    MilestoneError,
> {
    match r {
        Ok(s) => Ok(s@),
        Err(e) => Err(e),
    }
}

/// A call's result, with the outcome taken by its view.
pub open spec fn milestone_result_view(r: Result<MilestoneOutcome, MilestoneError>) -> Result<
    MilestoneTransition,
    MilestoneError,
> {
    match r {
        Ok(o) => Ok(o@),
        Err(e) => Err(e),
    }
}

/// The milestone escrow contract. Its state is the agreement in instance
/// storage and the milestones in persistent storage; each method takes what
/// a call reads and returns what it writes.
pub struct MilestoneEscrowContract;

} // verus!
