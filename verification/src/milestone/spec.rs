use vstd::prelude::*;

use crate::common::{Address, Hash32, TokenTransfer};
use crate::milestone::types::{
    Milestone, MilestoneError, MilestoneEscrow, MilestoneEvent, MilestoneInit, MilestoneSetupView,
    MilestoneStatus, MilestoneTransition,
};

verus! {

/// The sum of the amounts of the given milestones.
pub open spec fn sum_amounts(inits: Seq<MilestoneInit>) -> int
    decreases inits.len(),
{
    if inits.len() == 0 {
        0
    } else {
        sum_amounts(inits.drop_last()) + inits.last().amount
    }
}

/// Every given milestone has a positive amount.
pub open spec fn all_positive(inits: Seq<MilestoneInit>) -> bool {
    forall|i: int| 0 <= i < inits.len() ==> #[trigger] inits[i].amount > 0
}

/// With positive amounts, a prefix never sums to more than the whole.
pub proof fn lemma_prefix_sum_bounded(inits: Seq<MilestoneInit>, k: int)
    requires
        all_positive(inits),
        0 <= k <= inits.len(),
    ensures
        sum_amounts(inits.take(k)) <= sum_amounts(inits),
    decreases inits.len(),
{
    if k < inits.len() {
        let shorter = inits.drop_last();
        assert(all_positive(shorter)) by {
            assert forall|i: int| 0 <= i < shorter.len() implies #[trigger] shorter[i].amount > 0 by {
                assert(shorter[i] == inits[i]);
            }
        }
        lemma_prefix_sum_bounded(shorter, k);
        assert(shorter.take(k) =~= inits.take(k));
        assert(inits[inits.len() - 1].amount > 0);
    } else {
        assert(inits.take(k) =~= inits);
    }
}

/// No two of the given milestones share an id.
pub open spec fn ids_distinct(inits: Seq<MilestoneInit>) -> bool {
    forall|i: int, j: int|
        #![trigger inits[i], inits[j]]
        0 <= i < j < inits.len() ==> inits[i].id != inits[j].id
}

/// A new milestone, pending, as `initialize` stores it.
pub open spec fn pending_milestone(m: MilestoneInit) -> Milestone {
    Milestone {
        id: m.id,
        description_hash: m.description_hash,
        amount: m.amount,
        status: MilestoneStatus::Pending,
        proof_hash: None,
        submitted_at: 0,
        approved_at: 0,
    }
}

/// `initialize`: set up the agreement once, with at least one milestone,
/// every amount positive, the total within `i128`, and no two milestones
/// sharing an id.
pub open spec fn initialize_spec(
    configured: bool,
    client: Address,
    contractor: Address,
    arbiter: Option<Address>,
    token: Address,
    inits: Seq<MilestoneInit>,
) -> Result<MilestoneSetupView, MilestoneError> {
    if configured {
        Err(MilestoneError::AlreadyInitialized)
    } else if inits.len() == 0 {
        Err(MilestoneError::InvalidMilestoneCount)
    } else if !all_positive(inits) || sum_amounts(inits) > i128::MAX {
        Err(MilestoneError::AmountMismatch)
    } else if !ids_distinct(inits) {
        Err(MilestoneError::DuplicateMilestone)
    } else {
        Ok(
            (
                MilestoneEscrow {
                    client,
                    contractor,
                    arbiter,
                    token,
                    total_amount: sum_amounts(inits) as i128,
                    released_amount: 0,
                    is_funded: false,
                    milestone_count: inits.len() as u32,
                },
                inits.map_values(|m: MilestoneInit| pending_milestone(m)),
                seq![
                    MilestoneEvent::Initialized {
                        client,
                        contractor,
                        total_amount: sum_amounts(inits) as i128,
                        count: inits.len() as u32,
                    },
                ],
            ),
        )
    }
}

/// `who` is the agreement's arbiter.
pub open spec fn is_arbiter(c: MilestoneEscrow, who: Address) -> bool {
    c.arbiter == Some(who)
}

/// `deposit`: `caller` pays the total into an agreement not yet funded.
pub open spec fn deposit_spec(stored: Option<MilestoneEscrow>, caller: Address) -> Result<
    MilestoneTransition,
    MilestoneError,
> {
    match stored {
        None => Err(MilestoneError::NotInitialized),
        Some(c) => if c.is_funded {
            Err(MilestoneError::AlreadyFunded)
        } else {
            Ok(
                (
                    Some(MilestoneEscrow { is_funded: true, ..c }),
                    None,
                    seq![TokenTransfer::Inbound { from: caller, amount: c.total_amount }],
                    Seq::empty(),
                ),
            )
        },
    }
}

/// `submit_milestone`: the contractor submits a proof for a pending
/// milestone of a funded agreement, at ledger time `now`.
pub open spec fn submit_milestone_spec(
    stored: Option<MilestoneEscrow>,
    milestone: Option<Milestone>,
    caller: Address,
    milestone_id: u32,
    proof_hash: Hash32,
    now: u64,
) -> Result<MilestoneTransition, MilestoneError> {
    match stored {
        None => Err(MilestoneError::NotInitialized),
        Some(c) => if !c.is_funded {
            Err(MilestoneError::NotFunded)
        } else if caller != c.contractor {
            Err(MilestoneError::Unauthorized)
        } else {
            match milestone {
                None => Err(MilestoneError::MilestoneNotFound),
                Some(m) => if m.status != MilestoneStatus::Pending {
                    Err(MilestoneError::InvalidMilestoneStatus)
                } else {
                    Ok(
                        (
                            None,
                            Some(
                                Milestone {
                                    status: MilestoneStatus::Submitted,
                                    proof_hash: Some(proof_hash),
                                    submitted_at: now,
                                    ..m
                                },
                            ),
                            Seq::empty(),
                            seq![MilestoneEvent::Submitted { milestone_id, proof_hash }],
                        ),
                    )
                },
            }
        },
    }
}

/// The payout of a milestone is reached and the released total overflows
/// `i128`: the contract traps.
pub open spec fn release_overflows(c: MilestoneEscrow, m: Milestone) -> bool {
    !(i128::MIN <= c.released_amount + m.amount <= i128::MAX)
}

/// `approve_and_release` reaches its payout and overflows.
pub open spec fn approval_overflows(
    stored: Option<MilestoneEscrow>,
    milestone: Option<Milestone>,
    caller: Address,
) -> bool {
    &&& stored matches Some(c)
    &&& c.is_funded
    &&& (caller == c.client || is_arbiter(c, caller))
    &&& milestone matches Some(m)
    &&& m.status == MilestoneStatus::Submitted
    &&& release_overflows(c, m)
}

/// `approve_and_release`: the client or the arbiter approves a submitted
/// milestone of a funded agreement, and its amount goes to the contractor.
pub open spec fn approve_and_release_spec(
    stored: Option<MilestoneEscrow>,
    milestone: Option<Milestone>,
    caller: Address,
    milestone_id: u32,
    now: u64,
) -> Result<MilestoneTransition, MilestoneError> {
    match stored {
        None => Err(MilestoneError::NotInitialized),
        Some(c) => if !c.is_funded {
            Err(MilestoneError::NotFunded)
        } else if caller != c.client && !is_arbiter(c, caller) {
            Err(MilestoneError::Unauthorized)
        } else {
            match milestone {
                None => Err(MilestoneError::MilestoneNotFound),
                Some(m) => if m.status != MilestoneStatus::Submitted {
                    Err(MilestoneError::InvalidMilestoneStatus)
                } else {
                    Ok(
                        (
                            Some(
                                MilestoneEscrow {
                                    released_amount: (c.released_amount + m.amount) as i128,
                                    ..c
                                },
                            ),
                            Some(
                                Milestone {
                                    status: MilestoneStatus::Released,
                                    approved_at: now,
                                    ..m
                                },
                            ),
                            seq![TokenTransfer::Outbound { to: c.contractor, amount: m.amount }],
                            seq![
                                MilestoneEvent::Approved { milestone_id, by: caller },
                                MilestoneEvent::Released {
                                    milestone_id,
                                    to: c.contractor,
                                    amount: m.amount,
                                },
                            ],
                        ),
                    )
                },
            }
        },
    }
}

/// `dispute_milestone`: the client or the contractor disputes a submitted
/// milestone of a funded agreement that has an arbiter.
pub open spec fn dispute_milestone_spec(
    stored: Option<MilestoneEscrow>,
    milestone: Option<Milestone>,
    caller: Address,
    milestone_id: u32,
) -> Result<MilestoneTransition, MilestoneError> {
    match stored {
        None => Err(MilestoneError::NotInitialized),
        Some(c) => if !c.is_funded {
            Err(MilestoneError::NotFunded)
        } else if c.arbiter is None {
            Err(MilestoneError::ArbiterRequired)
        } else if caller != c.client && caller != c.contractor {
            Err(MilestoneError::Unauthorized)
        } else {
            match milestone {
                None => Err(MilestoneError::MilestoneNotFound),
                Some(m) => if m.status != MilestoneStatus::Submitted {
                    Err(MilestoneError::InvalidMilestoneStatus)
                } else {
                    Ok(
                        (
                            None,
                            Some(Milestone { status: MilestoneStatus::Disputed, ..m }),
                            Seq::empty(),
                            seq![MilestoneEvent::Disputed { milestone_id, by: caller }],
                        ),
                    )
                },
            }
        },
    }
}

/// `resolve_milestone` reaches a payout to the contractor and overflows.
pub open spec fn resolution_overflows(
    stored: Option<MilestoneEscrow>,
    milestone: Option<Milestone>,
    caller: Address,
    release_to_contractor: bool,
) -> bool {
    &&& stored matches Some(c)
    &&& is_arbiter(c, caller)
    &&& milestone matches Some(m)
    &&& m.status == MilestoneStatus::Disputed
    &&& release_to_contractor
    &&& release_overflows(c, m)
}

/// `resolve_milestone`: the arbiter settles a disputed milestone, paying its
/// amount to the contractor or back to the client.
pub open spec fn resolve_milestone_spec(
    stored: Option<MilestoneEscrow>,
    milestone: Option<Milestone>,
    caller: Address,
    milestone_id: u32,
    release_to_contractor: bool,
) -> Result<MilestoneTransition, MilestoneError> {
    match stored {
        None => Err(MilestoneError::NotInitialized),
        Some(c) => if !is_arbiter(c, caller) {
            Err(MilestoneError::Unauthorized)
        } else {
            match milestone {
                None => Err(MilestoneError::MilestoneNotFound),
                Some(m) => if m.status != MilestoneStatus::Disputed {
                    Err(MilestoneError::InvalidMilestoneStatus)
                } else if release_to_contractor {
                    Ok(
                        (
                            Some(
                                MilestoneEscrow {
                                    released_amount: (c.released_amount + m.amount) as i128,
                                    ..c
                                },
                            ),
                            Some(Milestone { status: MilestoneStatus::Released, ..m }),
                            seq![TokenTransfer::Outbound { to: c.contractor, amount: m.amount }],
                            seq![MilestoneEvent::Resolved { milestone_id, approved: true }],
                        ),
                    )
                } else {
                    Ok(
                        (
                            Some(c),
                            Some(Milestone { status: MilestoneStatus::Cancelled, ..m }),
                            seq![TokenTransfer::Outbound { to: c.client, amount: m.amount }],
                            seq![MilestoneEvent::Resolved { milestone_id, approved: false }],
                        ),
                    )
                },
            }
        },
    }
}

/// A state-changing call on a set-up agreement, with its arguments.
pub enum MilestoneCall {
    Deposit { caller: Address },
    Submit { caller: Address, milestone_id: u32, proof_hash: Hash32 },
    ApproveAndRelease { caller: Address, milestone_id: u32 },
    Dispute { caller: Address, milestone_id: u32 },
    Resolve { caller: Address, milestone_id: u32, release_to_contractor: bool },
}

/// What a call does, given the stored agreement and the milestone stored
/// under the called id, at ledger time `now`.
pub open spec fn milestone_call_spec(
    stored: Option<MilestoneEscrow>,
    milestone: Option<Milestone>,
    call: MilestoneCall,
    now: u64,
) -> Result<MilestoneTransition, MilestoneError> {
    match call {
        MilestoneCall::Deposit { caller } => deposit_spec(stored, caller),
        MilestoneCall::Submit { caller, milestone_id, proof_hash } => submit_milestone_spec(
            stored,
            milestone,
            caller,
            milestone_id,
            proof_hash,
            now,
        ),
        MilestoneCall::ApproveAndRelease { caller, milestone_id } => approve_and_release_spec(
            stored,
            milestone,
            caller,
            milestone_id,
            now,
        ),
        MilestoneCall::Dispute { caller, milestone_id } => dispute_milestone_spec(
            stored,
            milestone,
            caller,
            milestone_id,
        ),
        MilestoneCall::Resolve { caller, milestone_id, release_to_contractor } =>
            resolve_milestone_spec(stored, milestone, caller, milestone_id, release_to_contractor),
    }
}

} // verus!
