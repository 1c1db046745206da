//! What each milestone call does, stated call by call in terms of its
//! inputs: when it succeeds, and what it then stores, pays and publishes.

use vstd::prelude::*;

use crate::common::{Address, Hash32, TokenTransfer};
use crate::milestone::spec::{
    approve_and_release_spec, deposit_spec, dispute_milestone_spec, initialize_spec,
    lemma_prefix_sum_bounded, pending_milestone, resolve_milestone_spec, submit_milestone_spec,
    sum_amounts,
};
use crate::milestone::types::{
    milestone_error_code, Milestone, MilestoneError, MilestoneEscrow, MilestoneEvent, MilestoneInit, MilestoneStatus,
};

verus! {

/// `initialize` succeeds exactly on a fresh contract given at least one
/// milestone, all amounts positive with a total within `i128`, and no id
/// given twice. It then stores the parties and token with that total,
/// nothing released or funded and the count of milestones, and stores each
/// given milestone, in order, pending with its own id, description and
/// amount.
pub proof fn milestone_initialize_law(
    configured: bool,
    client: Address,
    contractor: Address,
    arbiter: Option<Address>,
    token: Address,
    inits: Seq<MilestoneInit>,
)
    requires
        inits.len() <= u32::MAX,
    ensures
        ({
            let r = initialize_spec(configured, client, contractor, arbiter, token, inits);
            &&& r is Ok <==> !configured && inits.len() > 0 && (forall|i: int|
                0 <= i < inits.len() ==> #[trigger] inits[i].amount > 0) && sum_amounts(inits)
                <= i128::MAX && (forall|i: int, j: int|
                #![trigger inits[i], inits[j]]
                0 <= i < j < inits.len() ==> inits[i].id != inits[j].id)
            &&& configured ==> (r matches Err(MilestoneError::AlreadyInitialized))
            &&& (!configured && inits.len() == 0) ==> (r matches Err(
                MilestoneError::InvalidMilestoneCount,
            ))
            &&& r matches Ok(t) ==> {
                &&& t.0.client == client && t.0.contractor == contractor
                &&& t.0.arbiter == arbiter && t.0.token == token
                &&& t.0.total_amount == sum_amounts(inits) && t.0.released_amount == 0
                &&& !t.0.is_funded && t.0.milestone_count == inits.len()
                &&& t.1.len() == inits.len()
                &&& forall|i: int|
                    0 <= i < inits.len() ==> {
                        &&& (#[trigger] t.1[i]).id == inits[i].id
                        &&& t.1[i].description_hash == inits[i].description_hash
                        &&& t.1[i].amount == inits[i].amount
                        &&& t.1[i].status == MilestoneStatus::Pending
                        &&& t.1[i].proof_hash is None
                    }
            }
        }),
{
    if let Ok(t) = initialize_spec(configured, client, contractor, arbiter, token, inits) {
        lemma_prefix_sum_bounded(inits, 0);
        assert(inits.take(0) =~= Seq::<MilestoneInit>::empty());
        assert forall|i: int| 0 <= i < inits.len() implies {
            &&& (#[trigger] t.1[i]).id == inits[i].id
            &&& t.1[i].description_hash == inits[i].description_hash
            &&& t.1[i].amount == inits[i].amount
            &&& t.1[i].status == MilestoneStatus::Pending
            &&& t.1[i].proof_hash is None
        } by {
            assert(t.1[i] == pending_milestone(inits[i]));
        }
    }
}

/// Every call after `initialize` on a contract that holds no agreement
/// answers `NotInitialized`.
pub proof fn milestone_calls_need_initialization(
    milestone: Option<Milestone>,
    caller: Address,
    milestone_id: u32,
    proof_hash: Hash32,
    now: u64,
    release_to_contractor: bool,
)
    ensures
        deposit_spec(None, caller) matches Err(MilestoneError::NotInitialized),
        submit_milestone_spec(None, milestone, caller, milestone_id, proof_hash, now) matches Err(
            MilestoneError::NotInitialized,
        ),
        approve_and_release_spec(None, milestone, caller, milestone_id, now) matches Err(
            MilestoneError::NotInitialized,
        ),
        dispute_milestone_spec(None, milestone, caller, milestone_id) matches Err(
            MilestoneError::NotInitialized,
        ),
        resolve_milestone_spec(None, milestone, caller, milestone_id, release_to_contractor)
            matches Err(MilestoneError::NotInitialized),
{
}

/// `deposit` succeeds exactly on an agreement not yet funded; it then
/// draws the agreement's total from the caller (and nobody else) into the
/// contract and marks the agreement funded, changing nothing else.
pub proof fn milestone_deposit_law(c: MilestoneEscrow, caller: Address)
    ensures
        deposit_spec(Some(c), caller) is Ok <==> !c.is_funded,
        deposit_spec(Some(c), caller) matches Ok(t) ==> {
            &&& t.2 == seq![TokenTransfer::Inbound { from: caller, amount: c.total_amount }]
            &&& t.0 == Some(MilestoneEscrow { is_funded: true, ..c })
            &&& t.1 is None
            &&& t.3.len() == 0
        },
{
}

/// `submit_milestone` succeeds exactly when the contractor submits a
/// pending milestone of a funded agreement; it then records the proof and
/// the ledger time on that milestone, now submitted, and moves no tokens.
pub proof fn milestone_submit_law(
    c: MilestoneEscrow,
    m: Milestone,
    caller: Address,
    milestone_id: u32,
    proof_hash: Hash32,
    now: u64,
)
    ensures
        submit_milestone_spec(Some(c), Some(m), caller, milestone_id, proof_hash, now) is Ok
            <==> c.is_funded && caller == c.contractor && m.status == MilestoneStatus::Pending,
        submit_milestone_spec(Some(c), Some(m), caller, milestone_id, proof_hash, now) matches Ok(
            t,
        ) ==> {
            &&& t.1 == Some(
                Milestone {
                    status: MilestoneStatus::Submitted,
                    proof_hash: Some(proof_hash),
                    submitted_at: now,
                    ..m
                },
            )
            &&& t.0 is None
            &&& t.2.len() == 0
            &&& t.3 == seq![MilestoneEvent::Submitted { milestone_id, proof_hash }]
        },
{
}

/// `approve_and_release` succeeds exactly when the client or the arbiter
/// approves a submitted milestone of a funded agreement; it then pays the
/// milestone's amount to the contractor, marks the milestone released at
/// the ledger time, and adds its amount to the released total.
pub proof fn milestone_approve_law(
    c: MilestoneEscrow,
    m: Milestone,
    caller: Address,
    milestone_id: u32,
    now: u64,
)
    ensures
        approve_and_release_spec(Some(c), Some(m), caller, milestone_id, now) is Ok <==> c.is_funded
            && (caller == c.client || c.arbiter == Some(caller)) && m.status
            == MilestoneStatus::Submitted,
        approve_and_release_spec(Some(c), Some(m), caller, milestone_id, now) matches Ok(t) ==> {
            &&& t.2 == seq![TokenTransfer::Outbound { to: c.contractor, amount: m.amount }]
            &&& t.1 == Some(
                Milestone { status: MilestoneStatus::Released, approved_at: now, ..m },
            )
            &&& t.0 matches Some(c2)
            &&& (c.released_amount + m.amount <= i128::MAX && c.released_amount + m.amount
                >= i128::MIN) ==> c2 == MilestoneEscrow {
                released_amount: (c.released_amount + m.amount) as i128,
                ..c
            }
            &&& t.3 == seq![
                MilestoneEvent::Approved { milestone_id, by: caller },
                MilestoneEvent::Released { milestone_id, to: c.contractor, amount: m.amount },
            ]
        },
{
}

/// `dispute_milestone` succeeds exactly when the client or the contractor
/// disputes a submitted milestone of a funded agreement with an arbiter; it
/// then marks the milestone disputed and moves no tokens.
pub proof fn milestone_dispute_law(
    c: MilestoneEscrow,
    m: Milestone,
    caller: Address,
    milestone_id: u32,
)
    ensures
        dispute_milestone_spec(Some(c), Some(m), caller, milestone_id) is Ok <==> c.is_funded
            && c.arbiter is Some && (caller == c.client || caller == c.contractor) && m.status
            == MilestoneStatus::Submitted,
        dispute_milestone_spec(Some(c), Some(m), caller, milestone_id) matches Ok(t) ==> {
            &&& t.1 == Some(Milestone { status: MilestoneStatus::Disputed, ..m })
            &&& t.0 is None
            &&& t.2.len() == 0
            &&& t.3 == seq![MilestoneEvent::Disputed { milestone_id, by: caller }]
        },
{
}

/// `resolve_milestone` succeeds exactly when the arbiter settles a disputed
/// milestone. Released to the contractor, the amount goes to the contractor,
/// the milestone is released and its amount added to the released total;
/// otherwise the amount goes back to the client, the milestone is cancelled
/// and the released total is unchanged.
pub proof fn milestone_resolve_law(
    c: MilestoneEscrow,
    m: Milestone,
    caller: Address,
    milestone_id: u32,
    release_to_contractor: bool,
)
    ensures
        resolve_milestone_spec(Some(c), Some(m), caller, milestone_id, release_to_contractor) is Ok
            <==> c.arbiter == Some(caller) && m.status == MilestoneStatus::Disputed,
        resolve_milestone_spec(Some(c), Some(m), caller, milestone_id, release_to_contractor)
            matches Ok(t) ==> {
            &&& t.3 == seq![
                MilestoneEvent::Resolved { milestone_id, approved: release_to_contractor },
            ]
            &&& release_to_contractor ==> {
                &&& t.2 == seq![TokenTransfer::Outbound { to: c.contractor, amount: m.amount }]
                &&& t.1 == Some(Milestone { status: MilestoneStatus::Released, ..m })
                &&& t.0 matches Some(c2)
                &&& (c.released_amount + m.amount <= i128::MAX && c.released_amount + m.amount
                    >= i128::MIN) ==> c2 == MilestoneEscrow {
                    released_amount: (c.released_amount + m.amount) as i128,
                    ..c
                }
            }
            &&& !release_to_contractor ==> {
                &&& t.2 == seq![TokenTransfer::Outbound { to: c.client, amount: m.amount }]
                &&& t.1 == Some(Milestone { status: MilestoneStatus::Cancelled, ..m })
                &&& t.0 == Some(c)
            }
        },
{
}

/// Why `initialize` is refused: an agreement is stored already, or else no
/// milestone is given, or else an amount is not positive or the total
/// overflows, or else two milestones share an id.
pub proof fn milestone_initialize_refusals(
    configured: bool,
    client: Address,
    contractor: Address,
    arbiter: Option<Address>,
    token: Address,
    inits: Seq<MilestoneInit>,
)
    ensures
        initialize_spec(configured, client, contractor, arbiter, token, inits) matches Err(err)
            ==> err == if configured {
            MilestoneError::AlreadyInitialized
        } else if inits.len() == 0 {
            MilestoneError::InvalidMilestoneCount
        } else if (exists|i: int| 0 <= i < inits.len() && #[trigger] inits[i].amount <= 0)
            || sum_amounts(inits) > i128::MAX {
            MilestoneError::AmountMismatch
        } else {
            MilestoneError::DuplicateMilestone
        },
{
}

/// Why each later call is refused, given a stored agreement and the
/// milestone stored under the called id (if any). `deposit`: the agreement
/// is funded already. `submit_milestone`: it is not funded, or else the
/// caller is not the contractor, or else there is no such milestone, or
/// else it is not pending. `approve_and_release`: not funded, or else the
/// caller is neither client nor arbiter, or else no milestone, or else it is
/// not submitted. `dispute_milestone`: not funded, or else no arbiter, or
/// else the caller is neither client nor contractor, or else no milestone,
/// or else it is not submitted. `resolve_milestone`: the caller is not the
/// arbiter, or else no milestone, or else it is not disputed.
pub proof fn milestone_refusals(
    c: MilestoneEscrow,
    milestone: Option<Milestone>,
    caller: Address,
    milestone_id: u32,
    proof_hash: Hash32,
    now: u64,
    release_to_contractor: bool,
)
    ensures
        deposit_spec(Some(c), caller) matches Err(err) ==> err == MilestoneError::AlreadyFunded,
        submit_milestone_spec(Some(c), milestone, caller, milestone_id, proof_hash, now) matches Err(
            err,
        ) ==> err == if !c.is_funded {
            MilestoneError::NotFunded
        } else if caller != c.contractor {
            MilestoneError::Unauthorized
        } else if milestone is None {
            MilestoneError::MilestoneNotFound
        } else {
            MilestoneError::InvalidMilestoneStatus
        },
        approve_and_release_spec(Some(c), milestone, caller, milestone_id, now) matches Err(err)
            ==> err == if !c.is_funded {
            MilestoneError::NotFunded
        } else if caller != c.client && c.arbiter != Some(caller) {
            MilestoneError::Unauthorized
        } else if milestone is None {
            MilestoneError::MilestoneNotFound
        } else {
            MilestoneError::InvalidMilestoneStatus
        },
        dispute_milestone_spec(Some(c), milestone, caller, milestone_id) matches Err(err) ==> err
            == if !c.is_funded {
            MilestoneError::NotFunded
        } else if c.arbiter is None {
            MilestoneError::ArbiterRequired
        } else if caller != c.client && caller != c.contractor {
            MilestoneError::Unauthorized
        } else if milestone is None {
            MilestoneError::MilestoneNotFound
        } else {
            MilestoneError::InvalidMilestoneStatus
        },
        resolve_milestone_spec(Some(c), milestone, caller, milestone_id, release_to_contractor)
            matches Err(err) ==> err == if c.arbiter != Some(caller) {
            MilestoneError::Unauthorized
        } else if milestone is None {
            MilestoneError::MilestoneNotFound
        } else {
            MilestoneError::InvalidMilestoneStatus
        },
{
}

/// The contract error codes, one per error, from 1 to 12 in this order:
/// AlreadyInitialized, NotInitialized, InvalidMilestoneCount,
/// AmountMismatch, NotFunded, AlreadyFunded, MilestoneNotFound,
/// InvalidMilestoneStatus, Unauthorized, ArbiterRequired,
/// AllMilestonesProcessed, DuplicateMilestone.
pub proof fn milestone_error_codes()
    ensures
        milestone_error_code(MilestoneError::AlreadyInitialized) == 1,
        milestone_error_code(MilestoneError::NotInitialized) == 2,
        milestone_error_code(MilestoneError::InvalidMilestoneCount) == 3,
        milestone_error_code(MilestoneError::AmountMismatch) == 4,
        milestone_error_code(MilestoneError::NotFunded) == 5,
        milestone_error_code(MilestoneError::AlreadyFunded) == 6,
        milestone_error_code(MilestoneError::MilestoneNotFound) == 7,
        milestone_error_code(MilestoneError::InvalidMilestoneStatus) == 8,
        milestone_error_code(MilestoneError::Unauthorized) == 9,
        milestone_error_code(MilestoneError::ArbiterRequired) == 10,
        milestone_error_code(MilestoneError::AllMilestonesProcessed) == 11,
        milestone_error_code(MilestoneError::DuplicateMilestone) == 12,
{
}

} // verus!
