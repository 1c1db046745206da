use vstd::prelude::*;

use crate::common::{Address, Hash32, TokenTransfer};
use crate::milestone::spec::{
    all_positive, approval_overflows, approve_and_release_spec, deposit_spec, ids_distinct,
    dispute_milestone_spec, initialize_spec, lemma_prefix_sum_bounded, pending_milestone,
    resolution_overflows, resolve_milestone_spec, submit_milestone_spec, sum_amounts,
};
use crate::milestone::types::{
    milestone_result_view, setup_result_view, Milestone, MilestoneError, MilestoneEscrow,
    MilestoneEscrowContract, MilestoneEvent, MilestoneInit, MilestoneOutcome, MilestoneSetup,
    MilestoneStatus,
};

verus! {

/// Whether `who` is the arbiter.
fn arbiter_is(arbiter: &Option<Address>, who: &Address) -> (r: bool)
    ensures
        r == (*arbiter == Some(*who)),
{
    match arbiter {
        Some(a) => *a == *who,
        None => false,
    }
}

/// The pending milestone that `initialize` stores for `m`.
fn new_pending_milestone(m: MilestoneInit) -> (r: Milestone)
    ensures
        r == pending_milestone(m),
{
    Milestone {
        id: m.id,
        description_hash: m.description_hash,
        amount: m.amount,
        status: MilestoneStatus::Pending,
        proof_hash: None,
        submitted_at: 0,
        approved_at: 0,
    }
}

/// Whether two of the given milestones share an id.
fn has_duplicate_id(milestones: &Vec<MilestoneInit>) -> (r: bool)
    ensures
        r == !ids_distinct(milestones@),
{
    let n = milestones.len();
    let mut i: usize = 0;
    while i < n
        invariant
            n == milestones.len(),
            0 <= i <= n,
            forall|a: int, b: int|
                #![trigger milestones@[a], milestones@[b]]
                0 <= a < i && a < b < n ==> milestones@[a].id != milestones@[b].id,
        decreases n - i,
    {
        let mut j: usize = i + 1;
        while j < n
            invariant
                n == milestones.len(),
                0 <= i < n,
                i + 1 <= j <= n,
                forall|a: int, b: int|
                    #![trigger milestones@[a], milestones@[b]]
                    0 <= a < i && a < b < n ==> milestones@[a].id != milestones@[b].id,
                forall|b: int| i < b < j ==> milestones@[i as int].id != #[trigger] milestones@[b].id,
            decreases n - j,
        {
            if milestones[i].id == milestones[j].id {
                assert(!ids_distinct(milestones@)) by {
                    assert(milestones@[i as int].id == milestones@[j as int].id);
                }
                return true;
            }
            j = j + 1;
        }
        i = i + 1;
    }
    false
}

impl MilestoneEscrowContract {
    /// Initializes a milestone escrow agreement with pre-defined milestones.
    /// `configured` says whether an agreement is stored already. Two
    /// milestones with the same id are refused.
    pub fn initialize(
        configured: bool,
        client: Address,
        contractor: Address,
        arbiter: Option<Address>,
        token: Address,
        milestones: Vec<MilestoneInit>,
    ) -> (r: Result<MilestoneSetup, MilestoneError>)
        requires
            milestones.len() <= u32::MAX,
        ensures
            setup_result_view(r) == initialize_spec(
                configured,
                client,
                contractor,
                arbiter,
                token,
                milestones@,
            ),
    {
        if configured {
            return Err(MilestoneError::AlreadyInitialized);
        }
        let milestone_count = milestones.len();
        if milestone_count == 0 {
            return Err(MilestoneError::InvalidMilestoneCount);
        }
        let ghost inits = milestones@;
        let mut total_amount: i128 = 0;
        let mut stored: Vec<Milestone> = Vec::new();
        let mut i: usize = 0;
        while i < milestone_count
            invariant
                !configured,
                milestone_count == milestones.len(),
                inits == milestones@,
                0 <= i <= milestone_count,
                all_positive(inits.take(i as int)),
                total_amount == sum_amounts(inits.take(i as int)),
                stored@ == inits.take(i as int).map_values(|m: MilestoneInit| pending_milestone(m)),
            decreases milestone_count - i,
        {
            let m_init = milestones[i];
            assert(inits.take(i + 1).drop_last() =~= inits.take(i as int));
            if m_init.amount <= 0 {
                assert(!all_positive(inits)) by {
                    assert(inits[i as int].amount <= 0);
                }
                return Err(MilestoneError::AmountMismatch);
            }
            match total_amount.checked_add(m_init.amount) {
                None => {
                    proof {
                        if all_positive(inits) {
                            lemma_prefix_sum_bounded(inits, i + 1);
                        }
                    }
                    return Err(MilestoneError::AmountMismatch);
                },
                Some(t) => {
                    total_amount = t;
                },
            }
            stored.push(new_pending_milestone(m_init));
            i = i + 1;
            assert(stored@ =~= inits.take(i as int).map_values(
                |m: MilestoneInit| pending_milestone(m),
            ));
        }
        assert(inits.take(milestone_count as int) =~= inits);
        if has_duplicate_id(&milestones) {
            return Err(MilestoneError::DuplicateMilestone);
        }
        let count = milestone_count as u32;
        let config = MilestoneEscrow {
            client,
            contractor,
            arbiter,
            token,
            total_amount,
            released_amount: 0,
            is_funded: false,
            milestone_count: count,
        };
        let mut events = Vec::new();
        events.push(MilestoneEvent::Initialized { client, contractor, total_amount, count });
        Ok(MilestoneSetup { config, milestones: stored, events })
    }

    /// Deposits the full escrow sum from `caller` into the contract.
    pub fn deposit(stored: Option<MilestoneEscrow>, caller: Address) -> (r: Result<
        MilestoneOutcome,
        MilestoneError,
    >)
        ensures
            milestone_result_view(r) == deposit_spec(stored, caller),
    {
        let mut config = match stored {
            Some(c) => c,
            None => return Err(MilestoneError::NotInitialized),
        };
        if config.is_funded {
            return Err(MilestoneError::AlreadyFunded);
        }
        let mut transfers = Vec::new();
        transfers.push(TokenTransfer::Inbound { from: caller, amount: config.total_amount });
        config.is_funded = true;
        let out = MilestoneOutcome { config: Some(config), milestone: None, transfers, events: Vec::new() };
        Ok(out)
    }

    /// Submits the proof of completion of a milestone. `milestone` is the
    /// milestone stored under `milestone_id`; `now` is the ledger time.
    pub fn submit_milestone(
        stored: Option<MilestoneEscrow>,
        milestone: Option<Milestone>,
        caller: Address,
        milestone_id: u32,
        proof_hash: Hash32,
        now: u64,
    ) -> (r: Result<MilestoneOutcome, MilestoneError>)
        ensures
            milestone_result_view(r) == submit_milestone_spec(
                stored,
                milestone,
                caller,
                milestone_id,
                proof_hash,
                now,
            ),
    {
        let config = match stored {
            Some(c) => c,
            None => return Err(MilestoneError::NotInitialized),
        };
        if !config.is_funded {
            return Err(MilestoneError::NotFunded);
        }
        if caller != config.contractor {
            return Err(MilestoneError::Unauthorized);
        }
        let mut m = match milestone {
            Some(m) => m,
            None => return Err(MilestoneError::MilestoneNotFound),
        };
        if m.status != MilestoneStatus::Pending {
            return Err(MilestoneError::InvalidMilestoneStatus);
        }
        m.status = MilestoneStatus::Submitted;
        m.proof_hash = Some(proof_hash);
        m.submitted_at = now;
        let mut events = Vec::new();
        events.push(MilestoneEvent::Submitted { milestone_id, proof_hash });
        let out = MilestoneOutcome { config: None, milestone: Some(m), transfers: Vec::new(), events };
        Ok(out)
    }

    /// Approves a submitted milestone and pays its amount to the contractor.
    /// Callable by the client or the arbiter.
    pub fn approve_and_release(
        stored: Option<MilestoneEscrow>,
        milestone: Option<Milestone>,
        caller: Address,
        milestone_id: u32,
        now: u64,
    ) -> (r: Result<MilestoneOutcome, MilestoneError>)
        requires
            !approval_overflows(stored, milestone, caller),
        ensures
            milestone_result_view(r) == approve_and_release_spec(
                stored,
                milestone,
                caller,
                milestone_id,
                now,
            ),
    {
        let mut config = match stored {
            Some(c) => c,
            None => return Err(MilestoneError::NotInitialized),
        };
        if !config.is_funded {
            return Err(MilestoneError::NotFunded);
        }
        let is_client = caller == config.client;
        let is_arbiter = arbiter_is(&config.arbiter, &caller);
        if !is_client && !is_arbiter {
            return Err(MilestoneError::Unauthorized);
        }
        let mut m = match milestone {
            Some(m) => m,
            None => return Err(MilestoneError::MilestoneNotFound),
        };
        if m.status != MilestoneStatus::Submitted {
            return Err(MilestoneError::InvalidMilestoneStatus);
        }
        let payout = m.amount;
        let mut transfers = Vec::new();
        transfers.push(TokenTransfer::Outbound { to: config.contractor, amount: payout });
        m.status = MilestoneStatus::Released;
        m.approved_at = now;
        config.released_amount = config.released_amount + payout;
        let mut events = Vec::new();
        events.push(MilestoneEvent::Approved { milestone_id, by: caller });
        events.push(MilestoneEvent::Released { milestone_id, to: config.contractor, amount: payout });
        assert(events@ =~= seq![
            MilestoneEvent::Approved { milestone_id, by: caller },
            MilestoneEvent::Released { milestone_id, to: config.contractor, amount: payout },
        ]);
        Ok(MilestoneOutcome { config: Some(config), milestone: Some(m), transfers, events })
    }

    /// Raises a dispute on a submitted milestone. Callable by the client or
    /// the contractor when the agreement has an arbiter.
    pub fn dispute_milestone(
        stored: Option<MilestoneEscrow>,
        milestone: Option<Milestone>,
        caller: Address,
        milestone_id: u32,
    ) -> (r: Result<MilestoneOutcome, MilestoneError>)
        ensures
            milestone_result_view(r) == dispute_milestone_spec(
                stored,
                milestone,
                caller,
                milestone_id,
            ),
    {
        let config = match stored {
            Some(c) => c,
            None => return Err(MilestoneError::NotInitialized),
        };
        if !config.is_funded {
            return Err(MilestoneError::NotFunded);
        }
        if config.arbiter.is_none() {
            return Err(MilestoneError::ArbiterRequired);
        }
        if caller != config.client && caller != config.contractor {
            return Err(MilestoneError::Unauthorized);
        }
        let mut m = match milestone {
            Some(m) => m,
            None => return Err(MilestoneError::MilestoneNotFound),
        };
        if m.status != MilestoneStatus::Submitted {
            return Err(MilestoneError::InvalidMilestoneStatus);
        }
        m.status = MilestoneStatus::Disputed;
        let mut events = Vec::new();
        events.push(MilestoneEvent::Disputed { milestone_id, by: caller });
        let out = MilestoneOutcome { config: None, milestone: Some(m), transfers: Vec::new(), events };
        Ok(out)
    }

    /// Resolves a disputed milestone by paying it to the contractor or back
    /// to the client. Callable solely by the arbiter.
    pub fn resolve_milestone(
        stored: Option<MilestoneEscrow>,
        milestone: Option<Milestone>,
        caller: Address,
        milestone_id: u32,
        release_to_contractor: bool,
    ) -> (r: Result<MilestoneOutcome, MilestoneError>)
        requires
            !resolution_overflows(stored, milestone, caller, release_to_contractor),
        ensures
            milestone_result_view(r) == resolve_milestone_spec(
                stored,
                milestone,
                caller,
                milestone_id,
                release_to_contractor,
            ),
    {
        let mut config = match stored {
            Some(c) => c,
            None => return Err(MilestoneError::NotInitialized),
        };
        if !arbiter_is(&config.arbiter, &caller) {
            return Err(MilestoneError::Unauthorized);
        }
        let mut m = match milestone {
            Some(m) => m,
            None => return Err(MilestoneError::MilestoneNotFound),
        };
        if m.status != MilestoneStatus::Disputed {
            return Err(MilestoneError::InvalidMilestoneStatus);
        }
        let payout = m.amount;
        let mut transfers = Vec::new();
        if release_to_contractor {
            transfers.push(TokenTransfer::Outbound { to: config.contractor, amount: payout });
            m.status = MilestoneStatus::Released;
            config.released_amount = config.released_amount + payout;
        } else {
            transfers.push(TokenTransfer::Outbound { to: config.client, amount: payout });
            m.status = MilestoneStatus::Cancelled;
        }
        let mut events = Vec::new();
        events.push(MilestoneEvent::Resolved { milestone_id, approved: release_to_contractor });
        Ok(MilestoneOutcome { config: Some(config), milestone: Some(m), transfers, events })
    }

    /// Whether `approve_and_release` would reach its payout and overflow the
    /// released total, where the contract traps instead of answering.
    pub fn approve_and_release_overflows(
        stored: &Option<MilestoneEscrow>,
        milestone: &Option<Milestone>,
        caller: &Address,
    ) -> (r: bool)
        ensures
            r == approval_overflows(*stored, *milestone, *caller),
    {
        match (stored, milestone) {
            (Some(c), Some(m)) => c.is_funded && (*caller == c.client || arbiter_is(&c.arbiter, caller))
                && m.status == MilestoneStatus::Submitted
                && c.released_amount.checked_add(m.amount).is_none(),
            _ => false,
        }
    }

    /// Whether `resolve_milestone` would reach a payout to the contractor and
    /// overflow the released total, where the contract traps instead of
    /// answering.
    pub fn resolve_milestone_overflows(
        stored: &Option<MilestoneEscrow>,
        milestone: &Option<Milestone>,
        caller: &Address,
        release_to_contractor: bool,
    ) -> (r: bool)
        ensures
            r == resolution_overflows(*stored, *milestone, *caller, release_to_contractor),
    {
        match (stored, milestone) {
            (Some(c), Some(m)) => arbiter_is(&c.arbiter, caller) && m.status == MilestoneStatus::Disputed
                && release_to_contractor && c.released_amount.checked_add(m.amount).is_none(),
            _ => false,
        }
    }

    /// The stored agreement, if the contract was initialized.
    pub fn get_config(stored: Option<MilestoneEscrow>) -> (r: Result<MilestoneEscrow, MilestoneError>)
        ensures
            r == (match stored {
                Some(c) => Ok(c),
                None => Err(MilestoneError::NotInitialized),
            }),
    {
        match stored {
            Some(c) => Ok(c),
            None => Err(MilestoneError::NotInitialized),
        }
    }

    /// The milestone stored under the requested id, if there is one.
    pub fn get_milestone(milestone: Option<Milestone>) -> (r: Result<Milestone, MilestoneError>)
        ensures
            r == (match milestone {
                Some(m) => Ok(m),
                None => Err(MilestoneError::MilestoneNotFound),
            }),
    {
        match milestone {
            Some(m) => Ok(m),
            None => Err(MilestoneError::MilestoneNotFound),
        }
    }
}

} // verus!
