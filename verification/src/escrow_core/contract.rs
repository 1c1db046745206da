use vstd::prelude::*;

use crate::common::{Address, Hash32, TokenTransfer};
use crate::escrow_core::spec::{
    deposit_spec, dispute_spec, initialize_spec, is_arbiter, refund_spec, release_spec,
    resolution_payouts, resolve_dispute_spec,
};
use crate::escrow_core::types::{
    escrow_result_view, Escrow, EscrowContract, EscrowError, EscrowEvent, EscrowOutcome,
    EscrowStatus,
};

verus! {

/// Whether `who` is the escrow's arbiter.
fn arbiter_is(arbiter: &Option<Address>, who: &Address) -> (r: bool)
    ensures
        r == (*arbiter == Some(*who)),
{
    match arbiter {
        Some(a) => *a == *who,
        None => false,
    }
}

impl EscrowContract {
    /// Initializes a new escrow. `initialized` says whether the contract was
    /// initialized before; `now` is the ledger time.
    pub fn initialize(
        initialized: bool,
        id: u64,
        initiator: Address,
        beneficiary: Address,
        arbiter: Option<Address>,
        token: Address,
        amount: i128,
        deadline: u64,
        engagement_id: Hash32,
        now: u64,
    ) -> (r: Result<EscrowOutcome, EscrowError>)
        ensures
            escrow_result_view(r) == initialize_spec(
                initialized,
                id,
                initiator,
                beneficiary,
                arbiter,
                token,
                amount,
                deadline,
                engagement_id,
                now,
            ),
    {
        if initialized {
            return Err(EscrowError::AlreadyInitialized);
        }
        if amount <= 0 {
            return Err(EscrowError::InvalidAmount);
        }
        if deadline <= now {
            return Err(EscrowError::InvalidDeadline);
        }
        let escrow = Escrow {
            id,
            initiator,
            beneficiary,
            arbiter,
            token,
            amount,
            funded_amount: 0,
            deadline,
            status: EscrowStatus::Created,
            created_at: now,
            engagement_id,
        };
        let mut events = Vec::new();
        events.push(EscrowEvent::Initialized { id, initiator, beneficiary, amount });
        let out = EscrowOutcome { escrow, transfers: Vec::new(), events };
        Ok(out)
    }

    /// Deposits the escrowed amount from `from` into the contract.
    pub fn deposit(stored: Option<Escrow>, from: Address) -> (r: Result<EscrowOutcome, EscrowError>)
        ensures
            escrow_result_view(r) == deposit_spec(stored, from),
    {
        let mut escrow = match stored {
            Some(e) => e,
            None => return Err(EscrowError::NotInitialized),
        };
        if escrow.status != EscrowStatus::Created {
            return Err(EscrowError::InvalidStatus);
        }
        let mut transfers = Vec::new();
        transfers.push(TokenTransfer::Inbound { from, amount: escrow.amount });
        escrow.funded_amount = escrow.amount;
        escrow.status = EscrowStatus::Funded;
        let mut events = Vec::new();
        events.push(EscrowEvent::Deposited { id: escrow.id, from, amount: escrow.amount });
        Ok(EscrowOutcome { escrow, transfers, events })
    }

    /// Releases the escrowed funds to the beneficiary. Callable by the
    /// initiator (happy path) or the arbiter.
    pub fn release(stored: Option<Escrow>, caller: Address) -> (r: Result<EscrowOutcome, EscrowError>)
        ensures
            escrow_result_view(r) == release_spec(stored, caller),
    {
        let mut escrow = match stored {
            Some(e) => e,
            None => return Err(EscrowError::NotInitialized),
        };
        if escrow.status != EscrowStatus::Funded {
            return Err(EscrowError::EscrowNotFunded);
        }
        let is_initiator = caller == escrow.initiator;
        let is_arbiter = arbiter_is(&escrow.arbiter, &caller);
        if !is_initiator && !is_arbiter {
            return Err(EscrowError::Unauthorized);
        }
        let payout = escrow.funded_amount;
        let mut transfers = Vec::new();
        transfers.push(TokenTransfer::Outbound { to: escrow.beneficiary, amount: payout });
        escrow.funded_amount = 0;
        escrow.status = EscrowStatus::Completed;
        let mut events = Vec::new();
        events.push(EscrowEvent::Released { id: escrow.id, to: escrow.beneficiary, amount: payout });
        Ok(EscrowOutcome { escrow, transfers, events })
    }

    /// Refunds the escrowed funds to the initiator. Callable by the
    /// beneficiary or the arbiter at any time before completion (while the
    /// escrow is funded or disputed), or by the initiator once the deadline
    /// (compared with the ledger time `now`) has passed without dispute.
    pub fn refund(stored: Option<Escrow>, caller: Address, now: u64) -> (r: Result<
        EscrowOutcome,
        EscrowError,
    >)
        ensures
            escrow_result_view(r) == refund_spec(stored, caller, now),
    {
        let mut escrow = match stored {
            Some(e) => e,
            None => return Err(EscrowError::NotInitialized),
        };
        let is_beneficiary = caller == escrow.beneficiary;
        let is_arbiter = arbiter_is(&escrow.arbiter, &caller);
        let disputed_by_party = escrow.status == EscrowStatus::Disputed && (is_beneficiary
            || is_arbiter);
        if escrow.status != EscrowStatus::Funded && !disputed_by_party {
            return Err(EscrowError::EscrowNotFunded);
        }
        let is_initiator_after_deadline = caller == escrow.initiator && now >= escrow.deadline;
        if !is_beneficiary && !is_arbiter && !is_initiator_after_deadline {
            if caller == escrow.initiator && now < escrow.deadline {
                return Err(EscrowError::DeadlineNotReached);
            }
            return Err(EscrowError::Unauthorized);
        }
        let refund_amount = escrow.funded_amount;
        let mut transfers = Vec::new();
        transfers.push(TokenTransfer::Outbound { to: escrow.initiator, amount: refund_amount });
        escrow.funded_amount = 0;
        escrow.status = EscrowStatus::Refunded;
        let mut events = Vec::new();
        events.push(
            EscrowEvent::Refunded { id: escrow.id, to: escrow.initiator, amount: refund_amount },
        );
        Ok(EscrowOutcome { escrow, transfers, events })
    }

    /// Raises a dispute. Callable by the initiator or the beneficiary while
    /// the escrow is funded and has an arbiter.
    pub fn dispute(stored: Option<Escrow>, caller: Address) -> (r: Result<EscrowOutcome, EscrowError>)
        ensures
            escrow_result_view(r) == dispute_spec(stored, caller),
    {
        let mut escrow = match stored {
            Some(e) => e,
            None => return Err(EscrowError::NotInitialized),
        };
        if escrow.status != EscrowStatus::Funded {
            return Err(EscrowError::EscrowNotFunded);
        }
        if escrow.arbiter.is_none() {
            return Err(EscrowError::ArbiterRequired);
        }
        if caller != escrow.initiator && caller != escrow.beneficiary {
            return Err(EscrowError::Unauthorized);
        }
        escrow.status = EscrowStatus::Disputed;
        let mut events = Vec::new();
        events.push(EscrowEvent::Disputed { id: escrow.id, by: caller });
        let out = EscrowOutcome { escrow, transfers: Vec::new(), events };
        Ok(out)
    }

    /// Resolves a dispute by paying `beneficiary_amount` to the beneficiary
    /// and `initiator_amount` to the initiator. Callable solely by the
    /// arbiter; the two shares must be non-negative and add up to the funded
    /// amount; shares whose sum overflows `i128` are refused as a mismatch.
    pub fn resolve_dispute(
        stored: Option<Escrow>,
        caller: Address,
        beneficiary_amount: i128,
        initiator_amount: i128,
    ) -> (r: Result<EscrowOutcome, EscrowError>)
        ensures
            escrow_result_view(r) == resolve_dispute_spec(
                stored,
                caller,
                beneficiary_amount,
                initiator_amount,
            ),
    {
        let mut escrow = match stored {
            Some(e) => e,
            None => return Err(EscrowError::NotInitialized),
        };
        if escrow.status != EscrowStatus::Disputed {
            return Err(EscrowError::InvalidStatus);
        }
        if !arbiter_is(&escrow.arbiter, &caller) {
            return Err(EscrowError::Unauthorized);
        }
        if beneficiary_amount < 0 || initiator_amount < 0 {
            return Err(EscrowError::InvalidAmount);
        }
        match beneficiary_amount.checked_add(initiator_amount) {
            Some(total) if total == escrow.funded_amount => {},
            _ => return Err(EscrowError::DisputeResolutionMismatch),
        }
        let ghost before = escrow;
        let mut transfers = Vec::new();
        if beneficiary_amount > 0 {
            transfers.push(
                TokenTransfer::Outbound { to: escrow.beneficiary, amount: beneficiary_amount },
            );
        }
        if initiator_amount > 0 {
            transfers.push(TokenTransfer::Outbound { to: escrow.initiator, amount: initiator_amount });
        }
        assert(transfers@ =~= resolution_payouts(before, beneficiary_amount, initiator_amount));
        escrow.funded_amount = 0;
        escrow.status = EscrowStatus::Completed;
        let mut events = Vec::new();
        events.push(
            EscrowEvent::DisputeResolved { id: escrow.id, beneficiary_amount, initiator_amount },
        );
        Ok(EscrowOutcome { escrow, transfers, events })
    }

    /// The stored escrow, if the contract was initialized.
    pub fn get_escrow(stored: Option<Escrow>) -> (r: Result<Escrow, EscrowError>)
        ensures
            r == (match stored {
                Some(e) => Ok(e),
                None => Err(EscrowError::NotInitialized),
            }),
    {
        match stored {
            Some(e) => Ok(e),
            None => Err(EscrowError::NotInitialized),
        }
    }
}

} // verus!
