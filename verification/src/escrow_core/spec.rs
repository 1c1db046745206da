use vstd::prelude::*;

use crate::common::{Address, Hash32, TokenTransfer};
use crate::escrow_core::types::{Escrow, EscrowError, EscrowEvent, EscrowStatus, EscrowTransition};

verus! {

/// `who` is the escrow's arbiter.
pub open spec fn is_arbiter(e: Escrow, who: Address) -> bool {
    e.arbiter == Some(who)
}

/// `initialize`: set up a new escrow, once, for a positive amount and a
/// deadline strictly after the current ledger time.
pub open spec fn initialize_spec(
    initialized: bool,
    id: u64,
    initiator: Address,
    beneficiary: Address,
    arbiter: Option<Address>,
    token: Address,
    amount: i128,
    deadline: u64,
    engagement_id: Hash32,
    now: u64,
) -> Result<EscrowTransition, EscrowError> {
    if initialized {
        Err(EscrowError::AlreadyInitialized)
    } else if amount <= 0 {
        Err(EscrowError::InvalidAmount)
    } else if deadline <= now {
        Err(EscrowError::InvalidDeadline)
    } else {
        Ok(
            (
                Escrow {
                    id,
                    initiator,
                    beneficiary,
                    arbiter,
                    token,
                    amount,
                    funded_amount: 0,
                    deadline,
                    status: EscrowStatus::Created,
                    created_at: now,
                    engagement_id,
                },
                Seq::empty(),
                seq![EscrowEvent::Initialized { id, initiator, beneficiary, amount }],
            ),
        )
    }
}

/// `deposit`: `from` pays the full amount into a created escrow.
pub open spec fn deposit_spec(stored: Option<Escrow>, from: Address) -> Result<
    EscrowTransition,
    EscrowError,
> {
    match stored {
        None => Err(EscrowError::NotInitialized),
        Some(e) => if e.status != EscrowStatus::Created {
            Err(EscrowError::InvalidStatus)
        } else {
            Ok(
                (
                    Escrow { funded_amount: e.amount, status: EscrowStatus::Funded, ..e },
                    seq![TokenTransfer::Inbound { from, amount: e.amount }],
                    seq![EscrowEvent::Deposited { id: e.id, from, amount: e.amount }],
                ),
            )
        },
    }
}

/// `release`: the initiator or the arbiter pays the funded amount to the
/// beneficiary.
pub open spec fn release_spec(stored: Option<Escrow>, caller: Address) -> Result<
    EscrowTransition,
    EscrowError,
> {
    match stored {
        None => Err(EscrowError::NotInitialized),
        Some(e) => if e.status != EscrowStatus::Funded {
            Err(EscrowError::EscrowNotFunded)
        } else if caller != e.initiator && !is_arbiter(e, caller) {
            Err(EscrowError::Unauthorized)
        } else {
            Ok(
                (
                    Escrow { funded_amount: 0, status: EscrowStatus::Completed, ..e },
                    seq![TokenTransfer::Outbound { to: e.beneficiary, amount: e.funded_amount }],
                    seq![
                        EscrowEvent::Released {
                            id: e.id,
                            to: e.beneficiary,
                            amount: e.funded_amount,
                        },
                    ],
                ),
            )
        },
    }
}

/// The funded amount goes back to the initiator: the escrow is refunded.
pub open spec fn refunded(e: Escrow) -> EscrowTransition {
    (
        Escrow { funded_amount: 0, status: EscrowStatus::Refunded, ..e },
        seq![TokenTransfer::Outbound { to: e.initiator, amount: e.funded_amount }],
        seq![EscrowEvent::Refunded { id: e.id, to: e.initiator, amount: e.funded_amount }],
    )
}

/// `refund`: pays the funded amount back to the initiator. The beneficiary
/// or the arbiter may refund at any time before completion, that is while
/// the escrow is funded or disputed; the initiator may refund a funded
/// (undisputed) escrow from the deadline on.
pub open spec fn refund_spec(stored: Option<Escrow>, caller: Address, now: u64) -> Result<
    EscrowTransition,
    EscrowError,
> {
    match stored {
        None => Err(EscrowError::NotInitialized),
        Some(e) => if e.status == EscrowStatus::Disputed && (caller == e.beneficiary
            || is_arbiter(e, caller)) {
            Ok(refunded(e))
        } else if e.status != EscrowStatus::Funded {
            Err(EscrowError::EscrowNotFunded)
        } else if caller == e.beneficiary || is_arbiter(e, caller) || (caller == e.initiator
            && now >= e.deadline) {
            Ok(refunded(e))
        } else if caller == e.initiator {
            Err(EscrowError::DeadlineNotReached)
        } else {
            Err(EscrowError::Unauthorized)
        },
    }
}

/// `dispute`: the initiator or the beneficiary freezes a funded escrow that
/// has an arbiter.
pub open spec fn dispute_spec(stored: Option<Escrow>, caller: Address) -> Result<
    EscrowTransition,
    EscrowError,
> {
    match stored {
        None => Err(EscrowError::NotInitialized),
        Some(e) => if e.status != EscrowStatus::Funded {
            Err(EscrowError::EscrowNotFunded)
        } else if e.arbiter is None {
            Err(EscrowError::ArbiterRequired)
        } else if caller != e.initiator && caller != e.beneficiary {
            Err(EscrowError::Unauthorized)
        } else {
            Ok(
                (
                    Escrow { status: EscrowStatus::Disputed, ..e },
                    Seq::empty(),
                    seq![EscrowEvent::Disputed { id: e.id, by: caller }],
                ),
            )
        },
    }
}

/// The payouts of a dispute resolution: each positive share, beneficiary first.
pub open spec fn resolution_payouts(
    e: Escrow,
    beneficiary_amount: i128,
    initiator_amount: i128,
) -> Seq<TokenTransfer> {
    (if beneficiary_amount > 0 {
        seq![TokenTransfer::Outbound { to: e.beneficiary, amount: beneficiary_amount }]
    } else {
        Seq::empty()
    }) + (if initiator_amount > 0 {
        seq![TokenTransfer::Outbound { to: e.initiator, amount: initiator_amount }]
    } else {
        Seq::empty()
    })
}

/// `resolve_dispute`: the arbiter splits the funded amount of a disputed
/// escrow between beneficiary and initiator. Shares that do not add up to
/// the funded amount (including shares whose sum does not fit in `i128`)
/// are refused.
pub open spec fn resolve_dispute_spec(
    stored: Option<Escrow>,
    caller: Address,
    beneficiary_amount: i128,
    initiator_amount: i128,
) -> Result<EscrowTransition, EscrowError> {
    match stored {
        None => Err(EscrowError::NotInitialized),
        Some(e) => if e.status != EscrowStatus::Disputed {
            Err(EscrowError::InvalidStatus)
        } else if !is_arbiter(e, caller) {
            Err(EscrowError::Unauthorized)
        } else if beneficiary_amount < 0 || initiator_amount < 0 {
            Err(EscrowError::InvalidAmount)
        } else if beneficiary_amount + initiator_amount != e.funded_amount {
            Err(EscrowError::DisputeResolutionMismatch)
        } else {
            Ok(
                (
                    Escrow { funded_amount: 0, status: EscrowStatus::Completed, ..e },
                    resolution_payouts(e, beneficiary_amount, initiator_amount),
                    seq![
                        EscrowEvent::DisputeResolved {
                            id: e.id,
                            beneficiary_amount,
                            initiator_amount,
                        },
                    ],
                ),
            )
        },
    }
}

/// A state-changing call on the escrow, with its arguments.
pub enum EscrowCall {
    Initialize {
        id: u64,
        initiator: Address,
        beneficiary: Address,
        arbiter: Option<Address>,
        token: Address,
        amount: i128,
        deadline: u64,
        engagement_id: Hash32,
    },
    Deposit { from: Address },
    Release { caller: Address },
    Refund { caller: Address },
    Dispute { caller: Address },
    ResolveDispute { caller: Address, beneficiary_amount: i128, initiator_amount: i128 },
}

/// What a call does to the stored escrow at ledger time `now`.
pub open spec fn escrow_call_spec(stored: Option<Escrow>, call: EscrowCall, now: u64) -> Result<
    EscrowTransition,
    EscrowError,
> {
    match call {
        EscrowCall::Initialize {
            id,
            initiator,
            beneficiary,
            arbiter,
            token,
            amount,
            deadline,
            engagement_id,
        } => initialize_spec(
            stored is Some,
            id,
            initiator,
            beneficiary,
            arbiter,
            token,
            amount,
            deadline,
            engagement_id,
            now,
        ),
        EscrowCall::Deposit { from } => deposit_spec(stored, from),
        EscrowCall::Release { caller } => release_spec(stored, caller),
        EscrowCall::Refund { caller } => refund_spec(stored, caller, now),
        EscrowCall::Dispute { caller } => dispute_spec(stored, caller),
        EscrowCall::ResolveDispute { caller, beneficiary_amount, initiator_amount } =>
            resolve_dispute_spec(stored, caller, beneficiary_amount, initiator_amount),
    }
}

} // verus!
