//! What each escrow call does, stated call by call in terms of its inputs:
//! when it succeeds, and what it then stores, pays and publishes.

use vstd::prelude::*;

use crate::common::{Address, Hash32, TokenTransfer};
use crate::escrow_core::spec::{
    deposit_spec, dispute_spec, initialize_spec, refund_spec, release_spec, resolve_dispute_spec,
};
use crate::escrow_core::types::{escrow_error_code, Escrow, EscrowError, EscrowEvent, EscrowStatus};

verus! {

/// Every call but `initialize` on a contract that holds no escrow answers
/// `NotInitialized`.
pub proof fn escrow_calls_need_initialization(
    caller: Address,
    now: u64,
    beneficiary_amount: i128,
    initiator_amount: i128,
)
    ensures
        deposit_spec(None, caller) matches Err(EscrowError::NotInitialized),
        release_spec(None, caller) matches Err(EscrowError::NotInitialized),
        refund_spec(None, caller, now) matches Err(EscrowError::NotInitialized),
        dispute_spec(None, caller) matches Err(EscrowError::NotInitialized),
        resolve_dispute_spec(None, caller, beneficiary_amount, initiator_amount) matches Err(EscrowError::NotInitialized),
{
}

/// `initialize` succeeds exactly on a fresh contract with a positive amount
/// and a deadline after the ledger time; it then stores the given terms,
/// created now, unfunded, makes no transfer and announces the escrow.
pub proof fn escrow_initialize_law(
    initialized: bool,
    id: u64,
    initiator: Address,
    beneficiary: Address,
    arbiter: Option<Address>,
    token: Address,
    amount: i128,
    deadline: u64,
    engagement_id: Hash32,
    now: u64,
)
    ensures
        ({
            let r = initialize_spec(
                initialized,
                id,
                initiator,
                beneficiary,
                arbiter,
                token,
                amount,
                deadline,
                engagement_id,
                now,
            );
            &&& r is Ok <==> !initialized && amount > 0 && deadline > now
            &&& initialized ==> (r matches Err(EscrowError::AlreadyInitialized))
            &&& r matches Ok(t) ==> {
                &&& t.0.id == id && t.0.initiator == initiator && t.0.beneficiary == beneficiary
                &&& t.0.arbiter == arbiter && t.0.token == token && t.0.amount == amount
                &&& t.0.deadline == deadline && t.0.engagement_id == engagement_id
                &&& t.0.created_at == now && t.0.funded_amount == 0
                &&& t.0.status == EscrowStatus::Created
                &&& t.1.len() == 0
                &&& t.2 == seq![EscrowEvent::Initialized { id, initiator, beneficiary, amount }]
            }
        }),
{
}

/// `deposit` succeeds exactly on a created escrow; it then draws the
/// escrow's amount from the depositor `from` (and nobody else) into the
/// contract, and the escrow becomes funded with that amount.
pub proof fn escrow_deposit_law(e: Escrow, from: Address)
    ensures
        deposit_spec(Some(e), from) is Ok <==> e.status == EscrowStatus::Created,
        deposit_spec(Some(e), from) matches Ok(t) ==> {
            &&& t.1 == seq![TokenTransfer::Inbound { from, amount: e.amount }]
            &&& t.0 == Escrow { funded_amount: e.amount, status: EscrowStatus::Funded, ..e }
            &&& t.2 == seq![EscrowEvent::Deposited { id: e.id, from, amount: e.amount }]
        },
{
}

/// `release` succeeds exactly on a funded escrow called by its initiator or
/// its arbiter; it then pays the whole funded amount to the beneficiary and
/// completes the escrow with nothing left funded.
pub proof fn escrow_release_law(e: Escrow, caller: Address)
    ensures
        release_spec(Some(e), caller) is Ok <==> e.status == EscrowStatus::Funded && (caller
            == e.initiator || e.arbiter == Some(caller)),
        release_spec(Some(e), caller) matches Ok(t) ==> {
            &&& t.1 == seq![TokenTransfer::Outbound { to: e.beneficiary, amount: e.funded_amount }]
            &&& t.0 == Escrow { funded_amount: 0, status: EscrowStatus::Completed, ..e }
            &&& t.2 == seq![
                EscrowEvent::Released { id: e.id, to: e.beneficiary, amount: e.funded_amount },
            ]
        },
{
}

/// `refund` succeeds exactly when the beneficiary or the arbiter calls on a
/// funded or disputed escrow, or the initiator calls on a funded escrow at
/// or after its deadline; it then pays the whole funded amount back to the
/// initiator and the escrow is refunded with nothing left funded. An
/// initiator who is none of the others and calls a funded escrow before its
/// deadline is told `DeadlineNotReached`.
pub proof fn escrow_refund_law(e: Escrow, caller: Address, now: u64)
    ensures
        refund_spec(Some(e), caller, now) is Ok <==> ((e.status == EscrowStatus::Funded
            || e.status == EscrowStatus::Disputed) && (caller == e.beneficiary || e.arbiter == Some(
            caller,
        ))) || (e.status == EscrowStatus::Funded && caller == e.initiator && now >= e.deadline),
        refund_spec(Some(e), caller, now) matches Ok(t) ==> {
            &&& t.1 == seq![TokenTransfer::Outbound { to: e.initiator, amount: e.funded_amount }]
            &&& t.0 == Escrow { funded_amount: 0, status: EscrowStatus::Refunded, ..e }
            &&& t.2 == seq![
                EscrowEvent::Refunded { id: e.id, to: e.initiator, amount: e.funded_amount },
            ]
        },
        (e.status == EscrowStatus::Funded && caller == e.initiator && caller != e.beneficiary
            && e.arbiter != Some(caller) && now < e.deadline) ==> (refund_spec(Some(e), caller, now)
            matches Err(EscrowError::DeadlineNotReached)),
{
}

/// `dispute` succeeds exactly when the initiator or the beneficiary calls on
/// a funded escrow that has an arbiter; it then moves no tokens, keeps the
/// funds, marks the escrow disputed and names who disputed it.
pub proof fn escrow_dispute_law(e: Escrow, caller: Address)
    ensures
        dispute_spec(Some(e), caller) is Ok <==> e.status == EscrowStatus::Funded && e.arbiter
            is Some && (caller == e.initiator || caller == e.beneficiary),
        dispute_spec(Some(e), caller) matches Ok(t) ==> {
            &&& t.1.len() == 0
            &&& t.0 == Escrow { status: EscrowStatus::Disputed, ..e }
            &&& t.2 == seq![EscrowEvent::Disputed { id: e.id, by: caller }]
        },
{
}

/// `resolve_dispute` succeeds exactly when the arbiter splits a disputed
/// escrow's funded amount into two non-negative shares that add up to it;
/// it then pays the beneficiary's share to the beneficiary and the
/// initiator's share to the initiator (each only when positive, the
/// beneficiary first), completes the escrow with nothing left funded, and
/// announces the split.
pub proof fn escrow_resolve_dispute_law(
    e: Escrow,
    caller: Address,
    beneficiary_amount: i128,
    initiator_amount: i128,
)
    ensures
        resolve_dispute_spec(Some(e), caller, beneficiary_amount, initiator_amount) is Ok <==> e.status
            == EscrowStatus::Disputed && e.arbiter == Some(caller) && beneficiary_amount >= 0
            && initiator_amount >= 0 && beneficiary_amount + initiator_amount == e.funded_amount,
        resolve_dispute_spec(Some(e), caller, beneficiary_amount, initiator_amount) matches Ok(t)
            ==> {
            &&& t.0 == Escrow { funded_amount: 0, status: EscrowStatus::Completed, ..e }
            &&& t.2 == seq![
                EscrowEvent::DisputeResolved { id: e.id, beneficiary_amount, initiator_amount },
            ]
            &&& (beneficiary_amount > 0 && initiator_amount > 0) ==> t.1 == seq![
                TokenTransfer::Outbound { to: e.beneficiary, amount: beneficiary_amount },
                TokenTransfer::Outbound { to: e.initiator, amount: initiator_amount },
            ]
            &&& (beneficiary_amount > 0 && initiator_amount == 0) ==> t.1 == seq![
                TokenTransfer::Outbound { to: e.beneficiary, amount: beneficiary_amount },
            ]
            &&& (beneficiary_amount == 0 && initiator_amount > 0) ==> t.1 == seq![
                TokenTransfer::Outbound { to: e.initiator, amount: initiator_amount },
            ]
            &&& (beneficiary_amount == 0 && initiator_amount == 0) ==> t.1.len() == 0
        },
{
    let b = TokenTransfer::Outbound { to: e.beneficiary, amount: beneficiary_amount };
    let i = TokenTransfer::Outbound { to: e.initiator, amount: initiator_amount };
    assert(seq![b] + seq![i] =~= seq![b, i]);
    assert(seq![b] + Seq::<TokenTransfer>::empty() =~= seq![b]);
    assert(Seq::<TokenTransfer>::empty() + seq![i] =~= seq![i]);
    assert(Seq::<TokenTransfer>::empty() + Seq::<TokenTransfer>::empty() =~= Seq::<
        TokenTransfer,
    >::empty());
}

/// Why each escrow call is refused, given a stored escrow. `deposit`: the
/// escrow is not newly created. `release`: it is not funded, or else the
/// caller is neither initiator nor arbiter. `refund`: it is not funded (nor
/// disputed and called by the beneficiary or the arbiter), or else the
/// initiator came before the deadline, or else the caller has no right.
/// `dispute`: it is not funded, or else it has no arbiter, or else the caller
/// is neither initiator nor beneficiary. `resolve_dispute`: it is not
/// disputed, or else the caller is not the arbiter, or else a share is
/// negative, or else the shares do not add up to the funded amount.
pub proof fn escrow_refusals(
    e: Escrow,
    caller: Address,
    now: u64,
    beneficiary_amount: i128,
    initiator_amount: i128,
)
    ensures
        deposit_spec(Some(e), caller) matches Err(err) ==> err == EscrowError::InvalidStatus,
        release_spec(Some(e), caller) matches Err(err) ==> err == if e.status
            != EscrowStatus::Funded {
            EscrowError::EscrowNotFunded
        } else {
            EscrowError::Unauthorized
        },
        refund_spec(Some(e), caller, now) matches Err(err) ==> err == if e.status
            != EscrowStatus::Funded {
            EscrowError::EscrowNotFunded
        } else if caller == e.initiator {
            EscrowError::DeadlineNotReached
        } else {
            EscrowError::Unauthorized
        },
        dispute_spec(Some(e), caller) matches Err(err) ==> err == if e.status
            != EscrowStatus::Funded {
            EscrowError::EscrowNotFunded
        } else if e.arbiter is None {
            EscrowError::ArbiterRequired
        } else {
            EscrowError::Unauthorized
        },
        resolve_dispute_spec(Some(e), caller, beneficiary_amount, initiator_amount) matches Err(err)
            ==> err == if e.status != EscrowStatus::Disputed {
            EscrowError::InvalidStatus
        } else if e.arbiter != Some(caller) {
            EscrowError::Unauthorized
        } else if beneficiary_amount < 0 || initiator_amount < 0 {
            EscrowError::InvalidAmount
        } else {
            EscrowError::DisputeResolutionMismatch
        },
{
}

/// Why `initialize` is refused: the contract was initialized before, or
/// else the amount is not positive, or else the deadline is not after the
/// ledger time.
pub proof fn escrow_initialize_refusals(
    initialized: bool,
    id: u64,
    initiator: Address,
    beneficiary: Address,
    arbiter: Option<Address>,
    token: Address,
    amount: i128,
    deadline: u64,
    engagement_id: Hash32,
    now: u64,
)
    ensures
        initialize_spec(
            initialized,
            id,
            initiator,
            beneficiary,
            arbiter,
            token,
            amount,
            deadline,
            engagement_id,
            now,
        ) matches Err(err) ==> err == if initialized {
            EscrowError::AlreadyInitialized
        } else if amount <= 0 {
            EscrowError::InvalidAmount
        } else {
            EscrowError::InvalidDeadline
        },
{
}

/// The contract error codes, one per error, from 1 to 12 in this order:
/// AlreadyInitialized, NotInitialized, InvalidAmount, InvalidDeadline,
/// InvalidStatus, Unauthorized, DeadlineNotReached, DeadlinePassed,
/// EscrowAlreadyFunded, EscrowNotFunded, ArbiterRequired,
/// DisputeResolutionMismatch.
pub proof fn escrow_error_codes()
    ensures
        escrow_error_code(EscrowError::AlreadyInitialized) == 1,
        escrow_error_code(EscrowError::NotInitialized) == 2,
        escrow_error_code(EscrowError::InvalidAmount) == 3,
        escrow_error_code(EscrowError::InvalidDeadline) == 4,
        escrow_error_code(EscrowError::InvalidStatus) == 5,
        escrow_error_code(EscrowError::Unauthorized) == 6,
        escrow_error_code(EscrowError::DeadlineNotReached) == 7,
        escrow_error_code(EscrowError::DeadlinePassed) == 8,
        escrow_error_code(EscrowError::EscrowAlreadyFunded) == 9,
        escrow_error_code(EscrowError::EscrowNotFunded) == 10,
        escrow_error_code(EscrowError::ArbiterRequired) == 11,
        escrow_error_code(EscrowError::DisputeResolutionMismatch) == 12,
{
}

} // verus!
