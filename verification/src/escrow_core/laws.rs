use vstd::prelude::*;

use crate::common::{lemma_net_inflow_small, net_inflow, TokenTransfer};
use crate::escrow_core::spec::{escrow_call_spec, is_arbiter, resolution_payouts, EscrowCall};
use crate::escrow_core::types::{Escrow, EscrowStatus};

verus! {

/// A stored escrow is consistent: its amount is positive, and it holds
/// exactly its amount while funded or disputed and nothing otherwise.
pub open spec fn escrow_valid(e: Escrow) -> bool {
    &&& e.amount > 0
    &&& match e.status {
        EscrowStatus::Funded | EscrowStatus::Disputed => e.funded_amount == e.amount,
        _ => e.funded_amount == 0,
    }
}

/// The escrowed principal that the contract holds and has not paid out.
pub open spec fn held_principal(stored: Option<Escrow>) -> int {
    match stored {
        Some(e) => e.funded_amount as int,
        None => 0,
    }
}

/// The transitions the escrow contract makes (its own table, finer than the
/// one in the contract-model notes): absent to `Created`; `Created`
/// to `Funded`; `Funded` to `Completed`, `Refunded` or `Disputed`;
/// `Disputed` to `Completed` or `Refunded`. `Completed` and `Refunded` are
/// terminal.
pub open spec fn allowed_transition(from: Option<EscrowStatus>, to: EscrowStatus) -> bool {
    match from {
        None => to == EscrowStatus::Created,
        Some(EscrowStatus::Created) => to == EscrowStatus::Funded,
        Some(EscrowStatus::Funded) => to == EscrowStatus::Completed || to == EscrowStatus::Refunded
            || to == EscrowStatus::Disputed,
        Some(EscrowStatus::Disputed) => to == EscrowStatus::Completed || to
            == EscrowStatus::Refunded,
        Some(EscrowStatus::Completed) | Some(EscrowStatus::Refunded) => false,
    }
}

/// The status of the stored escrow, if there is one.
pub open spec fn stored_status(stored: Option<Escrow>) -> Option<EscrowStatus> {
    match stored {
        Some(e) => Some(e.status),
        None => None,
    }
}

/// Every accepted call moves the escrow along the escrow contract's table
/// of transitions.
pub proof fn escrow_transitions_follow_model(stored: Option<Escrow>, call: EscrowCall, now: u64)
    ensures
        escrow_call_spec(stored, call, now) matches Ok(t) ==> allowed_transition(
            stored_status(stored),
            t.0.status,
        ),
{
}

/// Only the parties the escrow contract names can settle an escrow: the
/// initiator or the arbiter releases; the beneficiary or the arbiter, or
/// the initiator from the deadline on when there is no dispute, refunds;
/// the initiator or the beneficiary
/// disputes; only the arbiter resolves a dispute.
pub proof fn escrow_settlement_needs_authority(e: Escrow, call: EscrowCall, now: u64)
    ensures
        escrow_call_spec(Some(e), call, now) is Ok ==> match call {
            EscrowCall::Release { caller } => caller == e.initiator || is_arbiter(e, caller),
            EscrowCall::Refund { caller } => caller == e.beneficiary || is_arbiter(e, caller) || (
            caller == e.initiator && e.status == EscrowStatus::Funded && now >= e.deadline),
            EscrowCall::Dispute { caller } => caller == e.initiator || caller == e.beneficiary,
            EscrowCall::ResolveDispute { caller, .. } => is_arbiter(e, caller),
            _ => true,
        },
{
}

/// Terminal states are final: once completed or refunded, every call on the
/// escrow is refused.
pub proof fn escrow_terminal_is_final(e: Escrow, call: EscrowCall, now: u64)
    requires
        e.status == EscrowStatus::Completed || e.status == EscrowStatus::Refunded,
    ensures
        escrow_call_spec(Some(e), call, now) is Err,
{
}

/// The terms of an escrow (parties, token, amount, deadline, identifiers)
/// never change after initialization.
pub proof fn escrow_terms_are_fixed(e: Escrow, call: EscrowCall, now: u64)
    ensures
        escrow_call_spec(Some(e), call, now) matches Ok(t) ==> {
            &&& t.0.id == e.id
            &&& t.0.initiator == e.initiator
            &&& t.0.beneficiary == e.beneficiary
            &&& t.0.arbiter == e.arbiter
            &&& t.0.token == e.token
            &&& t.0.amount == e.amount
            &&& t.0.deadline == e.deadline
            &&& t.0.created_at == e.created_at
            &&& t.0.engagement_id == e.engagement_id
        },
{
}

/// Conservation: every accepted call keeps the escrow consistent, and the
/// token balance it moves into the contract (transfers in minus transfers
/// out) equals the change of the principal held, so the contract always
/// holds exactly the escrowed principal not yet paid out.
pub proof fn escrow_conservation(stored: Option<Escrow>, call: EscrowCall, now: u64)
    requires
        stored matches Some(e) ==> escrow_valid(e),
    ensures
        escrow_call_spec(stored, call, now) matches Ok(t) ==> {
            &&& escrow_valid(t.0)
            &&& net_inflow(t.1) == t.0.funded_amount - held_principal(stored)
        },
{
    if let Ok(t) = escrow_call_spec(stored, call, now) {
        let e = stored.unwrap_or(t.0);
        match call {
            EscrowCall::ResolveDispute { beneficiary_amount, initiator_amount, .. } => {
                let b = TokenTransfer::Outbound { to: e.beneficiary, amount: beneficiary_amount };
                let i = TokenTransfer::Outbound { to: e.initiator, amount: initiator_amount };
                lemma_net_inflow_small(b, i);
                lemma_net_inflow_small(i, b);
                lemma_net_inflow_small(b, b);
                assert(seq![b] + seq![i] =~= seq![b, i]);
                assert(seq![b] + Seq::<TokenTransfer>::empty() =~= seq![b]);
                assert(Seq::<TokenTransfer>::empty() + seq![i] =~= seq![i]);
                assert(Seq::<TokenTransfer>::empty() + Seq::<TokenTransfer>::empty()
                    =~= Seq::<TokenTransfer>::empty());
                assert(t.1 == resolution_payouts(e, beneficiary_amount, initiator_amount));
            },
            _ => {
                let x = TokenTransfer::Inbound { from: e.initiator, amount: 0 };
                lemma_net_inflow_small(x, x);
                if t.1.len() == 1 {
                    lemma_net_inflow_small(t.1[0], x);
                    assert(t.1 =~= seq![t.1[0]]);
                }
            },
        }
    }
}

/// The stored escrow after running `calls` (each with its ledger time) from
/// `stored`, and the total token balance those calls moved into the
/// contract. A refused call changes nothing and moves nothing.
pub open spec fn run_escrow_calls(stored: Option<Escrow>, calls: Seq<(EscrowCall, u64)>) -> (
    Option<Escrow>,
    int,
)
    decreases calls.len(),
{
    if calls.len() == 0 {
        (stored, 0)
    } else {
        let (before, moved) = run_escrow_calls(stored, calls.drop_last());
        let (call, now) = calls.last();
        match escrow_call_spec(before, call, now) {
            Ok(t) => (Some(t.0), moved + net_inflow(t.1)),
            Err(_) => (before, moved),
        }
    }
}

/// The conservation rule over whole histories: whatever calls are made on a
/// fresh contract, the tokens it has taken in minus those it has paid out
/// equal the escrowed principal it has not yet paid out, and the stored
/// escrow stays consistent.
pub proof fn escrow_holds_unpaid_principal(calls: Seq<(EscrowCall, u64)>)
    ensures
        run_escrow_calls(None, calls).1 == held_principal(run_escrow_calls(None, calls).0),
        run_escrow_calls(None, calls).0 matches Some(e) ==> escrow_valid(e),
    decreases calls.len(),
{
    if calls.len() > 0 {
        escrow_holds_unpaid_principal(calls.drop_last());
        let (before, moved) = run_escrow_calls(None, calls.drop_last());
        let (call, now) = calls.last();
        escrow_conservation(before, call, now);
    }
}

} // verus!
