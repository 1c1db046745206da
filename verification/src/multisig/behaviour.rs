//! What each multisig call does, stated call by call in terms of its
//! inputs: when it succeeds, and what it then stores, pays and publishes.

use vstd::prelude::*;

use crate::common::{Address, TokenTransfer};
use crate::multisig::spec::{
    approve_proposal_spec, execute_proposal_spec, initialize_spec, submit_proposal_spec,
};
use crate::multisig::types::{
    multisig_error_code, Approval, MultisigAction, MultisigConfig, MultisigError, MultisigEvent, Proposal,
};

verus! {

/// `initialize` succeeds exactly on a fresh vault with at least one signer
/// and a threshold between one and the number of signers; it then stores
/// those signers, that threshold and the token, with no proposal yet.
pub proof fn multisig_initialize_law(
    configured: bool,
    signers: Vec<Address>,
    threshold: u32,
    token: Address,
)
    requires
        signers.len() <= u32::MAX,
    ensures
        ({
            let r = initialize_spec(configured, signers, threshold, token);
            &&& r is Ok <==> !configured && signers.len() > 0 && 1 <= threshold <= signers.len()
            &&& configured ==> (r matches Err(MultisigError::AlreadyInitialized))
            &&& r matches Ok(t) ==> {
                &&& t.0.signers@ == signers@ && t.0.threshold == threshold && t.0.token == token
                &&& t.1 == 0
                &&& t.2 == seq![
                    MultisigEvent::Initialized { threshold, signers_count: signers.len() as u32 },
                ]
            }
        }),
{
}

/// `submit_proposal` succeeds exactly when a configured signer proposes. The
/// proposal gets the id after the stored count (one when no count is
/// stored), which becomes the new count; it holds the given action, is not
/// executed, was created at the ledger time, and counts one approval: the
/// proposer's own, which is what gets recorded. No tokens move.
pub proof fn multisig_submit_law(
    c: MultisigConfig,
    count: Option<u32>,
    caller: Address,
    action: MultisigAction,
    now: u64,
)
    ensures
        submit_proposal_spec(Some(c), count, caller, action, now) is Ok <==> c.signers@.contains(
            caller,
        ),
        submit_proposal_spec(None, count, caller, action, now) matches Err(
            MultisigError::NotInitialized,
        ),
        submit_proposal_spec(Some(c), count, caller, action, now) matches Ok(t) ==> {
            let id = t.2.unwrap().id;
            &&& (count is Some && count.unwrap() < u32::MAX) ==> id == count.unwrap() + 1
            &&& count is None ==> id == 1
            &&& t.1 == Some(id)
            &&& t.2 == Some(
                Proposal { id, action, approvals_count: 1, executed: false, created_at: now },
            )
            &&& t.3 == Some(Approval { proposal_id: id, signer: caller })
            &&& t.0 is None
            &&& t.4.len() == 0
            &&& t.5 == seq![
                MultisigEvent::ProposalCreated { proposal_id: id, proposer: caller },
                MultisigEvent::Approved { proposal_id: id, signer: caller },
            ]
        },
{
}

/// `approve_proposal` succeeds exactly when a configured signer who has not
/// approved yet approves a stored proposal that is not executed; the
/// proposal then counts one more approval, and the signer's approval of it
/// is recorded. No tokens move.
pub proof fn multisig_approve_law(
    c: MultisigConfig,
    p: Proposal,
    already_approved: bool,
    signer: Address,
    proposal_id: u32,
)
    ensures
        approve_proposal_spec(Some(c), Some(p), already_approved, signer, proposal_id) is Ok
            <==> c.signers@.contains(signer) && !p.executed && !already_approved,
        (c.signers@.contains(signer) && !p.executed && already_approved) ==> (approve_proposal_spec(
            Some(c),
            Some(p),
            already_approved,
            signer,
            proposal_id,
        ) matches Err(MultisigError::AlreadyApproved)),
        approve_proposal_spec(Some(c), Some(p), already_approved, signer, proposal_id) matches Ok(t)
            ==> {
            &&& p.approvals_count < u32::MAX ==> t.2 == Some(
                Proposal { approvals_count: (p.approvals_count + 1) as u32, ..p },
            )
            &&& t.3 == Some(Approval { proposal_id, signer })
            &&& t.0 is None && t.1 is None
            &&& t.4.len() == 0
            &&& t.5 == seq![MultisigEvent::Approved { proposal_id, signer }]
        },
{
}

/// `execute_proposal` succeeds exactly on a stored, not yet executed
/// proposal with at least the threshold of approvals whose action is valid:
/// a positive payment, or a new threshold between one and the number of
/// signers. The proposal is then marked executed. A release or refund pays
/// its amount to its recipient from the vault and leaves the configuration
/// alone; a threshold update moves no tokens and stores the configuration
/// with exactly the new threshold and the same signers and token.
pub proof fn multisig_execute_law(c: MultisigConfig, p: Proposal, proposal_id: u32)
    ensures
        execute_proposal_spec(Some(c), Some(p), proposal_id) is Ok <==> !p.executed
            && p.approvals_count >= c.threshold && match p.action {
            MultisigAction::Release { amount, .. } => amount > 0,
            MultisigAction::Refund { amount, .. } => amount > 0,
            MultisigAction::UpdateThreshold { new_threshold } => 1 <= new_threshold
                <= c.signers.len(),
        },
        (!p.executed && p.approvals_count < c.threshold) ==> (execute_proposal_spec(
            Some(c),
            Some(p),
            proposal_id,
        ) matches Err(MultisigError::ThresholdNotMet)),
        execute_proposal_spec(Some(c), Some(p), proposal_id) matches Ok(t) ==> {
            &&& t.2 == Some(Proposal { executed: true, ..p })
            &&& t.1 is None && t.3 is None
            &&& t.5 == seq![MultisigEvent::Executed { proposal_id }]
            &&& match p.action {
                MultisigAction::Release { to, amount } => t.4 == seq![
                    TokenTransfer::Outbound { to, amount },
                ] && t.0 is None,
                MultisigAction::Refund { to, amount } => t.4 == seq![
                    TokenTransfer::Outbound { to, amount },
                ] && t.0 is None,
                MultisigAction::UpdateThreshold { new_threshold } => t.4.len() == 0
                    && t.0 is Some && t.0.unwrap().threshold == new_threshold
                    && t.0.unwrap().signers == c.signers && t.0.unwrap().token == c.token,
            }
        },
{
}

/// Why each vault call is refused. `initialize`: a configuration is stored
/// already, or else there is no signer, or else the threshold is out of
/// range. Without a configuration, every later call is `NotInitialized`.
/// `submit_proposal`: the caller is not a signer. `approve_proposal`: not a
/// signer, or else no such proposal, or else it is executed, or else the
/// signer approved it already. `execute_proposal`: no such proposal, or else
/// it is executed, or else it lacks approvals, or else its payment is not
/// positive or its new threshold is out of range.
pub proof fn multisig_refusals(
    configured: bool,
    signers: Vec<Address>,
    threshold: u32,
    token: Address,
    c: MultisigConfig,
    count: Option<u32>,
    caller: Address,
    action: MultisigAction,
    now: u64,
    proposal: Option<Proposal>,
    already_approved: bool,
    proposal_id: u32,
)
    ensures
        initialize_spec(configured, signers, threshold, token) matches Err(err) ==> err
            == if configured {
            MultisigError::AlreadyInitialized
        } else if signers.len() == 0 {
            MultisigError::SignersEmpty
        } else {
            MultisigError::InvalidThreshold
        },
        approve_proposal_spec(None, proposal, already_approved, caller, proposal_id) matches Err(
            MultisigError::NotInitialized,
        ),
        execute_proposal_spec(None, proposal, proposal_id) matches Err(
            MultisigError::NotInitialized,
        ),
        submit_proposal_spec(Some(c), count, caller, action, now) matches Err(err) ==> err
            == MultisigError::NotSigner,
        approve_proposal_spec(Some(c), proposal, already_approved, caller, proposal_id) matches Err(
            err,
        ) ==> err == if !c.signers@.contains(caller) {
            MultisigError::NotSigner
        } else if proposal is None {
            MultisigError::ProposalNotFound
        } else if proposal.unwrap().executed {
            MultisigError::AlreadyExecuted
        } else {
            MultisigError::AlreadyApproved
        },
        execute_proposal_spec(Some(c), proposal, proposal_id) matches Err(err) ==> err
            == if proposal is None {
            MultisigError::ProposalNotFound
        } else if proposal.unwrap().executed {
            MultisigError::AlreadyExecuted
        } else if proposal.unwrap().approvals_count < c.threshold {
            MultisigError::ThresholdNotMet
        } else if proposal.unwrap().action is UpdateThreshold {
            MultisigError::InvalidThreshold
        } else {
            MultisigError::InvalidAmount
        },
{
}

/// The contract error codes, one per error, from 1 to 10 in this order:
/// AlreadyInitialized, NotInitialized, InvalidThreshold, NotSigner,
/// ProposalNotFound, AlreadyApproved, AlreadyExecuted, ThresholdNotMet,
/// InvalidAmount, SignersEmpty.
pub proof fn multisig_error_codes()
    ensures
        multisig_error_code(MultisigError::AlreadyInitialized) == 1,
        multisig_error_code(MultisigError::NotInitialized) == 2,
        multisig_error_code(MultisigError::InvalidThreshold) == 3,
        multisig_error_code(MultisigError::NotSigner) == 4,
        multisig_error_code(MultisigError::ProposalNotFound) == 5,
        multisig_error_code(MultisigError::AlreadyApproved) == 6,
        multisig_error_code(MultisigError::AlreadyExecuted) == 7,
        multisig_error_code(MultisigError::ThresholdNotMet) == 8,
        multisig_error_code(MultisigError::InvalidAmount) == 9,
        multisig_error_code(MultisigError::SignersEmpty) == 10,
{
}

} // verus!
