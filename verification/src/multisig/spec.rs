use vstd::prelude::*;

use crate::common::{Address, TokenTransfer};
use crate::multisig::types::{
    Approval, MultisigAction, MultisigConfig, MultisigError, MultisigEvent, MultisigSetupView,
    MultisigTransition, Proposal,
};

verus! {

/// `initialize`: set up the vault once, with at least one signer and a
/// threshold between one and the number of signers.
pub open spec fn initialize_spec(
    configured: bool,
    signers: Vec<Address>,
    threshold: u32,
    token: Address,
) -> Result<MultisigSetupView, MultisigError> {
    if configured {
        Err(MultisigError::AlreadyInitialized)
    } else if signers.len() == 0 {
        Err(MultisigError::SignersEmpty)
    } else if threshold == 0 || threshold > signers.len() {
        Err(MultisigError::InvalidThreshold)
    } else {
        Ok(
            (
                MultisigConfig { signers, threshold, token },
                0,
                seq![
                    MultisigEvent::Initialized {
                        threshold,
                        signers_count: signers.len() as u32,
                    },
                ],
            ),
        )
    }
}

/// `who` is one of the configured signers.
pub open spec fn is_signer_of(c: MultisigConfig, who: Address) -> bool {
    c.signers@.contains(who)
}

/// `submit_proposal` reaches its count increment and overflows `u32`.
pub open spec fn proposal_count_overflows(
    stored: Option<MultisigConfig>,
    count: Option<u32>,
    caller: Address,
) -> bool {
    &&& stored matches Some(c)
    &&& is_signer_of(c, caller)
    &&& count matches Some(n)
    &&& n == u32::MAX
}

/// The id of the next proposal.
pub open spec fn next_proposal_id(count: Option<u32>) -> u32 {
    match count {
        Some(n) => (n + 1) as u32,
        None => 1,
    }
}

/// `submit_proposal`: a signer proposes an action at ledger time `now`; the
/// proposal gets the next id and counts the proposer's approval.
pub open spec fn submit_proposal_spec(
    stored: Option<MultisigConfig>,
    count: Option<u32>,
    caller: Address,
    action: MultisigAction,
    now: u64,
) -> Result<MultisigTransition, MultisigError> {
    match stored {
        None => Err(MultisigError::NotInitialized),
        Some(c) => if !is_signer_of(c, caller) {
            Err(MultisigError::NotSigner)
        } else {
            let id = next_proposal_id(count);
            Ok(
                (
                    None,
                    Some(id),
                    Some(
                        Proposal {
                            id,
                            action,
                            approvals_count: 1,
                            executed: false,
                            created_at: now,
                        },
                    ),
                    Some(Approval { proposal_id: id, signer: caller }),
                    Seq::empty(),
                    seq![
                        MultisigEvent::ProposalCreated { proposal_id: id, proposer: caller },
                        MultisigEvent::Approved { proposal_id: id, signer: caller },
                    ],
                ),
            )
        },
    }
}

/// `approve_proposal` reaches its count increment and overflows `u32`.
pub open spec fn approval_count_overflows(
    stored: Option<MultisigConfig>,
    proposal: Option<Proposal>,
    already_approved: bool,
    signer: Address,
) -> bool {
    &&& stored matches Some(c)
    &&& is_signer_of(c, signer)
    &&& proposal matches Some(p)
    &&& !p.executed
    &&& !already_approved
    &&& p.approvals_count == u32::MAX
}

/// `approve_proposal`: a signer who has not approved a pending proposal yet
/// approves it. `already_approved` says whether the approval is recorded.
pub open spec fn approve_proposal_spec(
    stored: Option<MultisigConfig>,
    proposal: Option<Proposal>,
    already_approved: bool,
    signer: Address,
    proposal_id: u32,
) -> Result<MultisigTransition, MultisigError> {
    match stored {
        None => Err(MultisigError::NotInitialized),
        Some(c) => if !is_signer_of(c, signer) {
            Err(MultisigError::NotSigner)
        } else {
            match proposal {
                None => Err(MultisigError::ProposalNotFound),
                Some(p) => if p.executed {
                    Err(MultisigError::AlreadyExecuted)
                } else if already_approved {
                    Err(MultisigError::AlreadyApproved)
                } else {
                    Ok(
                        (
                            None,
                            None,
                            Some(
                                Proposal {
                                    approvals_count: (p.approvals_count + 1) as u32,
                                    ..p
                                },
                            ),
                            Some(Approval { proposal_id, signer }),
                            Seq::empty(),
                            seq![MultisigEvent::Approved { proposal_id, signer }],
                        ),
                    )
                },
            }
        },
    }
}

/// `execute_proposal`: anyone carries out a pending proposal that has
/// reached the threshold. A payment must be positive; a new threshold must
/// be between one and the number of signers.
pub open spec fn execute_proposal_spec(
    stored: Option<MultisigConfig>,
    proposal: Option<Proposal>,
    proposal_id: u32,
) -> Result<MultisigTransition, MultisigError> {
    match stored {
        None => Err(MultisigError::NotInitialized),
        Some(c) => match proposal {
            None => Err(MultisigError::ProposalNotFound),
            Some(p) => if p.executed {
                Err(MultisigError::AlreadyExecuted)
            } else if p.approvals_count < c.threshold {
                Err(MultisigError::ThresholdNotMet)
            } else {
                match p.action {
                    MultisigAction::Release { to, amount } | MultisigAction::Refund {
                        to,
                        amount,
                    } => if amount <= 0 {
                        Err(MultisigError::InvalidAmount)
                    } else {
                        Ok(
                            (
                                None,
                                None,
                                Some(Proposal { executed: true, ..p }),
                                None,
                                seq![TokenTransfer::Outbound { to, amount }],
                                seq![MultisigEvent::Executed { proposal_id }],
                            ),
                        )
                    },
                    MultisigAction::UpdateThreshold { new_threshold } => if new_threshold == 0
                        || new_threshold > c.signers.len() {
                        Err(MultisigError::InvalidThreshold)
                    } else {
                        Ok(
                            (
                                Some(MultisigConfig { threshold: new_threshold, ..c }),
                                None,
                                Some(Proposal { executed: true, ..p }),
                                None,
                                Seq::empty(),
                                seq![MultisigEvent::Executed { proposal_id }],
                            ),
                        )
                    },
                }
            },
        },
    }
}

} // verus!
