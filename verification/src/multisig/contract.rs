use vstd::prelude::*;

use crate::common::{Address, TokenTransfer};
use crate::multisig::spec::{
    approval_count_overflows, approve_proposal_spec, execute_proposal_spec, initialize_spec,
    proposal_count_overflows, submit_proposal_spec,
};
use crate::multisig::types::{
    multisig_result_view, multisig_setup_result_view, Approval, MultisigAction, MultisigConfig,
    MultisigError, MultisigEscrowContract, MultisigEvent, MultisigOutcome, MultisigSetup,
    Proposal,
};

verus! {

impl MultisigEscrowContract {
    /// Initializes an M-of-N multisig vault. `configured` says whether a
    /// configuration is stored already.
    pub fn initialize(
        configured: bool,
        signers: Vec<Address>,
        threshold: u32,
        token: Address,
    ) -> (r: Result<MultisigSetup, MultisigError>)
        requires
            signers.len() <= u32::MAX,
        ensures
            multisig_setup_result_view(r) == initialize_spec(configured, signers, threshold, token),
    {
        if configured {
            return Err(MultisigError::AlreadyInitialized);
        }
        let count = signers.len();
        if count == 0 {
            return Err(MultisigError::SignersEmpty);
        }
        if threshold == 0 || threshold as usize > count {
            return Err(MultisigError::InvalidThreshold);
        }
        let signers_count = count as u32;
        let mut events = Vec::new();
        events.push(MultisigEvent::Initialized { threshold, signers_count });
        Ok(
            MultisigSetup {
                config: MultisigConfig { signers, threshold, token },
                proposal_count: 0,
                events,
            },
        )
    }

    /// Submits a new release, refund or threshold proposal. `count` is the
    /// stored proposal count; `now` is the ledger time. The new proposal's id
    /// is the proposal's `id` in the outcome.
    pub fn submit_proposal(
        stored: Option<MultisigConfig>,
        count: Option<u32>,
        caller: Address,
        action: MultisigAction,
        now: u64,
    ) -> (r: Result<MultisigOutcome, MultisigError>)
        requires
            !proposal_count_overflows(stored, count, caller),
        ensures
            multisig_result_view(r) == submit_proposal_spec(stored, count, caller, action, now),
    {
        let config = match stored {
            Some(c) => c,
            None => return Err(MultisigError::NotInitialized),
        };
        if !Self::is_signer(&config.signers, &caller) {
            return Err(MultisigError::NotSigner);
        }
        let mut id: u32 = match count {
            Some(n) => n,
            None => 0,
        };
        id = id + 1;
        let proposal = Proposal {
            id,
            action,
            approvals_count: 1,
            executed: false,
            created_at: now,
        };
        let mut events = Vec::new();
        events.push(MultisigEvent::ProposalCreated { proposal_id: id, proposer: caller });
        events.push(MultisigEvent::Approved { proposal_id: id, signer: caller });
        let out = MultisigOutcome {
            config: None,
            proposal_count: Some(id),
            proposal: Some(proposal),
            approval: Some(Approval { proposal_id: id, signer: caller }),
            transfers: Vec::new(),
            events,
        };
        assert(out@.5 =~= seq![
            MultisigEvent::ProposalCreated { proposal_id: id, proposer: caller },
            MultisigEvent::Approved { proposal_id: id, signer: caller },
        ]);
        Ok(out)
    }

    /// Approves an existing proposal. `proposal` is the proposal stored under
    /// `proposal_id`; `already_approved` says whether `signer`'s approval of
    /// it is recorded.
    pub fn approve_proposal(
        stored: Option<MultisigConfig>,
        proposal: Option<Proposal>,
        already_approved: bool,
        signer: Address,
        proposal_id: u32,
    ) -> (r: Result<MultisigOutcome, MultisigError>)
        requires
            !approval_count_overflows(stored, proposal, already_approved, signer),
        ensures
            multisig_result_view(r) == approve_proposal_spec(
                stored,
                proposal,
                already_approved,
                signer,
                proposal_id,
            ),
    {
        let config = match stored {
            Some(c) => c,
            None => return Err(MultisigError::NotInitialized),
        };
        if !Self::is_signer(&config.signers, &signer) {
            return Err(MultisigError::NotSigner);
        }
        let mut p = match proposal {
            Some(p) => p,
            None => return Err(MultisigError::ProposalNotFound),
        };
        if p.executed {
            return Err(MultisigError::AlreadyExecuted);
        }
        if already_approved {
            return Err(MultisigError::AlreadyApproved);
        }
        p.approvals_count = p.approvals_count + 1;
        let mut events = Vec::new();
        events.push(MultisigEvent::Approved { proposal_id, signer });
        let out = MultisigOutcome {
            config: None,
            proposal_count: None,
            proposal: Some(p),
            approval: Some(Approval { proposal_id, signer }),
            transfers: Vec::new(),
            events,
        };
        Ok(out)
    }

    /// Executes a proposal that has reached the threshold. `proposal` is the
    /// proposal stored under `proposal_id`. Any authorized caller may execute.
    pub fn execute_proposal(
        stored: Option<MultisigConfig>,
        proposal: Option<Proposal>,
        proposal_id: u32,
    ) -> (r: Result<MultisigOutcome, MultisigError>)
        ensures
            multisig_result_view(r) == execute_proposal_spec(stored, proposal, proposal_id),
    {
        let mut config = match stored {
            Some(c) => c,
            None => return Err(MultisigError::NotInitialized),
        };
        let mut p = match proposal {
            Some(p) => p,
            None => return Err(MultisigError::ProposalNotFound),
        };
        if p.executed {
            return Err(MultisigError::AlreadyExecuted);
        }
        if p.approvals_count < config.threshold {
            return Err(MultisigError::ThresholdNotMet);
        }
        let mut transfers = Vec::new();
        let mut new_config = None;
        match p.action {
            MultisigAction::Release { to, amount } => {
                if amount <= 0 {
                    return Err(MultisigError::InvalidAmount);
                }
                transfers.push(TokenTransfer::Outbound { to, amount });
            },
            MultisigAction::Refund { to, amount } => {
                if amount <= 0 {
                    return Err(MultisigError::InvalidAmount);
                }
                transfers.push(TokenTransfer::Outbound { to, amount });
            },
            MultisigAction::UpdateThreshold { new_threshold } => {
                if new_threshold == 0 || new_threshold as usize > config.signers.len() {
                    return Err(MultisigError::InvalidThreshold);
                }
                config.threshold = new_threshold;
                new_config = Some(config);
            },
        }
        p.executed = true;
        let mut events = Vec::new();
        events.push(MultisigEvent::Executed { proposal_id });
        let out = MultisigOutcome {
            config: new_config,
            proposal_count: None,
            proposal: Some(p),
            approval: None,
            transfers,
            events,
        };
        Ok(out)
    }

    /// Whether `submit_proposal` would reach its count increment and overflow,
    /// where the contract traps instead of answering.
    pub fn submit_proposal_overflows(
        stored: &Option<MultisigConfig>,
        count: Option<u32>,
        caller: &Address,
    ) -> (r: bool)
        ensures
            r == proposal_count_overflows(*stored, count, *caller),
    {
        match stored {
            Some(c) => Self::is_signer(&c.signers, caller) && count == Some(u32::MAX),
            None => false,
        }
    }

    /// Whether `approve_proposal` would reach its count increment and
    /// overflow, where the contract traps instead of answering.
    pub fn approve_proposal_overflows(
        stored: &Option<MultisigConfig>,
        proposal: Option<Proposal>,
        already_approved: bool,
        signer: &Address,
    ) -> (r: bool)
        ensures
            r == approval_count_overflows(*stored, proposal, already_approved, *signer),
    {
        match (stored, proposal) {
            (Some(c), Some(p)) => Self::is_signer(&c.signers, signer) && !p.executed
                && !already_approved && p.approvals_count == u32::MAX,
            _ => false,
        }
    }

    /// The stored proposal, if there is one under the requested id.
    pub fn get_proposal(proposal: Option<Proposal>) -> (r: Result<Proposal, MultisigError>)
        ensures
            r == (match proposal {
                Some(p) => Ok(p),
                None => Err(MultisigError::ProposalNotFound),
            }),
    {
        match proposal {
            Some(p) => Ok(p),
            None => Err(MultisigError::ProposalNotFound),
        }
    }

    /// The stored configuration, if the vault was initialized.
    pub fn get_config(stored: Option<MultisigConfig>) -> (r: Result<MultisigConfig, MultisigError>)
        ensures
            r == (match stored {
                Some(c) => Ok(c),
                None => Err(MultisigError::NotInitialized),
            }),
    {
        match stored {
            Some(c) => Ok(c),
            None => Err(MultisigError::NotInitialized),
        }
    }

    /// Whether `target` is one of `signers`.
    fn is_signer(signers: &Vec<Address>, target: &Address) -> (r: bool)
        ensures
            r == signers@.contains(*target),
    {
        let mut i: usize = 0;
        while i < signers.len()
            invariant
                0 <= i <= signers.len(),
                forall|j: int| 0 <= j < i ==> signers@[j] != *target,
            decreases signers.len() - i,
        {
            if signers[i] == *target {
                assert(signers@[i as int] == *target);
                return true;
            }
            i = i + 1;
        }
        false
    }
}

} // verus!
