use std::collections::HashMap;

use escrow_toolkit::common::{Address, AddressKind, TokenTransfer};
use escrow_toolkit::multisig::types::{
    Approval, MultisigAction, MultisigConfig, MultisigError, MultisigEscrowContract,
    MultisigEvent, MultisigOutcome, Proposal,
};

fn account(n: u128) -> Address {
    Address { kind: AddressKind::Account, key_high: 0, key_low: n }
}

fn contract_address() -> Address {
    Address { kind: AddressKind::Contract, key_high: 7, key_low: 7 }
}

fn token_address() -> Address {
    Address { kind: AddressKind::Contract, key_high: 9, key_low: 9 }
}

/// The vault's storage and the token balances around it.
struct World {
    balances: HashMap<Address, i128>,
    config: Option<MultisigConfig>,
    count: Option<u32>,
    proposals: HashMap<u32, Proposal>,
    approvals: Vec<Approval>,
}

impl World {
    fn new() -> World {
        World { balances: HashMap::new(), config: None, count: None, proposals: HashMap::new(), approvals: Vec::new() }
    }

    fn mint(&mut self, to: &Address, amount: i128) {
        *self.balances.entry(*to).or_insert(0) += amount;
    }

    fn balance(&self, who: &Address) -> i128 {
        *self.balances.get(who).unwrap_or(&0)
    }

    fn proposal(&self, id: u32) -> Option<Proposal> {
        self.proposals.get(&id).copied()
    }

    fn approved(&self, id: u32, signer: &Address) -> bool {
        self.approvals.contains(&Approval { proposal_id: id, signer: *signer })
    }

    fn initialize(&mut self, signers: Vec<Address>, threshold: u32) -> Result<(), MultisigError> {
        let setup = MultisigEscrowContract::initialize(self.config.is_some(), signers, threshold, token_address())?;
        self.config = Some(setup.config);
        self.count = Some(setup.proposal_count);
        Ok(())
    }

    fn commit(&mut self, out: MultisigOutcome) {
        let contract = contract_address();
        for t in &out.transfers {
            if let TokenTransfer::Outbound { to, amount } = *t {
                assert!(self.balance(&contract) >= amount);
                self.mint(&contract, -amount);
                self.mint(&to, amount);
            }
        }
        if let Some(c) = out.config {
            self.config = Some(c);
        }
        if let Some(n) = out.proposal_count {
            self.count = Some(n);
        }
        if let Some(p) = out.proposal {
            self.proposals.insert(p.id, p);
        }
        if let Some(a) = out.approval {
            self.approvals.push(a);
        }
    }

    fn submit(&mut self, caller: Address, action: MultisigAction) -> Result<u32, MultisigError> {
        let out = MultisigEscrowContract::submit_proposal(self.config.clone(), self.count, caller, action, 0)?;
        let id = out.proposal.unwrap().id;
        self.commit(out);
        Ok(id)
    }

    fn approve(&mut self, signer: Address, id: u32) -> Result<(), MultisigError> {
        let out = MultisigEscrowContract::approve_proposal(
            self.config.clone(),
            self.proposal(id),
            self.approved(id, &signer),
            signer,
            id,
        )?;
        self.commit(out);
        Ok(())
    }

    fn execute(&mut self, id: u32) -> Result<(), MultisigError> {
        let out = MultisigEscrowContract::execute_proposal(self.config.clone(), self.proposal(id), id)?;
        self.commit(out);
        Ok(())
    }
}

#[test]
fn test_multisig_2_of_3_release() {
    let mut w = World::new();
    let s1 = account(1);
    let s2 = account(2);
    let s3 = account(3);
    let recipient = account(4);

    w.initialize(vec![s1, s2, s3], 2).unwrap();

    // Fund the multisig contract
    w.mint(&contract_address(), 500_000);

    // Signer 1 submits proposal to release 500k to recipient
    let prop_id = w.submit(s1, MultisigAction::Release { to: recipient, amount: 500_000 }).unwrap();

    // Try executing with only 1 approval -> fails
    let err = w.execute(prop_id);
    assert!(err.is_err());

    // Signer 2 approves
    w.approve(s2, prop_id).unwrap();

    // Now execute proposal
    w.execute(prop_id).unwrap();

    assert_eq!(w.balance(&recipient), 500_000);
    assert_eq!(w.balance(&contract_address()), 0);

    let prop = MultisigEscrowContract::get_proposal(w.proposal(prop_id)).unwrap();
    assert_eq!(prop.executed, true);
    assert_eq!(prop.approvals_count, 2);
}

#[test]
fn multisig_initialize_rejections() {
    let mut w = World::new();
    assert_eq!(w.initialize(vec![], 1), Err(MultisigError::SignersEmpty));
    assert_eq!(w.initialize(vec![account(1)], 0), Err(MultisigError::InvalidThreshold));
    assert_eq!(w.initialize(vec![account(1)], 2), Err(MultisigError::InvalidThreshold));
    let setup = MultisigEscrowContract::initialize(false, vec![account(1), account(2)], 2, token_address()).unwrap();
    assert_eq!(setup.proposal_count, 0);
    assert_eq!(setup.events, vec![MultisigEvent::Initialized { threshold: 2, signers_count: 2 }]);
    w.initialize(vec![account(1)], 1).unwrap();
    assert_eq!(w.initialize(vec![account(1)], 1), Err(MultisigError::AlreadyInitialized));
}

#[test]
fn proposals_get_sequential_ids_and_approval_rules() {
    let mut w = World::new();
    assert_eq!(w.submit(account(1), MultisigAction::UpdateThreshold { new_threshold: 1 }), Err(MultisigError::NotInitialized));
    w.initialize(vec![account(1), account(2), account(3)], 2).unwrap();
    assert_eq!(w.submit(account(9), MultisigAction::UpdateThreshold { new_threshold: 1 }), Err(MultisigError::NotSigner));
    let out = MultisigEscrowContract::submit_proposal(w.config.clone(), w.count, account(1), MultisigAction::UpdateThreshold { new_threshold: 3 }, 12).unwrap();
    assert_eq!(
        out.events,
        vec![
            MultisigEvent::ProposalCreated { proposal_id: 1, proposer: account(1) },
            MultisigEvent::Approved { proposal_id: 1, signer: account(1) },
        ]
    );
    assert_eq!(out.proposal.unwrap().created_at, 12);
    w.commit(out);
    assert_eq!(w.submit(account(2), MultisigAction::Refund { to: account(5), amount: 0 }), Ok(2));
    assert_eq!(w.count, Some(2));
    assert_eq!(w.approve(account(1), 1), Err(MultisigError::AlreadyApproved));
    assert_eq!(w.approve(account(9), 1), Err(MultisigError::NotSigner));
    assert_eq!(w.approve(account(2), 7), Err(MultisigError::ProposalNotFound));
    assert_eq!(w.execute(7), Err(MultisigError::ProposalNotFound));
    w.approve(account(3), 2).unwrap();
    // A refund of nothing is refused at execution.
    assert_eq!(w.execute(2), Err(MultisigError::InvalidAmount));
    w.approve(account(2), 1).unwrap();
    w.execute(1).unwrap();
    assert_eq!(w.config.as_ref().unwrap().threshold, 3);
    assert_eq!(w.execute(1), Err(MultisigError::AlreadyExecuted));
    assert_eq!(w.approve(account(3), 1), Err(MultisigError::AlreadyExecuted));
}

#[test]
fn threshold_updates_must_stay_within_signers() {
    let mut w = World::new();
    w.initialize(vec![account(1), account(2)], 1).unwrap();
    let id = w.submit(account(1), MultisigAction::UpdateThreshold { new_threshold: 3 }).unwrap();
    assert_eq!(w.execute(id), Err(MultisigError::InvalidThreshold));
    let id = w.submit(account(1), MultisigAction::UpdateThreshold { new_threshold: 0 }).unwrap();
    assert_eq!(w.execute(id), Err(MultisigError::InvalidThreshold));
    let id = w.submit(account(2), MultisigAction::UpdateThreshold { new_threshold: 2 }).unwrap();
    let out = MultisigEscrowContract::execute_proposal(w.config.clone(), w.proposal(id), id).unwrap();
    assert!(out.transfers.is_empty());
    assert_eq!(out.events, vec![MultisigEvent::Executed { proposal_id: id }]);
    assert_eq!(out.config.as_ref().unwrap().threshold, 2);
    assert_eq!(out.config.as_ref().unwrap().signers, vec![account(1), account(2)]);
    w.commit(out);
    let id = w.submit(account(1), MultisigAction::Refund { to: account(4), amount: 5 }).unwrap();
    assert_eq!(w.execute(id), Err(MultisigError::ThresholdNotMet));
}

#[test]
fn refund_pays_out_of_the_vault() {
    let mut w = World::new();
    w.initialize(vec![account(1)], 1).unwrap();
    w.mint(&contract_address(), 30);
    let id = w.submit(account(1), MultisigAction::Refund { to: account(6), amount: 30 }).unwrap();
    let out = MultisigEscrowContract::execute_proposal(w.config.clone(), w.proposal(id), id).unwrap();
    assert_eq!(out.transfers, vec![TokenTransfer::Outbound { to: account(6), amount: 30 }]);
    assert_eq!(out.config, None);
    w.commit(out);
    assert_eq!(w.balance(&account(6)), 30);
    assert_eq!(w.balance(&contract_address()), 0);
}

#[test]
fn getters_and_codes() {
    assert_eq!(MultisigEscrowContract::get_config(None).err(), Some(MultisigError::NotInitialized));
    assert_eq!(MultisigEscrowContract::get_proposal(None).err(), Some(MultisigError::ProposalNotFound));
    assert_eq!(MultisigError::SignersEmpty.code(), 10);
    assert_eq!(MultisigError::ThresholdNotMet.code(), 8);
}
