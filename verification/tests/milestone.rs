use std::collections::HashMap;

use escrow_toolkit::common::{Address, AddressKind, TokenTransfer};
use escrow_toolkit::milestone::types::{
    Milestone, MilestoneError, MilestoneEscrow, MilestoneEscrowContract, MilestoneEvent,
    MilestoneInit, MilestoneOutcome, MilestoneStatus,
};

fn account(n: u128) -> Address {
    Address { kind: AddressKind::Account, key_high: 0, key_low: n }
}

fn contract_address() -> Address {
    Address { kind: AddressKind::Contract, key_high: 7, key_low: 7 }
}

fn token_address() -> Address {
    Address { kind: AddressKind::Contract, key_high: 9, key_low: 9 }
}

/// The contract's storage and the token balances around it.
struct World {
    balances: HashMap<Address, i128>,
    config: Option<MilestoneEscrow>,
    milestones: HashMap<u32, Milestone>,
}

impl World {
    fn new() -> World {
        World { balances: HashMap::new(), config: None, milestones: HashMap::new() }
    }

    fn mint(&mut self, to: &Address, amount: i128) {
        *self.balances.entry(*to).or_insert(0) += amount;
    }

    fn balance(&self, who: &Address) -> i128 {
        *self.balances.get(who).unwrap_or(&0)
    }

    fn milestone(&self, id: u32) -> Option<Milestone> {
        self.milestones.get(&id).copied()
    }

    fn commit(&mut self, id: u32, out: MilestoneOutcome) {
        let contract = contract_address();
        for t in &out.transfers {
            match *t {
                TokenTransfer::Inbound { from, amount } => {
                    assert!(self.balance(&from) >= amount);
                    self.mint(&from, -amount);
                    self.mint(&contract, amount);
                }
                TokenTransfer::Outbound { to, amount } => {
                    assert!(self.balance(&contract) >= amount);
                    self.mint(&contract, -amount);
                    self.mint(&to, amount);
                }
            }
        }
        if let Some(c) = out.config {
            self.config = Some(c);
        }
        if let Some(m) = out.milestone {
            self.milestones.insert(id, m);
        }
    }

    fn initialize(&mut self, client: Address, contractor: Address, arbiter: Option<Address>, inits: Vec<MilestoneInit>) {
        let setup = MilestoneEscrowContract::initialize(self.config.is_some(), client, contractor, arbiter, token_address(), inits)
            .unwrap();
        for m in setup.milestones {
            self.milestones.insert(m.id, m);
        }
        self.config = Some(setup.config);
    }
}

fn init(id: u32, hash: u8, amount: i128) -> MilestoneInit {
    MilestoneInit { id, description_hash: [hash; 32], amount }
}

#[test]
fn test_milestone_lifecycle() {
    let mut w = World::new();
    let client_addr = account(1);
    let contractor = account(2);
    let arbiter = account(3);

    let milestones = vec![init(1, 10, 300_000), init(2, 20, 700_000)];
    w.mint(&client_addr, 1_000_000);
    w.initialize(client_addr, contractor, Some(arbiter), milestones);

    let config = MilestoneEscrowContract::get_config(w.config).unwrap();
    assert_eq!(config.total_amount, 1_000_000);
    assert_eq!(config.is_funded, false);

    // Deposit funds
    let out = MilestoneEscrowContract::deposit(w.config, client_addr).unwrap();
    w.commit(0, out);
    assert_eq!(w.balance(&contract_address()), 1_000_000);

    // Submit Milestone 1
    let proof1 = [99u8; 32];
    let out = MilestoneEscrowContract::submit_milestone(w.config, w.milestone(1), contractor, 1, proof1, 0).unwrap();
    w.commit(1, out);

    let m1 = MilestoneEscrowContract::get_milestone(w.milestone(1)).unwrap();
    assert_eq!(m1.status, MilestoneStatus::Submitted);
    assert_eq!(m1.proof_hash, Some(proof1));

    // Client approves Milestone 1
    let out = MilestoneEscrowContract::approve_and_release(w.config, w.milestone(1), client_addr, 1, 0).unwrap();
    w.commit(1, out);

    assert_eq!(w.balance(&contractor), 300_000);
    assert_eq!(w.balance(&contract_address()), 700_000);

    let m1_released = MilestoneEscrowContract::get_milestone(w.milestone(1)).unwrap();
    assert_eq!(m1_released.status, MilestoneStatus::Released);

    // Submit Milestone 2
    let proof2 = [88u8; 32];
    let out = MilestoneEscrowContract::submit_milestone(w.config, w.milestone(2), contractor, 2, proof2, 0).unwrap();
    w.commit(2, out);

    // Dispute Milestone 2
    let out = MilestoneEscrowContract::dispute_milestone(w.config, w.milestone(2), client_addr, 2).unwrap();
    w.commit(2, out);
    let m2_disputed = MilestoneEscrowContract::get_milestone(w.milestone(2)).unwrap();
    assert_eq!(m2_disputed.status, MilestoneStatus::Disputed);

    // Arbiter resolves dispute in favor of contractor
    let out = MilestoneEscrowContract::resolve_milestone(w.config, w.milestone(2), arbiter, 2, true).unwrap();
    w.commit(2, out);

    assert_eq!(w.balance(&contractor), 1_000_000);
    assert_eq!(w.balance(&contract_address()), 0);
}

#[test]
fn milestone_initialize_rejections() {
    let call = |configured: bool, inits: Vec<MilestoneInit>| {
        MilestoneEscrowContract::initialize(configured, account(1), account(2), None, token_address(), inits).err()
    };
    assert_eq!(call(true, vec![init(1, 0, 5)]), Some(MilestoneError::AlreadyInitialized));
    assert_eq!(call(false, vec![]), Some(MilestoneError::InvalidMilestoneCount));
    assert_eq!(call(false, vec![init(1, 0, 5), init(2, 0, 0)]), Some(MilestoneError::AmountMismatch));
    assert_eq!(call(false, vec![init(1, 0, -3)]), Some(MilestoneError::AmountMismatch));
    assert_eq!(
        call(false, vec![init(1, 0, i128::MAX), init(2, 0, 1)]),
        Some(MilestoneError::AmountMismatch)
    );
    assert_eq!(call(false, vec![init(1, 0, i128::MAX - 1), init(2, 0, 1)]), None);
    // Two milestones under one id are refused; amount errors come first.
    assert_eq!(
        call(false, vec![init(1, 0, 5), init(2, 0, 6), init(1, 1, 7)]),
        Some(MilestoneError::DuplicateMilestone)
    );
    assert_eq!(call(false, vec![init(3, 0, 5), init(3, 0, 0)]), Some(MilestoneError::AmountMismatch));
}

#[test]
fn initialize_stores_pending_milestones() {
    let setup = MilestoneEscrowContract::initialize(
        false,
        account(1),
        account(2),
        None,
        token_address(),
        vec![init(5, 1, 10), init(6, 2, 20)],
    )
    .unwrap();
    assert_eq!(setup.config.total_amount, 30);
    assert_eq!(setup.config.milestone_count, 2);
    assert_eq!(setup.config.released_amount, 0);
    assert_eq!(setup.milestones.len(), 2);
    assert_eq!(
        setup.milestones[1],
        Milestone {
            id: 6,
            description_hash: [2u8; 32],
            amount: 20,
            status: MilestoneStatus::Pending,
            proof_hash: None,
            submitted_at: 0,
            approved_at: 0,
        }
    );
    assert_eq!(
        setup.events,
        vec![MilestoneEvent::Initialized { client: account(1), contractor: account(2), total_amount: 30, count: 2 }]
    );
}

fn funded_world(arbiter: Option<Address>) -> World {
    let mut w = World::new();
    w.mint(&account(1), 100);
    w.initialize(account(1), account(2), arbiter, vec![init(1, 0, 40), init(2, 0, 60)]);
    let out = MilestoneEscrowContract::deposit(w.config, account(1)).unwrap();
    assert_eq!(out.transfers, vec![TokenTransfer::Inbound { from: account(1), amount: 100 }]);
    assert!(out.events.is_empty());
    w.commit(0, out);
    w
}

#[test]
fn deposit_and_submit_rejections() {
    assert_eq!(MilestoneEscrowContract::deposit(None, account(1)).err(), Some(MilestoneError::NotInitialized));
    let mut w = World::new();
    w.initialize(account(1), account(2), None, vec![init(1, 0, 40)]);
    assert_eq!(
        MilestoneEscrowContract::submit_milestone(w.config, w.milestone(1), account(2), 1, [0u8; 32], 0).err(),
        Some(MilestoneError::NotFunded)
    );
    let w = funded_world(None);
    assert_eq!(MilestoneEscrowContract::deposit(w.config, account(1)).err(), Some(MilestoneError::AlreadyFunded));
    assert_eq!(
        MilestoneEscrowContract::submit_milestone(w.config, w.milestone(1), account(1), 1, [0u8; 32], 0).err(),
        Some(MilestoneError::Unauthorized)
    );
    assert_eq!(
        MilestoneEscrowContract::submit_milestone(w.config, w.milestone(9), account(2), 9, [0u8; 32], 0).err(),
        Some(MilestoneError::MilestoneNotFound)
    );
    let out = MilestoneEscrowContract::submit_milestone(w.config, w.milestone(1), account(2), 1, [5u8; 32], 33).unwrap();
    assert_eq!(out.config, None);
    assert_eq!(out.milestone.unwrap().submitted_at, 33);
    assert_eq!(out.events, vec![MilestoneEvent::Submitted { milestone_id: 1, proof_hash: [5u8; 32] }]);
    assert_eq!(
        MilestoneEscrowContract::submit_milestone(w.config, out.milestone, account(2), 1, [5u8; 32], 34).err(),
        Some(MilestoneError::InvalidMilestoneStatus)
    );
}

#[test]
fn approve_dispute_and_resolve_rejections() {
    let mut w = funded_world(Some(account(3)));
    assert_eq!(
        MilestoneEscrowContract::approve_and_release(w.config, w.milestone(1), account(2), 1, 0).err(),
        Some(MilestoneError::Unauthorized)
    );
    assert_eq!(
        MilestoneEscrowContract::approve_and_release(w.config, w.milestone(1), account(1), 1, 0).err(),
        Some(MilestoneError::InvalidMilestoneStatus)
    );
    assert_eq!(
        MilestoneEscrowContract::dispute_milestone(w.config, w.milestone(1), account(3), 1).err(),
        Some(MilestoneError::Unauthorized)
    );
    assert_eq!(
        MilestoneEscrowContract::resolve_milestone(w.config, w.milestone(1), account(1), 1, true).err(),
        Some(MilestoneError::Unauthorized)
    );
    assert_eq!(
        MilestoneEscrowContract::resolve_milestone(w.config, w.milestone(1), account(3), 1, true).err(),
        Some(MilestoneError::InvalidMilestoneStatus)
    );
    let out = MilestoneEscrowContract::submit_milestone(w.config, w.milestone(1), account(2), 1, [0u8; 32], 0).unwrap();
    w.commit(1, out);
    let out = MilestoneEscrowContract::dispute_milestone(w.config, w.milestone(1), account(2), 1).unwrap();
    assert_eq!(out.events, vec![MilestoneEvent::Disputed { milestone_id: 1, by: account(2) }]);
    w.commit(1, out);
    // Refunded to the client: the milestone is cancelled and nothing counts as released.
    let out = MilestoneEscrowContract::resolve_milestone(w.config, w.milestone(1), account(3), 1, false).unwrap();
    assert_eq!(out.transfers, vec![TokenTransfer::Outbound { to: account(1), amount: 40 }]);
    assert_eq!(out.events, vec![MilestoneEvent::Resolved { milestone_id: 1, approved: false }]);
    w.commit(1, out);
    assert_eq!(w.milestone(1).unwrap().status, MilestoneStatus::Cancelled);
    assert_eq!(w.config.unwrap().released_amount, 0);
    assert_eq!(w.balance(&account(1)), 40);
    assert_eq!(w.balance(&contract_address()), 60);
    // A settled milestone cannot be disputed or resolved again.
    assert!(MilestoneEscrowContract::dispute_milestone(w.config, w.milestone(1), account(1), 1).is_err());
    assert!(MilestoneEscrowContract::resolve_milestone(w.config, w.milestone(1), account(3), 1, true).is_err());
}

#[test]
fn dispute_needs_an_arbiter() {
    let mut w = funded_world(None);
    let out = MilestoneEscrowContract::submit_milestone(w.config, w.milestone(1), account(2), 1, [0u8; 32], 0).unwrap();
    w.commit(1, out);
    assert_eq!(
        MilestoneEscrowContract::dispute_milestone(w.config, w.milestone(1), account(1), 1).err(),
        Some(MilestoneError::ArbiterRequired)
    );
    let out = MilestoneEscrowContract::approve_and_release(w.config, w.milestone(1), account(1), 1, 77).unwrap();
    assert_eq!(
        out.events,
        vec![
            MilestoneEvent::Approved { milestone_id: 1, by: account(1) },
            MilestoneEvent::Released { milestone_id: 1, to: account(2), amount: 40 },
        ]
    );
    assert_eq!(out.milestone.unwrap().approved_at, 77);
    assert_eq!(out.config.unwrap().released_amount, 40);
}

#[test]
fn milestone_getters_and_codes() {
    assert_eq!(MilestoneEscrowContract::get_config(None).err(), Some(MilestoneError::NotInitialized));
    assert_eq!(MilestoneEscrowContract::get_milestone(None).err(), Some(MilestoneError::MilestoneNotFound));
    assert_eq!(MilestoneError::AllMilestonesProcessed.code(), 11);
    assert_eq!(MilestoneError::AmountMismatch.code(), 4);
    assert_eq!(MilestoneError::DuplicateMilestone.code(), 12);
}
