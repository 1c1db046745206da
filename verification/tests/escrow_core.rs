use std::collections::HashMap;

use escrow_toolkit::common::{Address, AddressKind, TokenTransfer};
use escrow_toolkit::escrow_core::types::{
    Escrow, EscrowContract, EscrowError, EscrowEvent, EscrowOutcome, EscrowStatus,
};

fn account(n: u128) -> Address {
    Address { kind: AddressKind::Account, key_high: 0, key_low: n }
}

fn contract_address() -> Address {
    Address { kind: AddressKind::Contract, key_high: 7, key_low: 7 }
}

fn token_address() -> Address {
    Address { kind: AddressKind::Contract, key_high: 9, key_low: 9 }
}

/// Token balances, moved by the transfers the contract asks for.
struct Ledger {
    balances: HashMap<Address, i128>,
}

impl Ledger {
    fn new() -> Ledger {
        Ledger { balances: HashMap::new() }
    }

    fn mint(&mut self, to: &Address, amount: i128) {
        *self.balances.entry(*to).or_insert(0) += amount;
    }

    fn balance(&self, who: &Address) -> i128 {
        *self.balances.get(who).unwrap_or(&0)
    }

    fn apply(&mut self, transfers: &[TokenTransfer]) {
        let contract = contract_address();
        for t in transfers {
            match *t {
                TokenTransfer::Inbound { from, amount } => {
                    assert!(self.balance(&from) >= amount, "insufficient balance");
                    self.mint(&from, -amount);
                    self.mint(&contract, amount);
                }
                TokenTransfer::Outbound { to, amount } => {
                    assert!(self.balance(&contract) >= amount, "insufficient balance");
                    self.mint(&contract, -amount);
                    self.mint(&to, amount);
                }
            }
        }
    }
}

/// Carries out a successful call: moves the tokens and stores the escrow.
fn commit(ledger: &mut Ledger, stored: &mut Option<Escrow>, out: EscrowOutcome) {
    ledger.apply(&out.transfers);
    *stored = Some(out.escrow);
}

fn setup(id: u64, arbiter: Option<Address>, amount: i128, deadline: u64, hash: u8) -> (Ledger, Option<Escrow>) {
    let mut ledger = Ledger::new();
    let mut stored = None;
    ledger.mint(&account(1), amount);
    let out = EscrowContract::initialize(
        stored.is_some(),
        id,
        account(1),
        account(2),
        arbiter,
        token_address(),
        amount,
        deadline,
        [hash; 32],
        0,
    )
    .unwrap();
    commit(&mut ledger, &mut stored, out);
    (ledger, stored)
}

#[test]
fn test_happy_path_deposit_and_release() {
    let initiator = account(1);
    let beneficiary = account(2);
    let arbiter = account(3);
    let amount = 10_000_000i128;
    let now = 0u64;
    let deadline = now + 3600;
    let (mut ledger, mut stored) = setup(1, Some(arbiter), amount, deadline, 1);

    let state = EscrowContract::get_escrow(stored).unwrap();
    assert_eq!(state.status, EscrowStatus::Created);
    assert_eq!(state.amount, amount);
    assert_eq!(state.funded_amount, 0);

    // Deposit
    let out = EscrowContract::deposit(stored, initiator).unwrap();
    commit(&mut ledger, &mut stored, out);
    assert_eq!(ledger.balance(&contract_address()), amount);
    let state = EscrowContract::get_escrow(stored).unwrap();
    assert_eq!(state.status, EscrowStatus::Funded);
    assert_eq!(state.funded_amount, amount);

    // Release to beneficiary
    let out = EscrowContract::release(stored, initiator).unwrap();
    commit(&mut ledger, &mut stored, out);
    assert_eq!(ledger.balance(&beneficiary), amount);
    assert_eq!(ledger.balance(&contract_address()), 0);

    let state = EscrowContract::get_escrow(stored).unwrap();
    assert_eq!(state.status, EscrowStatus::Completed);
    assert_eq!(state.funded_amount, 0);
}

#[test]
fn test_timelock_refund() {
    let initiator = account(1);
    let amount = 5_000_000i128;
    let deadline = 1000u64;
    let (mut ledger, mut stored) = setup(2, None, amount, deadline, 2);

    let out = EscrowContract::deposit(stored, initiator).unwrap();
    commit(&mut ledger, &mut stored, out);

    // Try refunding before deadline -> fails
    let err = EscrowContract::refund(stored, initiator, 0);
    assert!(err.is_err());

    // Advance time past deadline; the initiator refunds
    let out = EscrowContract::refund(stored, initiator, deadline + 10).unwrap();
    commit(&mut ledger, &mut stored, out);
    assert_eq!(ledger.balance(&initiator), amount);
    assert_eq!(ledger.balance(&contract_address()), 0);

    let state = EscrowContract::get_escrow(stored).unwrap();
    assert_eq!(state.status, EscrowStatus::Refunded);
}

#[test]
fn test_dispute_and_resolution() {
    let initiator = account(1);
    let beneficiary = account(2);
    let arbiter = account(3);
    let amount = 100i128;
    let (mut ledger, mut stored) = setup(3, Some(arbiter), amount, 5000, 3);

    let out = EscrowContract::deposit(stored, initiator).unwrap();
    commit(&mut ledger, &mut stored, out);

    // Beneficiary raises dispute
    let out = EscrowContract::dispute(stored, beneficiary).unwrap();
    commit(&mut ledger, &mut stored, out);
    let state = EscrowContract::get_escrow(stored).unwrap();
    assert_eq!(state.status, EscrowStatus::Disputed);

    // Arbiter resolves dispute 70% to beneficiary, 30% to initiator
    let out = EscrowContract::resolve_dispute(stored, arbiter, 70, 30).unwrap();
    commit(&mut ledger, &mut stored, out);

    assert_eq!(ledger.balance(&beneficiary), 70);
    assert_eq!(ledger.balance(&initiator), 30);
    assert_eq!(ledger.balance(&contract_address()), 0);

    let state = EscrowContract::get_escrow(stored).unwrap();
    assert_eq!(state.status, EscrowStatus::Completed);
}

#[test]
fn initialize_records_terms_and_event() {
    let out = EscrowContract::initialize(
        false, 42, account(1), account(2), None, token_address(), 500, 100, [4u8; 32], 10,
    )
    .unwrap();
    assert_eq!(
        out.escrow,
        Escrow {
            id: 42,
            initiator: account(1),
            beneficiary: account(2),
            arbiter: None,
            token: token_address(),
            amount: 500,
            funded_amount: 0,
            deadline: 100,
            status: EscrowStatus::Created,
            created_at: 10,
            engagement_id: [4u8; 32],
        }
    );
    assert!(out.transfers.is_empty());
    assert_eq!(
        out.events,
        vec![EscrowEvent::Initialized { id: 42, initiator: account(1), beneficiary: account(2), amount: 500 }]
    );
}

#[test]
fn escrow_initialize_rejections() {
    let init = |initialized: bool, amount: i128, deadline: u64| {
        EscrowContract::initialize(
            initialized, 1, account(1), account(2), None, token_address(), amount, deadline, [0u8; 32], 50,
        )
        .err()
    };
    assert_eq!(init(true, 10, 100), Some(EscrowError::AlreadyInitialized));
    assert_eq!(init(false, 0, 100), Some(EscrowError::InvalidAmount));
    assert_eq!(init(false, -5, 100), Some(EscrowError::InvalidAmount));
    assert_eq!(init(false, 10, 50), Some(EscrowError::InvalidDeadline));
    assert_eq!(init(false, 10, 51), None);
}

#[test]
fn calls_before_initialization_fail() {
    assert_eq!(EscrowContract::deposit(None, account(1)).err(), Some(EscrowError::NotInitialized));
    assert_eq!(EscrowContract::release(None, account(1)).err(), Some(EscrowError::NotInitialized));
    assert_eq!(EscrowContract::refund(None, account(1), 0).err(), Some(EscrowError::NotInitialized));
    assert_eq!(EscrowContract::dispute(None, account(1)).err(), Some(EscrowError::NotInitialized));
    assert_eq!(
        EscrowContract::resolve_dispute(None, account(1), 0, 0).err(),
        Some(EscrowError::NotInitialized)
    );
    assert_eq!(EscrowContract::get_escrow(None).err(), Some(EscrowError::NotInitialized));
}

#[test]
fn deposit_twice_is_invalid_status() {
    let (mut ledger, mut stored) = setup(1, None, 10, 100, 0);
    let out = EscrowContract::deposit(stored, account(1)).unwrap();
    assert_eq!(out.transfers, vec![TokenTransfer::Inbound { from: account(1), amount: 10 }]);
    assert_eq!(out.events, vec![EscrowEvent::Deposited { id: 1, from: account(1), amount: 10 }]);
    commit(&mut ledger, &mut stored, out);
    assert_eq!(EscrowContract::deposit(stored, account(1)).err(), Some(EscrowError::InvalidStatus));
}

#[test]
fn release_authorization() {
    let (mut ledger, mut stored) = setup(1, Some(account(3)), 10, 100, 0);
    assert_eq!(EscrowContract::release(stored, account(1)).err(), Some(EscrowError::EscrowNotFunded));
    let out = EscrowContract::deposit(stored, account(1)).unwrap();
    commit(&mut ledger, &mut stored, out);
    assert_eq!(EscrowContract::release(stored, account(2)).err(), Some(EscrowError::Unauthorized));
    assert_eq!(EscrowContract::release(stored, account(4)).err(), Some(EscrowError::Unauthorized));
    let out = EscrowContract::release(stored, account(3)).unwrap();
    assert_eq!(out.transfers, vec![TokenTransfer::Outbound { to: account(2), amount: 10 }]);
    assert_eq!(out.events, vec![EscrowEvent::Released { id: 1, to: account(2), amount: 10 }]);
}

#[test]
fn refund_authorization_and_deadline() {
    let (mut ledger, mut stored) = setup(1, Some(account(3)), 10, 100, 0);
    let out = EscrowContract::deposit(stored, account(1)).unwrap();
    commit(&mut ledger, &mut stored, out);
    assert_eq!(EscrowContract::refund(stored, account(1), 99).err(), Some(EscrowError::DeadlineNotReached));
    assert_eq!(EscrowContract::refund(stored, account(4), 1000).err(), Some(EscrowError::Unauthorized));
    assert!(EscrowContract::refund(stored, account(1), 100).is_ok());
    assert!(EscrowContract::refund(stored, account(2), 0).is_ok());
    let out = EscrowContract::refund(stored, account(3), 0).unwrap();
    assert_eq!(out.transfers, vec![TokenTransfer::Outbound { to: account(1), amount: 10 }]);
    assert_eq!(out.events, vec![EscrowEvent::Refunded { id: 1, to: account(1), amount: 10 }]);
    assert_eq!(out.escrow.status, EscrowStatus::Refunded);
    assert_eq!(out.escrow.funded_amount, 0);
}

#[test]
fn disputed_escrow_refund() {
    let (mut ledger, mut stored) = setup(1, Some(account(3)), 10, 100, 0);
    let out = EscrowContract::deposit(stored, account(1)).unwrap();
    commit(&mut ledger, &mut stored, out);
    let out = EscrowContract::dispute(stored, account(1)).unwrap();
    commit(&mut ledger, &mut stored, out);
    // The initiator's deadline refund does not apply once disputed.
    assert_eq!(EscrowContract::refund(stored, account(1), 1000).err(), Some(EscrowError::EscrowNotFunded));
    assert_eq!(EscrowContract::refund(stored, account(4), 0).err(), Some(EscrowError::EscrowNotFunded));
    assert!(EscrowContract::refund(stored, account(3), 0).is_ok());
    let out = EscrowContract::refund(stored, account(2), 0).unwrap();
    assert_eq!(out.transfers, vec![TokenTransfer::Outbound { to: account(1), amount: 10 }]);
    assert_eq!(out.events, vec![EscrowEvent::Refunded { id: 1, to: account(1), amount: 10 }]);
    commit(&mut ledger, &mut stored, out);
    let state = EscrowContract::get_escrow(stored).unwrap();
    assert_eq!(state.status, EscrowStatus::Refunded);
    assert_eq!(state.funded_amount, 0);
    assert_eq!(ledger.balance(&account(1)), 10);
    assert_eq!(ledger.balance(&contract_address()), 0);
    assert!(EscrowContract::resolve_dispute(stored, account(3), 10, 0).is_err());
}

#[test]
fn dispute_rejections() {
    let (mut ledger, mut stored) = setup(1, None, 10, 100, 0);
    assert_eq!(EscrowContract::dispute(stored, account(1)).err(), Some(EscrowError::EscrowNotFunded));
    let out = EscrowContract::deposit(stored, account(1)).unwrap();
    commit(&mut ledger, &mut stored, out);
    assert_eq!(EscrowContract::dispute(stored, account(1)).err(), Some(EscrowError::ArbiterRequired));

    let (mut ledger, mut stored) = setup(1, Some(account(3)), 10, 100, 0);
    let out = EscrowContract::deposit(stored, account(1)).unwrap();
    commit(&mut ledger, &mut stored, out);
    assert_eq!(EscrowContract::dispute(stored, account(3)).err(), Some(EscrowError::Unauthorized));
    let out = EscrowContract::dispute(stored, account(1)).unwrap();
    assert!(out.transfers.is_empty());
    assert_eq!(out.events, vec![EscrowEvent::Disputed { id: 1, by: account(1) }]);
}

#[test]
fn resolve_dispute_rejections_and_zero_shares() {
    let (mut ledger, mut stored) = setup(1, Some(account(3)), 10, 100, 0);
    let out = EscrowContract::deposit(stored, account(1)).unwrap();
    commit(&mut ledger, &mut stored, out);
    assert_eq!(
        EscrowContract::resolve_dispute(stored, account(3), 5, 5).err(),
        Some(EscrowError::InvalidStatus)
    );
    let out = EscrowContract::dispute(stored, account(2)).unwrap();
    commit(&mut ledger, &mut stored, out);
    assert_eq!(EscrowContract::resolve_dispute(stored, account(1), 5, 5).err(), Some(EscrowError::Unauthorized));
    assert_eq!(EscrowContract::resolve_dispute(stored, account(3), -1, 11).err(), Some(EscrowError::InvalidAmount));
    assert_eq!(
        EscrowContract::resolve_dispute(stored, account(3), 4, 5).err(),
        Some(EscrowError::DisputeResolutionMismatch)
    );
    // Shares whose sum overflows i128 are a mismatch, not a trap.
    assert_eq!(
        EscrowContract::resolve_dispute(stored, account(3), i128::MAX, 1).err(),
        Some(EscrowError::DisputeResolutionMismatch)
    );
    assert_eq!(
        EscrowContract::resolve_dispute(stored, account(3), i128::MAX, i128::MAX).err(),
        Some(EscrowError::DisputeResolutionMismatch)
    );
    let out = EscrowContract::resolve_dispute(stored, account(3), 0, 10).unwrap();
    assert_eq!(out.transfers, vec![TokenTransfer::Outbound { to: account(1), amount: 10 }]);
    assert_eq!(
        out.events,
        vec![EscrowEvent::DisputeResolved { id: 1, beneficiary_amount: 0, initiator_amount: 10 }]
    );
    commit(&mut ledger, &mut stored, out);
    assert_eq!(ledger.balance(&account(1)), 10);
    assert_eq!(ledger.balance(&contract_address()), 0);
}

#[test]
fn terminal_states_reject_every_call() {
    let (mut ledger, mut stored) = setup(1, Some(account(3)), 10, 100, 0);
    let out = EscrowContract::deposit(stored, account(1)).unwrap();
    commit(&mut ledger, &mut stored, out);
    let out = EscrowContract::release(stored, account(1)).unwrap();
    commit(&mut ledger, &mut stored, out);
    assert!(EscrowContract::deposit(stored, account(1)).is_err());
    assert!(EscrowContract::release(stored, account(1)).is_err());
    assert!(EscrowContract::refund(stored, account(2), 1000).is_err());
    assert!(EscrowContract::dispute(stored, account(1)).is_err());
    assert!(EscrowContract::resolve_dispute(stored, account(3), 10, 0).is_err());
    assert!(EscrowContract::initialize(stored.is_some(), 2, account(1), account(2), None, token_address(), 1, 100, [0u8; 32], 0).is_err());
}

#[test]
fn contract_holds_exactly_the_unpaid_principal() {
    let (mut ledger, mut stored) = setup(1, Some(account(3)), 77, 100, 0);
    assert_eq!(ledger.balance(&contract_address()), stored.unwrap().funded_amount);
    let out = EscrowContract::deposit(stored, account(1)).unwrap();
    commit(&mut ledger, &mut stored, out);
    assert_eq!(ledger.balance(&contract_address()), stored.unwrap().funded_amount);
    let out = EscrowContract::dispute(stored, account(1)).unwrap();
    commit(&mut ledger, &mut stored, out);
    assert_eq!(ledger.balance(&contract_address()), stored.unwrap().funded_amount);
    let out = EscrowContract::resolve_dispute(stored, account(3), 40, 37).unwrap();
    commit(&mut ledger, &mut stored, out);
    assert_eq!(ledger.balance(&contract_address()), stored.unwrap().funded_amount);
    assert_eq!(ledger.balance(&contract_address()), 0);
}

#[test]
fn error_codes() {
    assert_eq!(EscrowError::AlreadyInitialized.code(), 1);
    assert_eq!(EscrowError::EscrowNotFunded.code(), 10);
    assert_eq!(EscrowError::DisputeResolutionMismatch.code(), 12);
}
