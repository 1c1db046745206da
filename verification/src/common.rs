use vstd::prelude::*;

verus! {

/// The kinds of Soroban address an escrow pays or is paid by.
#[derive(Clone, Copy, Debug, PartialEq, Eq, Hash, Structural)]
pub enum AddressKind {
    /// A Stellar account, keyed by its ed25519 public key.
    Account,
    /// A contract, keyed by its contract id hash.
    Contract,
}

/// A Soroban address: its kind and its 32-byte key, held big-endian as two
/// 128-bit halves.
#[derive(Clone, Copy, Debug, PartialEq, Eq, Hash, Structural)]
pub struct Address {
    pub kind: AddressKind,
    pub key_high: u128,
    pub key_low: u128,
}

/// A 32-byte hash as stored by the contracts (engagement ids, proofs).
pub type Hash32 = [u8; 32];

/// One movement of the escrowed token that a call asks for.
#[derive(Clone, Copy, Debug, PartialEq, Eq)]
pub enum TokenTransfer {
    /// `amount` moves from `from` into the contract.
    Inbound { from: Address, amount: i128 },
    /// `amount` moves from the contract to `to`.
    Outbound { to: Address, amount: i128 },
}

/// How much a transfer changes the contract's own token balance.
pub open spec fn balance_change(t: TokenTransfer) -> int {
    match t {
        TokenTransfer::Inbound { amount, .. } => amount as int,
        TokenTransfer::Outbound { amount, .. } => -(amount as int),
    }
}

/// The total change of the contract's token balance over a list of transfers.
pub open spec fn net_inflow(transfers: Seq<TokenTransfer>) -> int
    decreases transfers.len(),
{
    if transfers.len() == 0 {
        0
    } else {
        net_inflow(transfers.drop_last()) + balance_change(transfers.last())
    }
}

/// The net inflow of one, two or no transfers, spelled out.
pub proof fn lemma_net_inflow_small(a: TokenTransfer, b: TokenTransfer)
    ensures
        net_inflow(Seq::<TokenTransfer>::empty()) == 0,
        net_inflow(seq![a]) == balance_change(a),
        net_inflow(seq![a, b]) == balance_change(a) + balance_change(b),
{
    assert(seq![a].drop_last() =~= Seq::<TokenTransfer>::empty());
    assert(seq![a, b].drop_last() =~= seq![a]);
    assert(net_inflow(seq![a]) == net_inflow(Seq::<TokenTransfer>::empty()) + balance_change(a));
    assert(net_inflow(seq![a, b]) == net_inflow(seq![a]) + balance_change(b));
}

} // verus!
