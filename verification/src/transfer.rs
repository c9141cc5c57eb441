use crate::address::Address;
use vstd::prelude::*;

verus! {

/// A movement of value that an operation asks the host to perform as part of
/// its commit.
#[derive(Debug, PartialEq, Eq)]
pub struct Transfer {
    /// The balance that pays.
    pub from: Address,
    /// The balance that receives.
    pub to: Address,
    /// How much moves.
    pub lamports: u64,
    /// Empty where the payer signs for itself. Otherwise the label tuple and
    /// bump from which the paying vault's address derives: the proof that the
    /// escrow logic controls that vault.
    pub signer_seeds: Vec<Vec<u8>>,
}

/// A movement of value, as mathematics.
pub struct TransferView {
    pub from: Seq<u8>,
    pub to: Seq<u8>,
    pub lamports: nat,
    pub signer_seeds: Seq<Seq<u8>>,
}

impl View for Transfer {
    type V = TransferView;

    open spec fn view(&self) -> TransferView {
        TransferView {
            from: self.from@,
            to: self.to@,
            lamports: self.lamports as nat,
            signer_seeds: self.signer_seeds.deep_view(),
        }
    }
}

/// What every address holds. An address that the map does not mention holds
/// nothing.
pub type Balances = Map<Seq<u8>, nat>;

/// The value held at `address`.
pub open spec fn balance_of(balances: Balances, address: Seq<u8>) -> nat {
    if balances.dom().contains(address) {
        balances[address]
    } else {
        0
    }
}

/// Whether the host can perform the transfer: the payer holds at least the
/// amount.
pub open spec fn can_transfer(balances: Balances, transfer: TransferView) -> bool {
    balance_of(balances, transfer.from) >= transfer.lamports
}

/// The balances after the host has performed the transfer. Where payer and
/// receiver are one address nothing changes.
pub open spec fn apply_transfer(balances: Balances, transfer: TransferView) -> Balances {
    if transfer.from == transfer.to {
        balances
    } else {
        balances.insert(
            transfer.from,
            (balance_of(balances, transfer.from) - transfer.lamports) as nat,
        ).insert(transfer.to, balance_of(balances, transfer.to) + transfer.lamports)
    }
}

/// The transfer that undoes `transfer`, authorised by `signer_seeds`.
pub open spec fn reverse_of(transfer: TransferView, signer_seeds: Seq<Seq<u8>>) -> TransferView {
    TransferView {
        from: transfer.to,
        to: transfer.from,
        lamports: transfer.lamports,
        signer_seeds,
    }
}

} // verus!
