//! Take: the taker settles a matured escrow.

use vstd::prelude::*;
use crate::address::Address;
use crate::authority::{address_view, authority_address, on_curve, rederive_authority};
use crate::error::{EscrowError, Failure, TransferError};
use crate::state::{matured, transfer, transfer_failure, Escrow, TokenAccount};

verus! {

/// What a take works on: the taker, the three holdings that funds move between, the
/// escrow record and its vault. A record or a vault that no longer exists is `None`.
#[derive(Clone, Copy, Debug, PartialEq, Eq)]
pub struct Take {
    /// Who settles the escrow and pays for it.
    pub taker: Address,
    /// Where the taker receives the vault's asset: a holding of the taker's.
    pub taker_ata_a: TokenAccount,
    /// What the taker pays from.
    pub taker_ata_b: TokenAccount,
    /// Where the maker is paid: a holding of the maker's.
    pub maker_ata_b: TokenAccount,
    /// The escrow record to settle.
    pub escrow: Option<Escrow>,
    /// The vault presented as the escrow's.
    pub vault: Option<TokenAccount>,
}

/// What a settlement did, for whoever has to carry it out on the holdings themselves.
#[derive(Clone, Copy, Debug, PartialEq, Eq)]
pub struct Settlement {
    /// The derived authority that released and closed the vault.
    pub authority: Address,
    /// How much of the asked asset went from the taker to the maker.
    pub paid: u64,
    /// How much of the vault's asset went to the taker: all of it.
    pub released: u64,
    /// Who is refunded the storage cost of the vault and of the record: the maker.
    pub rent_to: Address,
}

impl Take {
    /// The authority that `program_id` derives from the record's maker, seed and nonce,
    /// if there is a record and they derive one.
    pub open spec fn authority(self, program_id: Seq<u8>) -> Option<Seq<u8>> {
        match self.escrow {
            Some(escrow) => authority_address(program_id, escrow.maker@, escrow.seed, escrow.bump),
            None => None,
        }
    }

    /// The precondition of settlement that fails first, if one does, where `authority`
    /// is what the record derives.
    pub open spec fn precondition_failure(self, authority: Option<Seq<u8>>, now: i64) -> Option<
        EscrowError,
    > {
        if self.escrow is None || !self.escrow->0.is_initialised() {
            Some(EscrowError::InvalidEscrow)
        } else if !matured(self.escrow->0.created_at, now) {
            Some(EscrowError::EscrowNotMature)
        } else if self.vault is None || authority != Some(self.vault->0.owner@) {
            Some(EscrowError::InvalidVaultAuthority)
        } else if self.vault->0.amount == 0 {
            Some(EscrowError::EmptyVault)
        } else {
            None
        }
    }

    /// Whether each holding that is to receive funds is held by the party the funds are
    /// due to: the holding to be paid by the record's maker, and the holding that the
    /// vault is released into by the taker.
    pub open spec fn pays_the_parties(self) -> bool
        recommends
            self.escrow is Some,
    {
        &&& self.maker_ata_b.owner@ == self.escrow->0.maker@
        &&& self.taker_ata_a.owner@ == self.taker@
    }

    /// Why the taker cannot pay the maker what the escrow asks, if that is so.
    pub open spec fn payment_failure(self) -> Option<TransferError>
        recommends
            self.escrow is Some,
    {
        transfer_failure(
            self.taker_ata_b,
            self.maker_ata_b,
            self.taker@,
            self.escrow->0.mint_b@,
            self.escrow->0.receive,
        )
    }

    /// Why the vault cannot be emptied into the taker's holding, if that is so.
    pub open spec fn release_failure(self) -> Option<TransferError>
        recommends
            self.escrow is Some,
            self.vault is Some,
    {
        transfer_failure(
            self.vault->0,
            self.taker_ata_a,
            self.vault->0.owner@,
            self.escrow->0.mint_a@,
            self.vault->0.amount,
        )
    }

    /// Why a take at `now` is refused, if it is: a precondition first, then a holding
    /// to be credited that is not its party's, then the payment, then the release.
    pub open spec fn failure(self, authority: Option<Seq<u8>>, now: i64) -> Option<Failure> {
        if let Some(e) = self.precondition_failure(authority, now) {
            Some(Failure::Escrow(e))
        } else if !self.pays_the_parties() {
            Some(Failure::InvalidRecipient)
        } else if let Some(e) = self.payment_failure() {
            Some(Failure::Transfer(e))
        } else if let Some(e) = self.release_failure() {
            Some(Failure::Transfer(e))
        } else {
            None
        }
    }

    /// The accounts after a settlement: the maker is paid, the taker holds what the
    /// vault held, and neither the vault nor the record exists any more.
    pub open spec fn settled(self) -> Take
        recommends
            self.escrow is Some,
            self.vault is Some,
    {
        Take {
            taker: self.taker,
            taker_ata_a: self.taker_ata_a.credited(self.vault->0.amount),
            taker_ata_b: self.taker_ata_b.debited(self.escrow->0.receive),
            maker_ata_b: self.maker_ata_b.credited(self.escrow->0.receive),
            escrow: None,
            vault: None,
        }
    }

    /// What a settlement of these accounts reports.
    pub open spec fn settlement(self) -> Settlement
        recommends
            self.escrow is Some,
            self.vault is Some,
    {
        Settlement {
            authority: self.vault->0.owner,
            paid: self.escrow->0.receive,
            released: self.vault->0.amount,
            rent_to: self.escrow->0.maker,
        }
    }

    /// What a take at `now` answers: the settlement, or why it is refused.
    pub open spec fn outcome(self, authority: Option<Seq<u8>>, now: i64) -> Result<
        Settlement,
        Failure,
    > {
        match self.failure(authority, now) {
            Some(f) => Err(f),
            None => Ok(self.settlement()),
        }
    }

    /// The accounts after a take at `now`: settled, or as they were where the take is
    /// refused.
    pub open spec fn after(self, authority: Option<Seq<u8>>, now: i64) -> Take {
        if self.failure(authority, now) is Some {
            self
        } else {
            self.settled()
        }
    }

    /// Settles the escrow at the time `now`, where `authority` is what the record's
    /// maker, seed and nonce derive.
    ///
    /// The record must be initialised, the maturity window must have passed, the vault
    /// must be held by `authority`, and it must hold something. The holding to be paid
    /// must be the maker's, and the holding that the vault is released into the taker's.
    /// Then the taker pays the maker what the record asks, the vault is emptied into the
    /// taker's holding, and the vault and the record are closed in the maker's favour. A
    /// settlement that is refused changes nothing.
    pub fn settle(&mut self, authority: Option<Address>, now: i64) -> (r: Result<
        Settlement,
        Failure,
    >)
        ensures
            r == old(self).outcome(address_view(authority), now),
            *final(self) == old(self).after(address_view(authority), now),
            r is Ok ==> old(self).maker_ata_b.owner@ == old(self).escrow->0.maker@,
    {
        let escrow = match self.escrow {
            Some(escrow) => escrow,
            None => {
                return Err(Failure::Escrow(EscrowError::InvalidEscrow));
            },
        };
        if escrow.maker.is_zero() {
            return Err(Failure::Escrow(EscrowError::InvalidEscrow));
        }
        if !escrow.is_mature(now) {
            return Err(Failure::Escrow(EscrowError::EscrowNotMature));
        }
        let mut vault = match self.vault {
            Some(vault) => vault,
            None => {
                return Err(Failure::Escrow(EscrowError::InvalidVaultAuthority));
            },
        };
        match authority {
            Some(authority) => {
                if vault.owner != authority {
                    return Err(Failure::Escrow(EscrowError::InvalidVaultAuthority));
                }
            },
            None => {
                return Err(Failure::Escrow(EscrowError::InvalidVaultAuthority));
            },
        }
        if vault.amount == 0 {
            return Err(Failure::Escrow(EscrowError::EmptyVault));
        }
        if self.maker_ata_b.owner != escrow.maker || self.taker_ata_a.owner != self.taker {
            return Err(Failure::InvalidRecipient);
        }
        let mut taker_ata_b = self.taker_ata_b;
        let mut maker_ata_b = self.maker_ata_b;
        if let Err(e) = transfer(
            &mut taker_ata_b,
            &mut maker_ata_b,
            &self.taker,
            &escrow.mint_b,
            escrow.receive,
        ) {
            return Err(Failure::Transfer(e));
        }
        let signer = vault.owner;
        let released = vault.amount;
        let mut taker_ata_a = self.taker_ata_a;
        if let Err(e) = transfer(
            &mut vault,
            &mut taker_ata_a,
            &signer,
            &escrow.mint_a,
            released,
        ) {
            return Err(Failure::Transfer(e));
        }
        self.taker_ata_a = taker_ata_a;
        self.taker_ata_b = taker_ata_b;
        self.maker_ata_b = maker_ata_b;
        self.vault = None;
        self.escrow = None;
        Ok(Settlement { authority: signer, paid: escrow.receive, released, rent_to: escrow.maker })
    }

    /// Settles the escrow at the time `now`, for the program `program_id`: derives the
    /// record's authority from its maker, seed and nonce, and settles under it. The
    /// authority that releases the vault is one that no key signs for.
    pub fn take(&mut self, program_id: &Address, now: i64) -> (r: Result<Settlement, Failure>)
        ensures
            r == old(self).outcome(old(self).authority(program_id@), now),
            *final(self) == old(self).after(old(self).authority(program_id@), now),
            r matches Ok(settlement) ==> !on_curve(settlement.authority@),
            r is Ok ==> old(self).maker_ata_b.owner@ == old(self).escrow->0.maker@,
    {
        let authority = match self.escrow {
            Some(escrow) => rederive_authority(program_id, &escrow.maker, escrow.seed, escrow.bump),
            None => None,
        };
        self.settle(authority, now)
    }
}

} // verus!
