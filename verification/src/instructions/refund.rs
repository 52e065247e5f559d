//! Refund: the maker takes the deposit back and unwinds the escrow.

use vstd::prelude::*;
use crate::address::Address;
use crate::authority::{address_view, authority_address, on_curve, rederive_authority};
use crate::error::{EscrowError, Failure, TransferError};
use crate::state::{transfer, transfer_failure, Escrow, TokenAccount};

verus! {

/// What a refund works on: the caller, the holding that the deposit returns to, the
/// escrow record and its vault. A record or a vault that no longer exists is `None`.
#[derive(Clone, Copy, Debug, PartialEq, Eq)]
pub struct Refund {
    /// Who asks for the refund.
    pub maker: Address,
    /// Where the deposit returns to: a holding of the maker's.
    pub maker_ata_a: TokenAccount,
    /// The escrow record to unwind.
    pub escrow: Option<Escrow>,
    /// The vault presented as the escrow's.
    pub vault: Option<TokenAccount>,
}

/// What a refund did, for whoever has to carry it out on the holdings themselves.
#[derive(Clone, Copy, Debug, PartialEq, Eq)]
pub struct Refunded {
    /// The derived authority that emptied and closed the vault.
    pub authority: Address,
    /// How much of the locked asset went back to the maker: all that the vault held.
    pub returned: u64,
    /// Who is refunded the storage cost of the vault and of the record: the maker.
    pub rent_to: Address,
}

impl Refund {
    /// The authority that `program_id` derives from the record's maker, seed and nonce,
    /// if there is a record and they derive one.
    pub open spec fn authority(self, program_id: Seq<u8>) -> Option<Seq<u8>> {
        match self.escrow {
            Some(escrow) => authority_address(program_id, escrow.maker@, escrow.seed, escrow.bump),
            None => None,
        }
    }

    /// Why the vault cannot be emptied into the maker's holding, if that is so.
    pub open spec fn return_failure(self) -> Option<TransferError>
        recommends
            self.escrow is Some,
            self.vault is Some,
    {
        transfer_failure(
            self.vault->0,
            self.maker_ata_a,
            self.vault->0.owner@,
            self.escrow->0.mint_a@,
            self.vault->0.amount,
        )
    }

    /// Why a refund is refused, if it is, where `authority` is what the record derives:
    /// there is no record, the caller is not its maker, there is no vault, the vault is
    /// not held by `authority`, the holding that the funds return to is not the maker's,
    /// or the funds cannot be returned. The first that holds decides.
    pub open spec fn failure(self, authority: Option<Seq<u8>>) -> Option<Failure> {
        if self.escrow is None {
            Some(Failure::NotFound)
        } else if self.escrow->0.maker@ != self.maker@ {
            Some(Failure::Unauthorized)
        } else if self.vault is None {
            Some(Failure::NotFound)
        } else if authority != Some(self.vault->0.owner@) {
            Some(Failure::Escrow(EscrowError::InvalidVaultAuthority))
        } else if self.maker_ata_a.owner@ != self.escrow->0.maker@ {
            Some(Failure::InvalidRecipient)
        } else if let Some(e) = self.return_failure() {
            Some(Failure::Transfer(e))
        } else {
            None
        }
    }

    /// The accounts after a refund: the maker holds again what the vault held, and
    /// neither the vault nor the record exists any more.
    pub open spec fn refunded(self) -> Refund
        recommends
            self.vault is Some,
    {
        Refund {
            maker: self.maker,
            maker_ata_a: self.maker_ata_a.credited(self.vault->0.amount),
            escrow: None,
            vault: None,
        }
    }

    /// What a refund of these accounts reports.
    pub open spec fn refund_report(self) -> Refunded
        recommends
            self.escrow is Some,
            self.vault is Some,
    {
        Refunded {
            authority: self.vault->0.owner,
            returned: self.vault->0.amount,
            rent_to: self.escrow->0.maker,
        }
    }

    /// What a refund answers: what it returned, or why it is refused.
    pub open spec fn outcome(self, authority: Option<Seq<u8>>) -> Result<Refunded, Failure> {
        match self.failure(authority) {
            Some(f) => Err(f),
            None => Ok(self.refund_report()),
        }
    }

    /// The accounts after a refund: unwound, or as they were where the refund is
    /// refused.
    pub open spec fn after(self, authority: Option<Seq<u8>>) -> Refund {
        if self.failure(authority) is Some {
            self
        } else {
            self.refunded()
        }
    }

    /// Unwinds the escrow, where `authority` is what the record's maker, seed and nonce
    /// derive.
    ///
    /// A refund is open to the maker from the moment the escrow is made until it is
    /// settled or refunded; the maturity window does not gate it, and an empty vault
    /// does not stand in its way. All that the vault holds returns to the maker's
    /// holding, and the vault and the record are closed in the maker's favour. A refund
    /// that is refused changes nothing.
    pub fn unwind(&mut self, authority: Option<Address>) -> (r: Result<Refunded, Failure>)
        ensures
            r == old(self).outcome(address_view(authority)),
            *final(self) == old(self).after(address_view(authority)),
    {
        let escrow = match self.escrow {
            Some(escrow) => escrow,
            None => {
                return Err(Failure::NotFound);
            },
        };
        if escrow.maker != self.maker {
            return Err(Failure::Unauthorized);
        }
        let mut vault = match self.vault {
            Some(vault) => vault,
            None => {
                return Err(Failure::NotFound);
            },
        };
        match authority {
            Some(authority) => {
                if vault.owner != authority {
                    return Err(Failure::Escrow(EscrowError::InvalidVaultAuthority));
                }
            },
            None => {
                return Err(Failure::Escrow(EscrowError::InvalidVaultAuthority));
            },
        }
        if self.maker_ata_a.owner != escrow.maker {
            return Err(Failure::InvalidRecipient);
        }
        let signer = vault.owner;
        let returned = vault.amount;
        let mut maker_ata_a = self.maker_ata_a;
        if let Err(e) = transfer(
            &mut vault,
            &mut maker_ata_a,
            &signer,
            &escrow.mint_a,
            returned,
        ) {
            return Err(Failure::Transfer(e));
        }
        self.maker_ata_a = maker_ata_a;
        self.vault = None;
        self.escrow = None;
        Ok(Refunded { authority: signer, returned, rent_to: escrow.maker })
    }

    /// Unwinds the escrow for the program `program_id`: derives the record's authority
    /// from its maker, seed and nonce, and refunds under it. The authority that empties
    /// the vault is one that no key signs for.
    pub fn refund_and_close_vault(&mut self, program_id: &Address) -> (r: Result<
        Refunded,
        Failure,
    >)
        ensures
            r == old(self).outcome(old(self).authority(program_id@)),
            *final(self) == old(self).after(old(self).authority(program_id@)),
            r matches Ok(refunded) ==> !on_curve(refunded.authority@),
    {
        let authority = match self.escrow {
            Some(escrow) => rederive_authority(program_id, &escrow.maker, escrow.seed, escrow.bump),
            None => None,
        };
        self.unwind(authority)
    }
}

} // verus!
