//! Make: the maker opens an escrow and locks the deposit in its vault.

use vstd::prelude::*;
use crate::address::{zero_address, Address};
use crate::error::{EscrowError, Failure, TransferError};
use crate::state::{transfer, transfer_failure, Escrow, TokenAccount};

verus! {

/// What a make works on: the maker, the two assets, the holding that the deposit comes
/// from, and the places of the record and the vault, both `None` until they are made.
#[derive(Clone, Copy, Debug, PartialEq, Eq)]
pub struct Make {
    /// Who opens the escrow.
    pub maker: Address,
    /// The asset that is locked.
    pub mint_a: Address,
    /// The asset that is asked in return.
    pub mint_b: Address,
    /// What the maker deposits from.
    pub maker_ata_a: TokenAccount,
    /// Where the escrow record is made.
    pub escrow: Option<Escrow>,
    /// Where the vault is made.
    pub vault: Option<TokenAccount>,
}

impl Make {
    /// Why no record asking `receive` and no vault can be made here, if that is so:
    /// nothing is asked in return, the maker is the zero identity, or a record or a
    /// vault already stands.
    pub open spec fn init_failure(self, receive: u64) -> Option<Failure> {
        if receive == 0 {
            Some(Failure::ZeroAmount)
        } else if self.maker@ == zero_address() {
            Some(Failure::Escrow(EscrowError::InvalidEscrow))
        } else if self.escrow is Some || self.vault is Some {
            Some(Failure::AccountInUse)
        } else {
            None
        }
    }

    /// The accounts with a new record and a new, empty vault held by `authority`.
    pub open spec fn initialised(
        self,
        authority: Address,
        bump: u8,
        seed: u64,
        receive: u64,
        now: i64,
    ) -> Make {
        Make {
            escrow: Some(
                Escrow {
                    maker: self.maker,
                    mint_a: self.mint_a,
                    mint_b: self.mint_b,
                    receive,
                    seed,
                    bump,
                    created_at: now,
                },
            ),
            vault: Some(TokenAccount { mint: self.mint_a, owner: authority, amount: 0 }),
            ..self
        }
    }

    /// Makes the record and an empty vault of the locked asset under `authority`, the
    /// address derived for this maker and `seed` under the nonce `bump`.
    pub fn init_escrow(
        &mut self,
        authority: Address,
        bump: u8,
        seed: u64,
        receive: u64,
        now: i64,
    ) -> (r: Result<(), Failure>)
        ensures
            match old(self).init_failure(receive) {
                Some(f) => r == Err::<(), Failure>(f) && *final(self) == *old(self),
                None => r is Ok && *final(self) == old(self).initialised(
                    authority,
                    bump,
                    seed,
                    receive,
                    now,
                ),
            },
    {
        if receive == 0 {
            return Err(Failure::ZeroAmount);
        }
        if self.maker.is_zero() {
            return Err(Failure::Escrow(EscrowError::InvalidEscrow));
        }
        if self.escrow.is_some() || self.vault.is_some() {
            return Err(Failure::AccountInUse);
        }
        self.escrow = Some(
            Escrow {
                maker: self.maker,
                mint_a: self.mint_a,
                mint_b: self.mint_b,
                receive,
                seed,
                bump,
                created_at: now,
            },
        );
        self.vault = Some(TokenAccount::new(self.mint_a, authority));
        Ok(())
    }

    /// Why `deposit` cannot be moved into the vault, if that is so: it is nothing,
    /// there is no vault, or the transfer is refused.
    pub open spec fn deposit_failure(self, deposit: u64) -> Option<Failure> {
        if deposit == 0 {
            Some(Failure::ZeroAmount)
        } else {
            match self.vault {
                None => Some(Failure::NotFound),
                Some(vault) => match transfer_failure(
                    self.maker_ata_a,
                    vault,
                    self.maker@,
                    self.mint_a@,
                    deposit,
                ) {
                    Some(e) => Some(Failure::Transfer(e)),
                    None => None,
                },
            }
        }
    }

    /// The accounts with `deposit` moved from the maker's holding into the vault.
    pub open spec fn deposited(self, deposit: u64) -> Make
        recommends
            self.vault is Some,
    {
        Make {
            maker_ata_a: self.maker_ata_a.debited(deposit),
            vault: Some(self.vault->0.credited(deposit)),
            ..self
        }
    }

    /// Moves `deposit` of the locked asset from the maker's holding into the vault, at
    /// the maker's request.
    pub fn deposit(&mut self, deposit: u64) -> (r: Result<(), Failure>)
        ensures
            match old(self).deposit_failure(deposit) {
                Some(f) => r == Err::<(), Failure>(f) && *final(self) == *old(self),
                None => r is Ok && *final(self) == old(self).deposited(deposit),
            },
    {
        if deposit == 0 {
            return Err(Failure::ZeroAmount);
        }
        let mut vault = match self.vault {
            Some(vault) => vault,
            None => {
                return Err(Failure::NotFound);
            },
        };
        let mut maker_ata_a = self.maker_ata_a;
        match transfer(&mut maker_ata_a, &mut vault, &self.maker, &self.mint_a, deposit) {
            Err(e) => Err(Failure::Transfer(e)),
            Ok(()) => {
                self.maker_ata_a = maker_ata_a;
                self.vault = Some(vault);
                Ok(())
            },
        }
    }

    /// Why a make of `deposit` against `receive` is refused, if it is, where `derivable`
    /// says whether the escrow has an authority: an amount of zero first, be it the
    /// deposit or what is asked in return, then no authority, then what stands in the
    /// way of the record, then what stands in the way of the deposit.
    pub open spec fn failure(self, derivable: bool, deposit: u64, receive: u64) -> Option<
        Failure,
    > {
        if deposit == 0 || receive == 0 {
            Some(Failure::ZeroAmount)
        } else if !derivable {
            Some(Failure::NoAuthority)
        } else if self.init_failure(receive) is Some {
            self.init_failure(receive)
        } else if self.maker_ata_a.amount < deposit {
            Some(Failure::Transfer(TransferError::InsufficientFunds))
        } else if self.maker_ata_a.mint@ != self.mint_a@ {
            Some(Failure::Transfer(TransferError::MintMismatch))
        } else if self.maker_ata_a.owner@ != self.maker@ {
            Some(Failure::Transfer(TransferError::OwnerMismatch))
        } else {
            None
        }
    }

    /// The accounts after a make: the record stands as asked, the vault is held by
    /// `authority` and holds the deposit, and the maker's holding is that much lighter.
    pub open spec fn made(
        self,
        authority: Address,
        bump: u8,
        seed: u64,
        deposit: u64,
        receive: u64,
        now: i64,
    ) -> Make {
        Make {
            maker: self.maker,
            mint_a: self.mint_a,
            mint_b: self.mint_b,
            maker_ata_a: self.maker_ata_a.debited(deposit),
            escrow: Some(
                Escrow {
                    maker: self.maker,
                    mint_a: self.mint_a,
                    mint_b: self.mint_b,
                    receive,
                    seed,
                    bump,
                    created_at: now,
                },
            ),
            vault: Some(TokenAccount { mint: self.mint_a, owner: authority, amount: deposit }),
        }
    }

    /// What a make answers, where `derived` is the escrow's authority with its nonce:
    /// these two, or why the make is refused.
    pub open spec fn outcome(
        self,
        derived: Option<(Address, u8)>,
        deposit: u64,
        receive: u64,
    ) -> Result<(Address, u8), Failure> {
        match self.failure(derived is Some, deposit, receive) {
            Some(f) => Err(f),
            None => Ok(derived->0),
        }
    }

    /// The accounts after a make: with the record and the funded vault, or as they
    /// were where the make is refused.
    pub open spec fn after(
        self,
        derived: Option<(Address, u8)>,
        seed: u64,
        deposit: u64,
        receive: u64,
        now: i64,
    ) -> Make {
        match derived {
            Some((authority, bump)) if self.failure(true, deposit, receive) is None => self.made(
                authority,
                bump,
                seed,
                deposit,
                receive,
                now,
            ),
            _ => self,
        }
    }

    /// Opens the escrow at the time `now`, where `derived` is the authority derived for
    /// this maker and `seed`, with its nonce, or `None` where there is none.
    ///
    /// Makes the record and the vault, and locks `deposit` in the vault. Neither the
    /// deposit nor what is asked in return may be zero. The answer is the authority and
    /// the nonce, as kept in the record. An opening that is refused changes nothing.
    pub fn open(
        &mut self,
        derived: Option<(Address, u8)>,
        seed: u64,
        deposit: u64,
        receive: u64,
        now: i64,
    ) -> (r: Result<(Address, u8), Failure>)
        ensures
            r == old(self).outcome(derived, deposit, receive),
            *final(self) == old(self).after(derived, seed, deposit, receive, now),
            deposit == 0 || receive == 0 ==> r is Err && *final(self) == *old(self),
    {
        if deposit == 0 || receive == 0 {
            return Err(Failure::ZeroAmount);
        }
        let (authority, bump) = match derived {
            Some(found) => found,
            None => {
                return Err(Failure::NoAuthority);
            },
        };
        let mut staged = *self;
        if let Err(f) = staged.init_escrow(authority, bump, seed, receive, now) {
            return Err(f);
        }
        if let Err(f) = staged.deposit(deposit) {
            return Err(f);
        }
        *self = staged;
        Ok((authority, bump))
    }
}

} // verus!
