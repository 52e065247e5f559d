//! What is kept between instructions: escrow records and holdings.

use vstd::prelude::*;
use crate::address::{zero_address, Address};
use crate::error::TransferError;

verus! {

/// Seconds that must pass after an escrow is made before it can be settled: five days.
pub const MATURITY_WINDOW: i64 = 5 * 24 * 60 * 60;

/// One pending swap: what the maker locked, and what the maker asks in return.
#[derive(Clone, Copy, Debug, PartialEq, Eq)]
pub struct Escrow {
    /// Who made the escrow and is paid when it settles.
    pub maker: Address,
    /// The asset held in the vault.
    pub mint_a: Address,
    /// The asset asked in return.
    pub mint_b: Address,
    /// How much of `mint_b` settles the escrow.
    pub receive: u64,
    /// Chosen by the maker, so that one maker can run several escrows.
    pub seed: u64,
    /// The nonce under which the escrow's authority was derived.
    pub bump: u8,
    /// When the escrow was made, in seconds.
    pub created_at: i64,
}

/// Whether an escrow made at `created_at` can be settled at `now`.
pub open spec fn matured(created_at: i64, now: i64) -> bool {
    now >= created_at + MATURITY_WINDOW
}

impl Escrow {
    /// Whether the record names a maker. A record that was made always does: none names
    /// the zero identity.
    pub open spec fn is_initialised(self) -> bool {
        self.maker@ != zero_address()
    }

    /// Whether the maturity window has passed at `now`.
    pub fn is_mature(&self, now: i64) -> (r: bool)
        ensures
            r == matured(self.created_at, now),
    {
        match self.created_at.checked_add(MATURITY_WINDOW) {
            Some(maturity) => now >= maturity,
            None => false,
        }
    }
}

/// An amount of one asset, held by one authority.
#[derive(Clone, Copy, Debug, PartialEq, Eq)]
pub struct TokenAccount {
    /// The asset the holding is denominated in.
    pub mint: Address,
    /// The authority that alone can move the holding's funds.
    pub owner: Address,
    /// How much is held.
    pub amount: u64,
}

/// Why a transfer is refused, if it is: the first of the checks below that fails.
pub open spec fn transfer_failure(
    source: TokenAccount,
    destination: TokenAccount,
    authority: Seq<u8>,
    mint: Seq<u8>,
    amount: u64,
) -> Option<TransferError> {
    if source.amount < amount {
        Some(TransferError::InsufficientFunds)
    } else if source.mint@ != destination.mint@ || source.mint@ != mint {
        Some(TransferError::MintMismatch)
    } else if source.owner@ != authority {
        Some(TransferError::OwnerMismatch)
    } else if destination.amount + amount > u64::MAX {
        Some(TransferError::Overflow)
    } else {
        None
    }
}

impl TokenAccount {
    /// An empty holding of `mint` under `owner`.
    pub fn new(mint: Address, owner: Address) -> (r: TokenAccount)
        ensures
            r == (TokenAccount { mint, owner, amount: 0 }),
    {
        TokenAccount { mint, owner, amount: 0 }
    }

    /// This holding with `amount` taken out of it.
    pub open spec fn debited(self, amount: u64) -> TokenAccount
        recommends
            amount <= self.amount,
    {
        TokenAccount { amount: (self.amount - amount) as u64, ..self }
    }

    /// This holding with `amount` put into it.
    pub open spec fn credited(self, amount: u64) -> TokenAccount
        recommends
            self.amount + amount <= u64::MAX,
    {
        TokenAccount { amount: (self.amount + amount) as u64, ..self }
    }
}

/// Moves `amount` of `mint` from `source` to `destination` at the request of `authority`.
///
/// The transfer is refused, and both holdings stay as they were, when the source
/// holds too little, when either holding is of another asset, when `authority` does
/// not hold the source, or when the destination cannot take the sum.
pub fn transfer(
    source: &mut TokenAccount,
    destination: &mut TokenAccount,
    authority: &Address,
    mint: &Address,
    amount: u64,
) -> (r: Result<(), TransferError>)
    ensures
        match transfer_failure(*old(source), *old(destination), authority@, mint@, amount) {
            Some(e) => r == Err::<(), TransferError>(e) && *final(source) == *old(source)
                && *final(destination) == *old(destination),
            None => r is Ok && *final(source) == old(source).debited(amount)
                && *final(destination) == old(destination).credited(amount),
        },
{
    if source.amount < amount {
        return Err(TransferError::InsufficientFunds);
    }
    if source.mint != destination.mint || source.mint != *mint {
        return Err(TransferError::MintMismatch);
    }
    if source.owner != *authority {
        return Err(TransferError::OwnerMismatch);
    }
    match destination.amount.checked_add(amount) {
        None => Err(TransferError::Overflow),
        Some(sum) => {
            source.amount = source.amount - amount;
            destination.amount = sum;
            Ok(())
        },
    }
}

} // verus!
