//! A time-gated, two-party token-swap escrow, verified with Verus.
//!
//! A maker locks an amount of one asset in a vault that only the program's derived
//! authority can move, and names the amount of another asset that settles it. Once the
//! maturity window has passed, a taker can pay that amount to the maker and receive
//! what the vault holds. Until then, and as long as nobody has settled, the maker can
//! take the deposit back. Either way the vault and the record are closed, once.
//!
//! The instructions work on plain values: the holdings and the record as they stand
//! before the instruction, and as they stand after it. Reading them from a ledger,
//! reading the clock, establishing who signed, and carrying the result out on the
//! ledger is the caller's part.

pub mod address;
pub mod authority;
pub mod error;
pub mod instructions;
pub mod laws;
pub mod state;

pub use address::Address;
pub use error::{EscrowError, Failure, TransferError};
pub use instructions::make::Make;
pub use instructions::refund::{Refund, Refunded};
pub use instructions::take::{Settlement, Take};
pub use state::{Escrow, TokenAccount, MATURITY_WINDOW};

use vstd::prelude::*;
use authority::{
    authority_address, canonical_bump, derivation_exhausted, derive_authority, on_curve,
};

verus! {

/// Opens an escrow for the program `program_id` at the time `now`: derives its
/// authority from the maker and `seed`, makes the record and the vault, and locks
/// `deposit` of the first asset, against `receive` of the second. A make of nothing,
/// or for nothing in return, is refused.
///
/// The answer is the escrow's authority, which no key signs for, and the nonce it was
/// derived under. A make that is refused changes nothing.
pub fn make(
    program_id: &Address,
    accounts: &mut Make,
    seed: u64,
    deposit: u64,
    receive: u64,
    now: i64,
) -> (r: Result<(Address, u8), Failure>)
    ensures
        match old(accounts).failure(
            !derivation_exhausted(program_id@, old(accounts).maker@, seed),
            deposit,
            receive,
        ) {
            Some(f) => r == Err::<(Address, u8), Failure>(f) && *final(accounts) == *old(accounts),
            None => r matches Ok((authority, bump)) && canonical_bump(
                program_id@,
                old(accounts).maker@,
                seed,
                bump,
            ) && authority_address(program_id@, old(accounts).maker@, seed, bump) == Some(
                authority@,
            ) && !on_curve(authority@) && *final(accounts) == old(accounts).made(
                authority,
                bump,
                seed,
                deposit,
                receive,
                now,
            ),
        },
        deposit == 0 || receive == 0 ==> r is Err && *final(accounts) == *old(accounts),
{
    let derived = derive_authority(program_id, &accounts.maker, seed);
    accounts.open(derived, seed, deposit, receive, now)
}

/// Returns the deposit to the maker and unwinds the escrow, for the program
/// `program_id`. A refund that is refused changes nothing.
pub fn refund(program_id: &Address, accounts: &mut Refund) -> (r: Result<Refunded, Failure>)
    ensures
        r == old(accounts).outcome(old(accounts).authority(program_id@)),
        *final(accounts) == old(accounts).after(old(accounts).authority(program_id@)),
        r matches Ok(refunded) ==> !on_curve(refunded.authority@),
{
    accounts.refund_and_close_vault(program_id)
}

/// Settles a matured escrow at the time `now`, for the program `program_id`. The
/// taker pays into a holding of the maker's, or the take is refused. A take that is
/// refused changes nothing.
pub fn take(program_id: &Address, accounts: &mut Take, now: i64) -> (r: Result<
    Settlement,
    Failure,
>)
    ensures
        r == old(accounts).outcome(old(accounts).authority(program_id@), now),
        *final(accounts) == old(accounts).after(old(accounts).authority(program_id@), now),
        r matches Ok(settlement) ==> !on_curve(settlement.authority@),
        r is Ok ==> old(accounts).maker_ata_b.owner@ == old(accounts).escrow->0.maker@,
{
    accounts.take(program_id, now)
}

} // verus!
