//! What holds of the escrow across its instructions.
//!
//! Each law speaks of what an instruction answers (`outcome`) and of the accounts it
//! leaves (`after`), which is what the instructions themselves promise.

use vstd::prelude::*;
use crate::address::Address;
use crate::authority::{authority_address, canonical_bump};
use crate::error::{EscrowError, Failure};
use crate::instructions::make::Make;
use crate::instructions::refund::{Refund, Refunded};
use crate::instructions::take::{Settlement, Take};
use crate::state::{matured, TokenAccount};

verus! {

/// How much a vault holds: nothing, once it no longer exists.
pub open spec fn held(vault: Option<TokenAccount>) -> int {
    match vault {
        Some(vault) => vault.amount as int,
        None => 0,
    }
}

/// Whether a record is there and names a maker.
pub open spec fn initialised(accounts: Take) -> bool {
    accounts.escrow is Some && accounts.escrow->0.is_initialised()
}

/// Whether all that settlement asks holds of the accounts, the passing of time apart:
/// the record is initialised, the vault is held by `authority` and holds something,
/// the holdings to be credited are the maker's and the taker's, the taker can pay and
/// the vault can be released.
pub open spec fn ready(accounts: Take, authority: Option<Seq<u8>>) -> bool {
    &&& initialised(accounts)
    &&& accounts.vault is Some
    &&& authority == Some(accounts.vault->0.owner@)
    &&& accounts.vault->0.amount > 0
    &&& accounts.pays_the_parties()
    &&& accounts.payment_failure() is None
    &&& accounts.release_failure() is None
}

/// The time lock. Less than 432000 seconds after an initialised escrow was made, a
/// take is refused as not mature, whatever else holds, and leaves the accounts as they
/// were. From that second on, a take of accounts that are ready goes through, and an
/// escrow that has matured stays matured.
pub proof fn law_maturity_lock(accounts: Take, authority: Option<Seq<u8>>, now: i64, later: i64)
    requires
        initialised(accounts),
    ensures
        now < accounts.escrow->0.created_at + 432000 ==> {
            &&& accounts.outcome(authority, now) == Err::<Settlement, Failure>(
                Failure::Escrow(EscrowError::EscrowNotMature),
            )
            &&& accounts.after(authority, now) == accounts
        },
        now >= accounts.escrow->0.created_at + 432000 && ready(accounts, authority) ==> {
            &&& accounts.outcome(authority, now) is Ok
            &&& accounts.after(authority, now) == accounts.settled()
        },
        matured(accounts.escrow->0.created_at, now) && now <= later ==> matured(
            accounts.escrow->0.created_at,
            later,
        ),
{
}

/// All or nothing. A take that is refused leaves every holding, the vault and the
/// record as they were. Where the preconditions of a take hold and the holdings to be
/// credited are their parties', it is refused exactly when one leg of the swap cannot
/// be carried out, be it the payment or the release, so that neither leg is ever seen
/// without the other.
pub proof fn law_take_is_all_or_nothing(accounts: Take, authority: Option<Seq<u8>>, now: i64)
    ensures
        accounts.outcome(authority, now) is Err ==> accounts.after(authority, now) == accounts,
        accounts.outcome(authority, now) is Ok ==> accounts.after(authority, now)
            == accounts.settled(),
        accounts.precondition_failure(authority, now) is None && accounts.pays_the_parties()
            ==> (accounts.outcome(authority, now) matches Err(Failure::Transfer(_))
            <==> accounts.payment_failure() is Some || accounts.release_failure() is Some),
{
}

/// The taker pays the maker. A take goes through only where the holding that is paid
/// is held by the maker that the record names, and the holding that the vault is
/// released into by the taker; that holding of the maker's is then richer by what the
/// record asks, in the asset that the record asks, and that holding of the taker's by
/// all that the vault held. Where the preconditions of a take hold and the holding to
/// be paid is held by another than the maker, be it the taker, the take is refused and
/// leaves the accounts as they were.
pub proof fn law_take_pays_the_maker(accounts: Take, authority: Option<Seq<u8>>, now: i64)
    ensures
        accounts.outcome(authority, now) is Ok ==> {
            &&& accounts.maker_ata_b.owner@ == accounts.escrow->0.maker@
            &&& accounts.maker_ata_b.mint@ == accounts.escrow->0.mint_b@
            &&& accounts.taker_ata_b.owner@ == accounts.taker@
            &&& accounts.taker_ata_a.owner@ == accounts.taker@
            &&& accounts.taker_ata_a.mint@ == accounts.escrow->0.mint_a@
            &&& accounts.after(authority, now).maker_ata_b.owner == accounts.maker_ata_b.owner
            &&& accounts.after(authority, now).maker_ata_b.amount == accounts.maker_ata_b.amount
                + accounts.escrow->0.receive
            &&& accounts.after(authority, now).taker_ata_b.amount == accounts.taker_ata_b.amount
                - accounts.escrow->0.receive
            &&& accounts.after(authority, now).taker_ata_a.amount == accounts.taker_ata_a.amount
                + accounts.vault->0.amount
        },
        accounts.precondition_failure(authority, now) is None && accounts.maker_ata_b.owner@
            != accounts.escrow->0.maker@ ==> {
            &&& accounts.outcome(authority, now) == Err::<Settlement, Failure>(
                Failure::InvalidRecipient,
            )
            &&& accounts.after(authority, now) == accounts
        },
{
}

/// Nothing for something, and something for nothing, cannot be made. A make whose
/// deposit is zero, or that asks zero in return, is refused, whatever else holds, and
/// leaves the accounts as they were: neither a record nor a vault is made. A make that
/// goes through has locked something and asks something.
pub proof fn law_make_refuses_zero_amounts(
    accounts: Make,
    derived: Option<(Address, u8)>,
    seed: u64,
    deposit: u64,
    receive: u64,
    now: i64,
)
    ensures
        deposit == 0 || receive == 0 ==> {
            &&& accounts.outcome(derived, deposit, receive) == Err::<(Address, u8), Failure>(
                Failure::ZeroAmount,
            )
            &&& accounts.after(derived, seed, deposit, receive, now) == accounts
        },
        accounts.outcome(derived, deposit, receive) is Ok ==> {
            &&& deposit > 0
            &&& receive > 0
            &&& accounts.after(derived, seed, deposit, receive, now).escrow->0.receive > 0
            &&& accounts.after(derived, seed, deposit, receive, now).vault->0.amount > 0
        },
{
}

/// A make and a refund are all or nothing too: one that is refused leaves the
/// accounts as they were.
pub proof fn law_make_and_refund_are_all_or_nothing(
    opening: Make,
    derived: Option<(Address, u8)>,
    seed: u64,
    deposit: u64,
    receive: u64,
    now: i64,
    closing: Refund,
    authority: Option<Seq<u8>>,
)
    ensures
        opening.outcome(derived, deposit, receive) is Err ==> opening.after(
            derived,
            seed,
            deposit,
            receive,
            now,
        ) == opening,
        closing.outcome(authority) is Err ==> closing.after(authority) == closing,
{
}

/// Single settlement, after a take. Once a take has gone through, the record and the
/// vault are gone: every further take of that escrow is refused, and so is every
/// refund, whoever asks, whenever, and under whatever authority.
pub proof fn law_single_settlement_after_take(
    accounts: Take,
    authority: Option<Seq<u8>>,
    now: i64,
    again: Take,
    refund: Refund,
    next_authority: Option<Seq<u8>>,
    later: i64,
)
    requires
        accounts.outcome(authority, now) is Ok,
        again.escrow == accounts.after(authority, now).escrow,
        again.vault == accounts.after(authority, now).vault,
        refund.escrow == accounts.after(authority, now).escrow,
        refund.vault == accounts.after(authority, now).vault,
    ensures
        accounts.after(authority, now).escrow is None,
        accounts.after(authority, now).vault is None,
        accounts.after(authority, now).outcome(next_authority, later) is Err,
        again.outcome(next_authority, later) == Err::<Settlement, Failure>(
            Failure::Escrow(EscrowError::InvalidEscrow),
        ),
        refund.outcome(next_authority) == Err::<Refunded, Failure>(Failure::NotFound),
{
}

/// Single settlement, after a refund. Once a refund has gone through, the record and
/// the vault are gone: every further refund of that escrow is refused, and so is
/// every take, whoever asks, whenever, and under whatever authority.
pub proof fn law_single_settlement_after_refund(
    accounts: Refund,
    authority: Option<Seq<u8>>,
    again: Refund,
    take: Take,
    next_authority: Option<Seq<u8>>,
    later: i64,
)
    requires
        accounts.outcome(authority) is Ok,
        again.escrow == accounts.after(authority).escrow,
        again.vault == accounts.after(authority).vault,
        take.escrow == accounts.after(authority).escrow,
        take.vault == accounts.after(authority).vault,
    ensures
        accounts.after(authority).escrow is None,
        accounts.after(authority).vault is None,
        accounts.after(authority).outcome(next_authority) is Err,
        again.outcome(next_authority) == Err::<Refunded, Failure>(Failure::NotFound),
        take.outcome(next_authority, later) == Err::<Settlement, Failure>(
            Failure::Escrow(EscrowError::InvalidEscrow),
        ),
{
}

/// Authority exclusivity, for a take. A take goes through only where the maker, the
/// seed and the nonce of the record presented derive the very authority that holds
/// the vault. Where they derive another, or none, a take of an initialised and
/// matured record is refused for the vault's authority.
pub proof fn law_take_needs_the_vault_authority(program_id: Seq<u8>, accounts: Take, now: i64)
    ensures
        accounts.outcome(accounts.authority(program_id), now) is Ok ==> {
            &&& accounts.escrow is Some
            &&& accounts.vault is Some
            &&& authority_address(
                program_id,
                accounts.escrow->0.maker@,
                accounts.escrow->0.seed,
                accounts.escrow->0.bump,
            ) == Some(accounts.vault->0.owner@)
        },
        initialised(accounts) && matured(accounts.escrow->0.created_at, now)
            && accounts.vault is Some && authority_address(
            program_id,
            accounts.escrow->0.maker@,
            accounts.escrow->0.seed,
            accounts.escrow->0.bump,
        ) != Some(accounts.vault->0.owner@) ==> accounts.outcome(
            accounts.authority(program_id),
            now,
        ) == Err::<Settlement, Failure>(Failure::Escrow(EscrowError::InvalidVaultAuthority)),
{
}

/// Authority exclusivity, for a refund. A refund goes through only where the maker,
/// the seed and the nonce of the record presented derive the very authority that
/// holds the vault. Where they derive another, or none, the maker's refund is refused
/// for the vault's authority.
pub proof fn law_refund_needs_the_vault_authority(program_id: Seq<u8>, accounts: Refund)
    ensures
        accounts.outcome(accounts.authority(program_id)) is Ok ==> {
            &&& accounts.escrow is Some
            &&& accounts.vault is Some
            &&& accounts.escrow->0.maker@ == accounts.maker@
            &&& authority_address(
                program_id,
                accounts.escrow->0.maker@,
                accounts.escrow->0.seed,
                accounts.escrow->0.bump,
            ) == Some(accounts.vault->0.owner@)
        },
        accounts.escrow is Some && accounts.escrow->0.maker@ == accounts.maker@
            && accounts.vault is Some && authority_address(
            program_id,
            accounts.escrow->0.maker@,
            accounts.escrow->0.seed,
            accounts.escrow->0.bump,
        ) != Some(accounts.vault->0.owner@) ==> accounts.outcome(accounts.authority(program_id))
            == Err::<Refunded, Failure>(Failure::Escrow(EscrowError::InvalidVaultAuthority)),
{
}

/// The deposit returns to the maker. A refund goes through only where the caller is
/// the maker that the record names and the holding that the funds return to is held
/// by that maker; the holding is then richer by all that the vault held.
pub proof fn law_refund_returns_to_the_maker(accounts: Refund, authority: Option<Seq<u8>>)
    ensures
        accounts.outcome(authority) is Ok ==> {
            &&& accounts.maker@ == accounts.escrow->0.maker@
            &&& accounts.maker_ata_a.owner@ == accounts.escrow->0.maker@
            &&& accounts.maker_ata_a.mint@ == accounts.escrow->0.mint_a@
            &&& accounts.after(authority).maker_ata_a.owner == accounts.maker_ata_a.owner
            &&& accounts.after(authority).maker_ata_a.amount == accounts.maker_ata_a.amount
                + accounts.vault->0.amount
        },
{
}

/// What a make leaves is an escrow in order. Where a make under an authority and its
/// nonce goes through, the record names the maker, who is not the zero identity, and
/// the terms asked, which are not zero; the vault is of the locked asset and holds the
/// deposit, which is not zero; and the vault is held by the authority that the
/// record's maker, seed and nonce derive, so that a take and a refund of what was made
/// pass the test of the vault's authority.
pub proof fn law_make_leaves_an_escrow_in_order(
    program_id: Seq<u8>,
    accounts: Make,
    authority: Address,
    bump: u8,
    seed: u64,
    deposit: u64,
    receive: u64,
    now: i64,
)
    requires
        authority_address(program_id, accounts.maker@, seed, bump) == Some(authority@),
        accounts.outcome(Some((authority, bump)), deposit, receive) is Ok,
    ensures
        ({
            let made = accounts.after(Some((authority, bump)), seed, deposit, receive, now);
            &&& made.escrow is Some
            &&& made.vault is Some
            &&& made.escrow->0.maker@ == accounts.maker@
            &&& made.escrow->0.is_initialised()
            &&& made.escrow->0.mint_a@ == accounts.mint_a@
            &&& made.escrow->0.mint_b@ == accounts.mint_b@
            &&& made.escrow->0.receive == receive
            &&& receive > 0
            &&& deposit > 0
            &&& made.escrow->0.seed == seed
            &&& made.escrow->0.created_at == now
            &&& made.vault->0.mint@ == accounts.mint_a@
            &&& made.vault->0.amount == deposit
            &&& authority_address(
                program_id,
                made.escrow->0.maker@,
                made.escrow->0.seed,
                made.escrow->0.bump,
            ) == Some(made.vault->0.owner@)
        }),
{
}

/// Derivation is deterministic: an escrow has at most one nonce that derivation
/// settles on, and so at most one authority.
pub proof fn law_canonical_bump_is_unique(
    program_id: Seq<u8>,
    maker: Seq<u8>,
    seed: u64,
    first: u8,
    second: u8,
)
    requires
        canonical_bump(program_id, maker, seed, first),
        canonical_bump(program_id, maker, seed, second),
    ensures
        first == second,
        authority_address(program_id, maker, seed, first) == authority_address(
            program_id,
            maker,
            seed,
            second,
        ),
{
}

/// Conservation in a make: whether it goes through or is refused, the maker and the
/// vault hold together after it what they held before it.
pub proof fn law_make_conserves(
    accounts: Make,
    derived: Option<(Address, u8)>,
    seed: u64,
    deposit: u64,
    receive: u64,
    now: i64,
)
    ensures
        ({
            let after = accounts.after(derived, seed, deposit, receive, now);
            accounts.maker_ata_a.amount + held(accounts.vault) == after.maker_ata_a.amount + held(
                after.vault,
            )
        }),
{
}

/// Conservation in a take. Whether it goes through or is refused: of the locked
/// asset, the taker and the vault hold together after the take what they held before
/// it; of the asked asset, so do the taker and the maker; and no holding changes its
/// asset or its holder.
pub proof fn law_take_conserves(accounts: Take, authority: Option<Seq<u8>>, now: i64)
    ensures
        ({
            let after = accounts.after(authority, now);
            &&& accounts.taker_ata_a.amount + held(accounts.vault) == after.taker_ata_a.amount
                + held(after.vault)
            &&& accounts.taker_ata_b.amount + accounts.maker_ata_b.amount
                == after.taker_ata_b.amount + after.maker_ata_b.amount
            &&& after.taker_ata_a.mint == accounts.taker_ata_a.mint
            &&& after.taker_ata_b.mint == accounts.taker_ata_b.mint
            &&& after.maker_ata_b.mint == accounts.maker_ata_b.mint
            &&& after.taker_ata_a.owner == accounts.taker_ata_a.owner
            &&& after.taker_ata_b.owner == accounts.taker_ata_b.owner
            &&& after.maker_ata_b.owner == accounts.maker_ata_b.owner
        }),
{
}

/// Conservation in a refund: whether it goes through or is refused, the maker and the
/// vault hold together after it what they held before it.
pub proof fn law_refund_conserves(accounts: Refund, authority: Option<Seq<u8>>)
    ensures
        ({
            let after = accounts.after(authority);
            &&& accounts.maker_ata_a.amount + held(accounts.vault) == after.maker_ata_a.amount
                + held(after.vault)
            &&& after.maker_ata_a.mint == accounts.maker_ata_a.mint
            &&& after.maker_ata_a.owner == accounts.maker_ata_a.owner
        }),
{
}

/// Conservation from a make to the take of what was made. Of the locked asset, the
/// maker, the taker and the vault hold together after the take what they held before
/// the make: the deposit has gone from the maker's holding into one of the taker's.
/// Of the asked asset, what the record asks has gone from a holding of the taker's
/// into one of the maker's.
pub proof fn law_make_then_take_conserves(
    opening: Make,
    authority: Address,
    bump: u8,
    seed: u64,
    deposit: u64,
    receive: u64,
    created: i64,
    closing: Take,
    presented: Option<Seq<u8>>,
    now: i64,
)
    requires
        opening.outcome(Some((authority, bump)), deposit, receive) is Ok,
        closing.escrow == opening.after(
            Some((authority, bump)),
            seed,
            deposit,
            receive,
            created,
        ).escrow,
        closing.vault == opening.after(
            Some((authority, bump)),
            seed,
            deposit,
            receive,
            created,
        ).vault,
        closing.outcome(presented, now) is Ok,
    ensures
        ({
            let made = opening.after(Some((authority, bump)), seed, deposit, receive, created);
            let settled = closing.after(presented, now);
            &&& opening.maker_ata_a.amount + closing.taker_ata_a.amount + held(opening.vault)
                == made.maker_ata_a.amount + settled.taker_ata_a.amount + held(settled.vault)
            &&& made.maker_ata_a.amount == opening.maker_ata_a.amount - deposit
            &&& settled.taker_ata_a.amount == closing.taker_ata_a.amount + deposit
            &&& settled.taker_ata_b.amount == closing.taker_ata_b.amount - receive
            &&& settled.maker_ata_b.amount == closing.maker_ata_b.amount + receive
            &&& closing.taker_ata_b.owner@ == closing.taker@
            &&& closing.taker_ata_a.owner@ == closing.taker@
            &&& closing.maker_ata_b.owner@ == opening.maker@
            &&& settled.maker_ata_b.owner == closing.maker_ata_b.owner
        }),
{
}

/// What was made can be taken. Once the maturity window has passed, a take of the
/// record and the vault that a make left goes through under the authority of that
/// make, for every taker who pays into a holding of the maker's, can pay what the
/// record asks, and whose own holding of the locked asset can take the deposit.
pub proof fn law_what_was_made_can_be_taken(
    opening: Make,
    authority: Address,
    bump: u8,
    seed: u64,
    deposit: u64,
    receive: u64,
    created: i64,
    closing: Take,
    now: i64,
)
    requires
        opening.outcome(Some((authority, bump)), deposit, receive) is Ok,
        closing.escrow == opening.after(
            Some((authority, bump)),
            seed,
            deposit,
            receive,
            created,
        ).escrow,
        closing.vault == opening.after(
            Some((authority, bump)),
            seed,
            deposit,
            receive,
            created,
        ).vault,
        now >= created + 432000,
        closing.maker_ata_b.owner@ == opening.maker@,
        closing.payment_failure() is None,
        closing.taker_ata_a.owner@ == closing.taker@,
        closing.taker_ata_a.mint@ == opening.mint_a@,
        closing.taker_ata_a.amount + deposit <= u64::MAX,
    ensures
        closing.outcome(Some(authority@), now) is Ok,
{
}

/// A refund is always open to the maker. The refund of the record and the vault that
/// a make left, asked by its maker into the holding that the deposit came from, goes
/// through under the authority of that make, at any time, and the maker then holds
/// what the maker held before the make.
pub proof fn law_refund_is_open_to_the_maker(
    opening: Make,
    authority: Address,
    bump: u8,
    seed: u64,
    deposit: u64,
    receive: u64,
    created: i64,
    closing: Refund,
)
    requires
        opening.outcome(Some((authority, bump)), deposit, receive) is Ok,
        closing.maker == opening.maker,
        closing.escrow == opening.after(
            Some((authority, bump)),
            seed,
            deposit,
            receive,
            created,
        ).escrow,
        closing.vault == opening.after(
            Some((authority, bump)),
            seed,
            deposit,
            receive,
            created,
        ).vault,
        closing.maker_ata_a == opening.after(
            Some((authority, bump)),
            seed,
            deposit,
            receive,
            created,
        ).maker_ata_a,
    ensures
        closing.outcome(Some(authority@)) is Ok,
        closing.after(Some(authority@)).maker_ata_a == opening.maker_ata_a,
        closing.after(Some(authority@)).escrow is None,
        closing.after(Some(authority@)).vault is None,
{
}

} // verus!
