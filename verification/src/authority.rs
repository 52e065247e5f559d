//! The signing authority of an escrow: an address derived from the maker and the
//! seed, which no key outside the program can sign for.

use vstd::prelude::*;
use vstd::bytes::{spec_u64_to_le_bytes, u64_to_le_bytes};
use anchor_lang::prelude::Pubkey;
use crate::address::Address;

verus! {

/// The most seeds one derivation takes.
pub const MAX_SEEDS: usize = 16;

/// The most bytes one seed holds.
pub const MAX_SEED_LEN: usize = 32;

/// The address that the program `program_id` derives from `seeds`, if they derive
/// one, for seeds within the limits above: what `Pubkey::create_program_address`
/// answers.
pub uninterp spec fn program_address(seeds: Seq<Seq<u8>>, program_id: Seq<u8>) -> Option<Seq<u8>>;

/// Whether `bytes` are a point of the curve that signing keys lie on: what
/// `Pubkey::is_on_curve` answers. An address that is one may have a key that signs for
/// it; an address that is none has no such key.
pub uninterp spec fn on_curve(bytes: Seq<u8>) -> bool;

/// The bytes of an optional address.
pub open spec fn address_view(address: Option<Address>) -> Option<Seq<u8>> {
    match address {
        Some(a) => Some(a@),
        None => None,
    }
}

/// Whether `seeds` are few and short enough to derive from, with `room` more to come.
pub open spec fn seeds_within_limits(seeds: Seq<Vec<u8>>, room: int) -> bool {
    &&& seeds.len() + room <= MAX_SEEDS
    &&& forall|i: int| 0 <= i < seeds.len() ==> (#[trigger] seeds[i])@.len() <= MAX_SEED_LEN
}

/// `Pubkey::create_program_address`: for seeds within the limits the result depends on
/// the seeds and the program alone. It is an address, or nothing where the seeds
/// derive none; an address that it gives is no point of the curve.
#[verifier::external_body]
fn create_program_address(seeds: &Vec<Vec<u8>>, program_id: &Address) -> (r: Option<Address>)
    requires
        seeds_within_limits(seeds@, 0),
    ensures
        address_view(r) == program_address(seeds.deep_view(), program_id@),
        r matches Some(address) ==> !on_curve(address@),
{
    let parts: Vec<&[u8]> = seeds.iter().map(|s| s.as_slice()).collect();
    match Pubkey::create_program_address(&parts, &Pubkey::new_from_array(program_id.bytes)) {
        Ok(key) => Some(Address { bytes: key.to_bytes() }),
        Err(_) => None,
    }
}

/// `Pubkey::try_find_program_address`: tries the nonces from 255 down to 1, each as one
/// more seed of one byte, and returns the first that derives an address, with that
/// address, which is no point of the curve; nothing where none of them does.
#[verifier::external_body]
fn try_find_program_address(seeds: &Vec<Vec<u8>>, program_id: &Address) -> (r: Option<
    (Address, u8),
>)
    requires
        seeds_within_limits(seeds@, 1),
    ensures
        match r {
            Some((address, bump)) => {
                &&& bump >= 1
                &&& program_address(seeds.deep_view().push(seq![bump]), program_id@) == Some(
                    address@,
                )
                &&& !on_curve(address@)
                &&& forall|other: u8|
                    bump < other ==> #[trigger] program_address(
                        seeds.deep_view().push(seq![other]),
                        program_id@,
                    ) is None
            },
            None => forall|other: u8|
                other >= 1 ==> #[trigger] program_address(
                    seeds.deep_view().push(seq![other]),
                    program_id@,
                ) is None,
        },
{
    let parts: Vec<&[u8]> = seeds.iter().map(|s| s.as_slice()).collect();
    match Pubkey::try_find_program_address(&parts, &Pubkey::new_from_array(program_id.bytes)) {
        Some((key, bump)) => Some((Address { bytes: key.to_bytes() }, bump)),
        None => None,
    }
}

/// The tag that sets escrow authorities apart from the program's other addresses.
pub open spec fn escrow_tag() -> Seq<u8> {
    seq![101u8, 115u8, 99u8, 114u8, 111u8, 119u8]
}

/// What an escrow's authority is derived from, before the nonce: the tag, the maker
/// and the seed in little-endian order.
pub open spec fn escrow_seeds(maker: Seq<u8>, seed: u64) -> Seq<Seq<u8>> {
    seq![escrow_tag(), maker, spec_u64_to_le_bytes(seed)]
}

/// What reproduces an escrow's authority: its seeds, then the nonce.
pub open spec fn signer_seeds(maker: Seq<u8>, seed: u64, bump: u8) -> Seq<Seq<u8>> {
    escrow_seeds(maker, seed).push(seq![bump])
}

/// The authority that `program_id` derives for the escrow of `maker` and `seed` under
/// the nonce `bump`, if there is one.
pub open spec fn authority_address(program_id: Seq<u8>, maker: Seq<u8>, seed: u64, bump: u8) -> Option<
    Seq<u8>,
> {
    program_address(signer_seeds(maker, seed, bump), program_id)
}

/// Whether `bump` is the nonce that derivation settles on: the largest, from 255 down
/// to 1, under which the escrow has an authority.
pub open spec fn canonical_bump(program_id: Seq<u8>, maker: Seq<u8>, seed: u64, bump: u8) -> bool {
    &&& bump >= 1
    &&& authority_address(program_id, maker, seed, bump) is Some
    &&& forall|other: u8|
        bump < other ==> #[trigger] authority_address(program_id, maker, seed, other) is None
}

/// Whether no nonce gives the escrow an authority.
pub open spec fn derivation_exhausted(program_id: Seq<u8>, maker: Seq<u8>, seed: u64) -> bool {
    forall|bump: u8|
        bump >= 1 ==> #[trigger] authority_address(program_id, maker, seed, bump) is None
}

/// The seeds of the escrow of `maker` and `seed`, before the nonce.
pub fn escrow_seed_bytes(maker: &Address, seed: u64) -> (r: Vec<Vec<u8>>)
    ensures
        r.deep_view() == escrow_seeds(maker@, seed),
        seeds_within_limits(r@, 1),
{
    let tag: Vec<u8> = vec![101u8, 115u8, 99u8, 114u8, 111u8, 119u8];
    let mut seeds: Vec<Vec<u8>> = Vec::new();
    seeds.push(tag);
    seeds.push(maker.to_vec());
    seeds.push(u64_to_le_bytes(seed));
    assert(seeds.deep_view() =~~= escrow_seeds(maker@, seed));
    seeds
}

/// The seeds with which the program signs for the escrow of `maker` and `seed` under
/// the nonce `bump`.
pub fn signer_seed_bytes(maker: &Address, seed: u64, bump: u8) -> (r: Vec<Vec<u8>>)
    ensures
        r.deep_view() == signer_seeds(maker@, seed, bump),
        seeds_within_limits(r@, 0),
{
    let mut seeds = escrow_seed_bytes(maker, seed);
    let last: Vec<u8> = vec![bump];
    seeds.push(last);
    assert(seeds.deep_view() =~~= signer_seeds(maker@, seed, bump));
    seeds
}

/// Derives the authority of the escrow of `maker` and `seed`, and the nonce it is
/// found under. No key signs for the authority: it is no point of the curve.
pub fn derive_authority(program_id: &Address, maker: &Address, seed: u64) -> (r: Option<
    (Address, u8),
>)
    ensures
        match r {
            Some((address, bump)) => {
                &&& canonical_bump(program_id@, maker@, seed, bump)
                &&& authority_address(program_id@, maker@, seed, bump) == Some(address@)
                &&& !on_curve(address@)
            },
            None => derivation_exhausted(program_id@, maker@, seed),
        },
{
    let seeds = escrow_seed_bytes(maker, seed);
    try_find_program_address(&seeds, program_id)
}

/// Derives once more the authority of the escrow of `maker` and `seed` under a nonce
/// that is already known. No key signs for the authority: it is no point of the curve.
pub fn rederive_authority(program_id: &Address, maker: &Address, seed: u64, bump: u8) -> (r:
    Option<Address>)
    ensures
        address_view(r) == authority_address(program_id@, maker@, seed, bump),
        r matches Some(address) ==> !on_curve(address@),
{
    let seeds = signer_seed_bytes(maker, seed, bump);
    create_program_address(&seeds, program_id)
}

} // verus!
