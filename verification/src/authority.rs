//! The custody authority: addresses that are derived from public seeds, and
//! that no private key controls.
//!
//! The address of an offer record, which is also the authority over its vault,
//! is derived from a namespace tag, the maker and the offer's id. The address of
//! a token account is derived from its owner, the token program and the asset.
//! The derivation itself, a hash followed by a test that the result is no
//! point of the curve, is the work of `solana_program`; this module builds the
//! seeds, names what one derivation yields, and states the search for a bump
//! seed over that name.

use crate::address::{address_of, lemma_address_of_seq, Address};
use anchor_lang::solana_program::pubkey::Pubkey;
use vstd::bytes::{spec_u64_to_le_bytes, u64_to_le_bytes};
use vstd::prelude::*;

verus! {

/// The address that `Pubkey::create_program_address` derives from `seeds`
/// under `program`, and `None` where it derives none.
pub uninterp spec fn program_address(seeds: Seq<Seq<u8>>, program: Seq<u8>) -> Option<Seq<u8>>;

/// The most seeds that a derivation takes.
pub const MAX_SEEDS: usize = 16;

/// The most bytes that one seed holds.
pub const MAX_SEED_LEN: usize = 32;

/// The byte strings that a list of seeds holds.
pub open spec fn seed_bytes(seeds: Seq<Vec<u8>>) -> Seq<Seq<u8>> {
    Seq::new(seeds.len(), |i: int| seeds[i]@)
}

/// Some seed is longer than a derivation takes.
pub open spec fn some_seed_too_long(seeds: Seq<Seq<u8>>) -> bool {
    exists|i: int| 0 <= i < seeds.len() && #[trigger] seeds[i].len() > MAX_SEED_LEN
}

/// The search for a bump seed from `bump` downwards: the first bump seed, not
/// below 1, with which the seeds derive an address, and that address; `None`
/// where no bump seed down to 1 derives one.
pub open spec fn search_from(seeds: Seq<Seq<u8>>, program: Seq<u8>, bump: u8) -> Option<
    (Seq<u8>, u8),
>
    decreases bump,
{
    if bump == 0 {
        None
    } else {
        match program_address(seeds.push(seq![bump]), program) {
            Some(a) => Some((a, bump)),
            None => search_from(seeds, program, (bump - 1) as u8),
        }
    }
}

/// The address and bump seed that a search from 255 downwards finds for
/// `seeds` under `program`, and `None` where it finds none.
pub open spec fn program_address_search(seeds: Seq<Seq<u8>>, program: Seq<u8>) -> Option<
    (Seq<u8>, u8),
> {
    search_from(seeds, program, 255)
}

/// What a search finds is the highest bump seed, between 1 and the one it
/// started from, with which the seeds derive an address, and that address.
pub proof fn lemma_search_finds_highest(seeds: Seq<Seq<u8>>, program: Seq<u8>, from: u8)
    ensures
        search_from(seeds, program, from) matches Some((a, bump)) ==> {
            &&& 1 <= bump <= from
            &&& program_address(seeds.push(seq![bump]), program) == Some(a)
            &&& forall|higher: u8|
                bump < higher <= from ==> program_address(
                    #[trigger] seeds.push(seq![higher]),
                    program,
                ) is None
        },
        search_from(seeds, program, from) is None ==> forall|bump: u8|
            1 <= bump <= from ==> program_address(#[trigger] seeds.push(seq![bump]), program)
                is None,
    decreases from,
{
    if from != 0 && program_address(seeds.push(seq![from]), program) is None {
        lemma_search_finds_highest(seeds, program, (from - 1) as u8);
    }
}

/// Calls `Pubkey::create_program_address`. The contract claims that the outcome
/// depends on the seeds and the program alone: an address where the call
/// returns one, `None` where it returns an error; and that it returns an error
/// for more than 16 seeds and for a seed of more than 32 bytes.
#[verifier::external_body]
fn create_program_address(seeds: &Vec<Vec<u8>>, program: &Address) -> (r: Option<Address>)
    ensures
        match r {
            Some(a) => program_address(seed_bytes(seeds@), program.seq()) == Some(a.seq()),
            None => program_address(seed_bytes(seeds@), program.seq()) is None,
        },
        seeds@.len() > MAX_SEEDS || some_seed_too_long(seed_bytes(seeds@)) ==> r is None,
{
    let parts: Vec<&[u8]> = seeds.iter().map(|s| s.as_slice()).collect();
    Pubkey::create_program_address(&parts, &Pubkey::new_from_array(program.bytes))
        .ok()
        .map(|key| Address { bytes: key.to_bytes() })
}

/// Calls `Pubkey::try_find_program_address`. The contract claims that the call
/// tries the bump seeds from 255 down to 1 and returns the first with which
/// `Pubkey::create_program_address` derives an address from the seeds followed
/// by the bump seed, with that address, and `None` where none does; and that
/// it returns `None` for 16 seeds or more and for a seed of more than 32
/// bytes.
#[verifier::external_body]
fn try_find_program_address(seeds: &Vec<Vec<u8>>, program: &Address) -> (r: Option<
    (Address, u8),
>)
    ensures
        match r {
            Some((a, bump)) => program_address_search(seed_bytes(seeds@), program.seq()) == Some(
                (a.seq(), bump),
            ),
            None => program_address_search(seed_bytes(seeds@), program.seq()) is None,
        },
        seeds@.len() >= MAX_SEEDS || some_seed_too_long(seed_bytes(seeds@)) ==> r is None,
{
    let parts: Vec<&[u8]> = seeds.iter().map(|s| s.as_slice()).collect();
    Pubkey::try_find_program_address(&parts, &Pubkey::new_from_array(program.bytes))
        .map(|(key, bump)| (Address { bytes: key.to_bytes() }, bump))
}

/// The programs under which addresses are derived.
#[derive(Clone, Copy, Debug, PartialEq, Eq)]
pub struct Programs {
    /// The escrow program: offer records are derived under it.
    pub escrow: Address,
    /// The token program, which is a seed of every token account.
    pub token: Address,
    /// The associated token program: token accounts are derived under it.
    pub associated_token: Address,
}

/// The namespace tag under which offer records are derived: the bytes of
/// `escrow`.
pub open spec fn namespace_tag() -> Seq<u8> {
    seq![101u8, 115u8, 99u8, 114u8, 111u8, 119u8]
}

/// The seeds of an offer record: the namespace tag, the maker, and the id in
/// little-endian bytes.
pub open spec fn spec_offer_seeds(maker: Address, id: u64) -> Seq<Seq<u8>> {
    seq![namespace_tag(), maker.seq(), spec_u64_to_le_bytes(id)]
}

/// The seeds with which the custody authority of an offer signs: the seeds of
/// the record followed by the bump seed.
pub open spec fn spec_signer_seeds(maker: Address, id: u64, bump: u8) -> Seq<Seq<u8>> {
    spec_offer_seeds(maker, id).push(seq![bump])
}

/// The seeds of the token account that `owner` holds for `mint` under
/// `token_program`.
pub open spec fn spec_token_account_seeds(
    owner: Address,
    token_program: Address,
    mint: Address,
) -> Seq<Seq<u8>> {
    seq![owner.seq(), token_program.seq(), mint.seq()]
}

/// The address of the offer record of `maker` with `id`, and its bump seed.
pub open spec fn spec_offer_address(program: Address, maker: Address, id: u64) -> Option<
    (Address, u8),
> {
    match program_address_search(spec_offer_seeds(maker, id), program.seq()) {
        Some((a, bump)) => Some((address_of(a), bump)),
        None => None,
    }
}

/// The custody authority that the signer seeds of an offer reproduce.
pub open spec fn spec_custody_authority(
    program: Address,
    maker: Address,
    id: u64,
    bump: u8,
) -> Option<Address> {
    match program_address(spec_signer_seeds(maker, id, bump), program.seq()) {
        Some(a) => Some(address_of(a)),
        None => None,
    }
}

/// The address of the token account that `owner` holds for `mint`.
pub open spec fn spec_token_address(programs: Programs, owner: Address, mint: Address) -> Option<
    Address,
> {
    match program_address_search(
        spec_token_account_seeds(owner, programs.token, mint),
        programs.associated_token.seq(),
    ) {
        Some((a, _)) => Some(address_of(a)),
        None => None,
    }
}

fn namespace() -> (tag: Vec<u8>)
    ensures
        tag@ == namespace_tag(),
{
    let tag: Vec<u8> = vec![101u8, 115u8, 99u8, 114u8, 111u8, 119u8];
    assert(tag@ =~= namespace_tag());
    tag
}

/// Builds the seeds of the offer record of `maker` with `id`.
pub fn offer_seeds(maker: &Address, id: u64) -> (seeds: Vec<Vec<u8>>)
    ensures
        seed_bytes(seeds@) == spec_offer_seeds(*maker, id),
{
    let mut seeds: Vec<Vec<u8>> = Vec::new();
    seeds.push(namespace());
    seeds.push(maker.to_vec());
    seeds.push(u64_to_le_bytes(id));
    assert(seed_bytes(seeds@) =~= spec_offer_seeds(*maker, id));
    seeds
}

/// Builds the seeds with which the custody authority of an offer signs.
pub fn signer_seeds(maker: &Address, id: u64, bump: u8) -> (seeds: Vec<Vec<u8>>)
    ensures
        seed_bytes(seeds@) == spec_signer_seeds(*maker, id, bump),
{
    let mut seeds = offer_seeds(maker, id);
    let ghost before = seeds@;
    let last: Vec<u8> = vec![bump];
    assert(last@ =~= seq![bump]);
    seeds.push(last);
    assert(seed_bytes(seeds@) =~= seed_bytes(before).push(seq![bump]));
    seeds
}

/// Finds the address of the offer record of `maker` with `id`, and the bump
/// seed that goes with it: the highest with which the seeds derive an address.
/// The address found is the custody authority that the signer seeds with that
/// bump seed reproduce.
pub fn find_offer_address(program: &Address, maker: &Address, id: u64) -> (r: Option<
    (Address, u8),
>)
    ensures
        r == spec_offer_address(*program, *maker, id),
        r matches Some((a, bump)) ==> spec_custody_authority(*program, *maker, id, bump)
            == Some(a),
{
    let seeds = offer_seeds(maker, id);
    let r = try_find_program_address(&seeds, program);
    proof {
        if let Some((a, _)) = r {
            lemma_address_of_seq(a);
            lemma_search_finds_highest(spec_offer_seeds(*maker, id), program.seq(), 255);
        }
    }
    r
}

/// Derives the custody authority of an offer from its signer seeds.
pub fn custody_authority(program: &Address, maker: &Address, id: u64, bump: u8) -> (r: Option<
    Address,
>)
    ensures
        r == spec_custody_authority(*program, *maker, id, bump),
{
    let seeds = signer_seeds(maker, id, bump);
    let r = create_program_address(&seeds, program);
    proof {
        if let Some(a) = r {
            lemma_address_of_seq(a);
        }
    }
    r
}

/// Tells whether a derivation has yielded the address `claimed`.
pub fn yields(derived: Option<Address>, claimed: &Address) -> (ok: bool)
    ensures
        ok == (derived == Some(*claimed)),
{
    match derived {
        Some(a) => a == *claimed,
        None => false,
    }
}

/// Tells whether `claimed` is the custody authority that the signer seeds of
/// an offer reproduce.
pub fn verify_offer_address(
    program: &Address,
    maker: &Address,
    id: u64,
    bump: u8,
    claimed: &Address,
) -> (ok: bool)
    ensures
        ok == (spec_custody_authority(*program, *maker, id, bump) == Some(*claimed)),
{
    yields(custody_authority(program, maker, id, bump), claimed)
}

/// Finds the address of the token account that `owner` holds for `mint`.
pub fn token_address(programs: &Programs, owner: &Address, mint: &Address) -> (r: Option<Address>)
    ensures
        r == spec_token_address(*programs, *owner, *mint),
{
    let mut seeds: Vec<Vec<u8>> = Vec::new();
    seeds.push(owner.to_vec());
    seeds.push(programs.token.to_vec());
    seeds.push(mint.to_vec());
    assert(seed_bytes(seeds@) =~= spec_token_account_seeds(*owner, programs.token, *mint));
    match try_find_program_address(&seeds, &programs.associated_token) {
        Some((a, _)) => {
            proof {
                lemma_address_of_seq(a);
            }
            Some(a)
        },
        None => None,
    }
}

} // verus!
