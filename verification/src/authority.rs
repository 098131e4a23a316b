//! The derived authority: the address that signs for a group.
//!
//! The address is computed from the group's own address and the nonce stored
//! in the group, under the program that owns the group. No private key
//! belongs to it, so only that program can sign with it.

use vstd::prelude::*;
use crate::pubkey::Pubkey;

verus! {

/// What solana's `Pubkey::create_program_address` returns for these seeds
/// under this program: the bytes of the derived address, or `None` where it
/// reports an error. The computation is a hash of the arguments followed by a
/// test on the hash, so it is a function of the arguments and nothing shorter
/// than itself describes it.
pub uninterp spec fn program_address(seeds: Seq<Seq<u8>>, program_id: Seq<u8>) -> Option<Seq<u8>>;

/// The bytes of an address that may be missing.
pub open spec fn address_bytes(address: Option<Pubkey>) -> Option<Seq<u8>> {
    match address {
        Some(key) => Some(key@),
        None => None,
    }
}

/// Calls solana's `Pubkey::create_program_address`. Trusted: the result is the
/// address that the call returns, and `None` stands for each of its errors
/// (too many seeds, a seed that is too long, a hash that is a point of the
/// curve). Nothing is claimed of which addresses come out.
#[verifier::external_body]
fn create_program_address(seeds: &Vec<Vec<u8>>, program_id: &Pubkey) -> (address: Option<Pubkey>)
    ensures
        address_bytes(address) == program_address(seeds.deep_view(), program_id@),
{
    let seeds: Vec<&[u8]> = seeds.iter().map(|seed| seed.as_slice()).collect();
    let program_id = anchor_lang::solana_program::pubkey::Pubkey::new_from_array(program_id.bytes);
    match anchor_lang::solana_program::pubkey::Pubkey::create_program_address(&seeds, &program_id) {
        Ok(address) => Some(Pubkey { bytes: address.to_bytes() }),
        Err(_) => None,
    }
}

/// The seeds of a group's authority: the group's address, then its nonce.
pub open spec fn authority_seeds(group: Seq<u8>, nonce: u8) -> Seq<Seq<u8>> {
    seq![group, seq![nonce]]
}

/// The authority of the group at `group` with the given nonce, under the
/// program `program_id`; `None` where this nonce gives the group no authority.
pub open spec fn derived_authority(program_id: Seq<u8>, group: Seq<u8>, nonce: u8) -> Option<
    Seq<u8>,
> {
    program_address(authority_seeds(group, nonce), program_id)
}

/// Builds the seeds with which the program signs for a group.
pub fn signer_seeds(group: &Pubkey, nonce: u8) -> (seeds: Vec<Vec<u8>>)
    ensures
        seeds.deep_view() == authority_seeds(group@, nonce),
{
    let mut bump: Vec<u8> = Vec::new();
    bump.push(nonce);
    let mut seeds: Vec<Vec<u8>> = Vec::new();
    seeds.push(group.to_vec());
    seeds.push(bump);
    assert(seeds.deep_view() =~~= authority_seeds(group@, nonce));
    seeds
}

/// Derives the authority of a group. The result depends on the three
/// arguments alone.
pub fn derive_authority(program_id: &Pubkey, group: &Pubkey, nonce: u8) -> (authority: Option<
    Pubkey,
>)
    ensures
        address_bytes(authority) == derived_authority(program_id@, group@, nonce),
{
    let seeds = signer_seeds(group, nonce);
    create_program_address(&seeds, program_id)
}

/// Deriving is deterministic: whatever `derive_authority` returns twice for
/// the same program, group and nonce is the same result, the second time as
/// the first.
pub proof fn lemma_derive_deterministic(
    program_id: Pubkey,
    group: Pubkey,
    nonce: u8,
    first: Option<Pubkey>,
    second: Option<Pubkey>,
)
    ensures
        address_bytes(first) == derived_authority(program_id@, group@, nonce) && address_bytes(
            second,
        ) == derived_authority(program_id@, group@, nonce) ==> first == second,
{
    if let Some(a) = first {
        if let Some(b) = second {
            Pubkey::lemma_view_injective(a, b);
        }
    }
}

} // verus!
