use vstd::prelude::*;

use anchor_lang::solana_program::pubkey::Pubkey;

use crate::key::Key;

verus! {

/// The program-derived address and bump seed that the runtime finds for `seeds` under
/// `program_id`, or `None` where no bump seed gives an address.
pub uninterp spec fn program_address(seeds: Seq<Seq<u8>>, program_id: Seq<u8>) -> Option<(Seq<u8>, u8)>;

pub open spec fn seeds_view(seeds: Seq<Vec<u8>>) -> Seq<Seq<u8>> {
    seeds.map_values(|s: Vec<u8>| s@)
}

pub open spec fn found_view(r: Option<(Key, u8)>) -> Option<(Seq<u8>, u8)> {
    match r {
        Some((k, b)) => Some((k@, b)),
        None => None,
    }
}

pub open spec fn key_option_view(r: Option<Key>) -> Option<Seq<u8>> {
    match r {
        Some(k) => Some(k@),
        None => None,
    }
}

/// Relies on solana_program's `Pubkey::try_find_program_address`: it searches the bump
/// seeds from 255 down and returns the first off-curve address, or `None`; it does not
/// panic, and its result depends on the seeds and the program id alone.
#[verifier::external_body]
fn try_find_program_address(seeds: &Vec<Vec<u8>>, program_id: &Key) -> (r: Option<(Key, u8)>)
    ensures
        found_view(r) == program_address(seeds_view(seeds@), program_id@),
{
    let refs: Vec<&[u8]> = seeds.iter().map(|s| s.as_slice()).collect();
    Pubkey::try_find_program_address(&refs, &Pubkey::new_from_array(program_id.bytes)).map(
        |(k, b)| (Key::new(k.to_bytes()), b),
    )
}

/// The first seed of a metadata account: the bytes of "metadata".
pub open spec fn metadata_seed() -> Seq<u8> {
    seq![109u8, 101u8, 116u8, 97u8, 100u8, 97u8, 116u8, 97u8]
}

/// The seeds of the metadata account of `mint` under the metadata program `program`.
pub open spec fn metadata_seeds(program: Seq<u8>, mint: Seq<u8>) -> Seq<Seq<u8>> {
    seq![metadata_seed(), program, mint]
}

/// The address of the metadata account of `mint`, derived under `program`.
pub open spec fn spec_metadata_address(program: Seq<u8>, mint: Seq<u8>) -> Option<Seq<u8>> {
    match program_address(metadata_seeds(program, mint), program) {
        Some((k, _)) => Some(k),
        None => None,
    }
}

/// Derives the address of the metadata account of `mint` under `token_metadata_program`.
pub fn metadata_address(token_metadata_program: &Key, mint: &Key) -> (r: Option<Key>)
    ensures
        key_option_view(r) == spec_metadata_address(token_metadata_program@, mint@),
{
    let seed: Vec<u8> = vec![109u8, 101u8, 116u8, 97u8, 100u8, 97u8, 116u8, 97u8];
    let seeds: Vec<Vec<u8>> = vec![seed, token_metadata_program.to_vec(), mint.to_vec()];
    assert(seeds[0]@ =~= metadata_seed());
    assert(seeds_view(seeds@) =~= metadata_seeds(token_metadata_program@, mint@));
    match try_find_program_address(&seeds, token_metadata_program) {
        Some((k, _)) => Some(k),
        None => None,
    }
}

} // verus!
