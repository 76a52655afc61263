use vstd::prelude::*;

use crate::codec::opt_bytes_view;
use crate::metadata::ADDRESS_LEN;

verus! {

/// The program-derived address of `seeds` under `program`: the first address
/// off the curve found by trying the bump seeds from the highest down.
pub uninterp spec fn program_address_of(seeds: Seq<Seq<u8>>) -> Option<Seq<u8>>;

/// The seeds, then the program id, as the derivation takes them.
pub open spec fn derivation_input(seeds: Seq<Seq<u8>>, program: Seq<u8>) -> Seq<Seq<u8>> {
    seeds.push(program)
}

pub open spec fn seeds_view(seeds: Seq<Vec<u8>>) -> Seq<Seq<u8>> {
    Seq::new(seeds.len(), |i: int| seeds[i]@)
}

/// Relies on Pubkey::try_find_program_address: a pure function of the seeds
/// and the program id, with no address when no bump seed gives one.
#[verifier::external_body]
fn find_program_address(seeds: &Vec<Vec<u8>>, program: &Vec<u8>) -> (r: Option<Vec<u8>>)
    requires
        program@.len() == ADDRESS_LEN,
    ensures
        opt_bytes_view(r) == program_address_of(derivation_input(seeds_view(seeds@), program@)),
{
    let program = solana_program::pubkey::Pubkey::try_from(program.as_slice()).ok()?;
    let seeds: Vec<&[u8]> = seeds.iter().map(|s| s.as_slice()).collect();
    solana_program::pubkey::Pubkey::try_find_program_address(&seeds, &program)
        .map(|(address, _bump)| address.to_bytes().to_vec())
}

/// The program that keeps token metadata accounts.
pub open spec fn metadata_program_id_spec() -> Seq<u8> {
    seq![11u8, 112, 101, 177, 227, 209, 124, 69, 56, 157, 82, 127, 107, 4, 195, 205,
         88, 184, 108, 115, 26, 160, 253, 181, 73, 182, 209, 188, 3, 248, 41, 70]
}

/// The fixed seed of every metadata address: the word "metadata".
pub open spec fn metadata_seed_spec() -> Seq<u8> {
    seq![109u8, 101, 116, 97, 100, 97, 116, 97]
}

/// Where the metadata of a mint lives: derived from the fixed seed, the
/// metadata program and the mint, under the metadata program.
pub open spec fn metadata_address_spec(mint: Seq<u8>) -> Option<Seq<u8>> {
    program_address_of(
        derivation_input(seq![metadata_seed_spec(), metadata_program_id_spec(), mint], metadata_program_id_spec()),
    )
}

/// The address of a mint's metadata account; the same mint always gives the
/// same address, and no network is involved.
pub fn metadata_address(mint: &Vec<u8>) -> (r: Option<Vec<u8>>)
    ensures
        opt_bytes_view(r) == metadata_address_spec(mint@),
{
    let program: Vec<u8> = vec![11u8, 112, 101, 177, 227, 209, 124, 69, 56, 157, 82, 127, 107, 4, 195, 205,
         88, 184, 108, 115, 26, 160, 253, 181, 73, 182, 209, 188, 3, 248, 41, 70];
    assert(program@ =~= metadata_program_id_spec());
    let seed: Vec<u8> = vec![109u8, 101, 116, 97, 100, 97, 116, 97];
    assert(seed@ =~= metadata_seed_spec());
    let mut seeds: Vec<Vec<u8>> = Vec::new();
    seeds.push(seed);
    seeds.push(program.clone());
    seeds.push(mint.clone());
    assert(seeds_view(seeds@) =~= seq![metadata_seed_spec(), metadata_program_id_spec(), mint@]);
    find_program_address(&seeds, &program)
}

} // verus!
