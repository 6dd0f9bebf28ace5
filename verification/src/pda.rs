//! Deterministic storage-address derivation. The program stores the counter
//! under the seed `"counter"` and each escrow under the seeds `"escrow"` plus
//! the escrow id as 8 little-endian bytes. The derivation algorithm itself is
//! the host runtime's; this module only calls it.

use vstd::prelude::*;

use crate::addr::Address;

verus! {

/// What the runtime's program-address derivation returns for the given seeds
/// and program id: the derived address and bump seed, or nothing in the
/// statistically improbable event that no bump seed works.
pub uninterp spec fn derived_address(seeds: Seq<Seq<u8>>, program_id: Seq<u8>) -> Option<
    (Seq<u8>, u8),
>;

/// The derivation result as a mathematical value.
pub open spec fn derivation_view(r: Option<(Address, u8)>) -> Option<(Seq<u8>, u8)> {
    match r {
        Some((a, b)) => Some((a@, b)),
        None => None,
    }
}

/// Relies on solana_program::pubkey::Pubkey::try_find_program_address: the
/// result is a function of the seeds and the program id alone; it is None
/// exactly when no bump seed yields a valid derived address (or the seeds
/// are over the runtime's limits), and it never panics.
#[verifier::external_body]
fn find_derived_address(seeds: &Vec<Vec<u8>>, program_id: &Address) -> (r: Option<(Address, u8)>)
    ensures
        derivation_view(r) == derived_address(
            seeds@.map_values(|s: Vec<u8>| s@),
            program_id@,
        ),
{
    let pk = solana_program::pubkey::Pubkey::new_from_array(program_id.bytes);
    let seed_slices: Vec<&[u8]> = seeds.iter().map(|s| s.as_slice()).collect();
    match solana_program::pubkey::Pubkey::try_find_program_address(&seed_slices, &pk) {
        Some((a, b)) => Some((Address { bytes: a.to_bytes() }, b)),
        None => None,
    }
}

/// The bytes of the ASCII seed string `"counter"`.
pub open spec fn counter_seed() -> Seq<u8> {
    seq![99u8, 111u8, 117u8, 110u8, 116u8, 101u8, 114u8]
}

/// The bytes of the ASCII seed string `"escrow"`.
pub open spec fn escrow_seed() -> Seq<u8> {
    seq![101u8, 115u8, 99u8, 114u8, 111u8, 119u8]
}

/// The seed list under which the counter record is stored.
pub open spec fn counter_seeds() -> Seq<Seq<u8>> {
    seq![counter_seed()]
}

/// The seed list under which the escrow record with id `id` is stored.
pub open spec fn escrow_seeds(id: u64) -> Seq<Seq<u8>> {
    seq![escrow_seed(), vstd::bytes::spec_u64_to_le_bytes(id)]
}

/// The derived counter address and bump for a program id.
pub open spec fn counter_derivation(program_id: Seq<u8>) -> Option<(Seq<u8>, u8)> {
    derived_address(counter_seeds(), program_id)
}

/// The derived address and bump of the escrow record with id `id`.
pub open spec fn escrow_derivation(program_id: Seq<u8>, id: u64) -> Option<(Seq<u8>, u8)> {
    derived_address(escrow_seeds(id), program_id)
}

/// Builds the ASCII bytes of `"counter"`.
fn counter_seed_vec() -> (r: Vec<u8>)
    ensures
        r@ == counter_seed(),
{
    let mut s: Vec<u8> = Vec::new();
    s.push(99);
    s.push(111);
    s.push(117);
    s.push(110);
    s.push(116);
    s.push(101);
    s.push(114);
    proof {
        assert(s@ =~= counter_seed());
    }
    s
}

/// Builds the ASCII bytes of `"escrow"`.
fn escrow_seed_vec() -> (r: Vec<u8>)
    ensures
        r@ == escrow_seed(),
{
    let mut s: Vec<u8> = Vec::new();
    s.push(101);
    s.push(115);
    s.push(99);
    s.push(114);
    s.push(111);
    s.push(119);
    proof {
        assert(s@ =~= escrow_seed());
    }
    s
}

/// Derives the counter record's address and bump for `program_id`.
pub fn find_counter_address(program_id: &Address) -> (r: Option<(Address, u8)>)
    ensures
        derivation_view(r) == counter_derivation(program_id@),
{
    let seed = counter_seed_vec();
    let mut seeds: Vec<Vec<u8>> = Vec::new();
    seeds.push(seed);
    proof {
        assert(seeds@.map_values(|s: Vec<u8>| s@) =~~= counter_seeds());
    }
    find_derived_address(&seeds, program_id)
}

/// Derives the address and bump of the escrow record with id `id`.
pub fn find_escrow_address(program_id: &Address, id: u64) -> (r: Option<(Address, u8)>)
    ensures
        derivation_view(r) == escrow_derivation(program_id@, id),
{
    let seed0 = escrow_seed_vec();
    let seed1 = vstd::bytes::u64_to_le_bytes(id);
    let mut seeds: Vec<Vec<u8>> = Vec::new();
    seeds.push(seed0);
    seeds.push(seed1);
    proof {
        assert(seeds@.map_values(|s: Vec<u8>| s@) =~~= escrow_seeds(id));
    }
    find_derived_address(&seeds, program_id)
}

} // verus!
