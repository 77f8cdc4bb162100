//! Derivation of program-owned authority addresses. The sale's vault
//! authority and every participant record address are pure functions of the
//! program identity and the entity identities, recomputed and checked on
//! every operation rather than stored.

use vstd::prelude::*;

use crate::state::Address;

verus! {

/// The canonical program-derived address and bump seed for the given seeds
/// and program identity, if any bump yields a valid address. Deterministic:
/// the same seeds and program always derive the same pair.
pub uninterp spec fn pda_of(seeds: Seq<Seq<u8>>, program: Seq<u8>) -> Option<(Seq<u8>, u8)>;

/// The domain tag every derivation of this program starts with.
pub open spec fn prefix_seq() -> Seq<u8> {
    seq![116u8, 111u8, 107u8, 101u8, 110u8, 115u8, 101u8, 108u8, 108u8]
}

/// The domain tag as bytes: the ASCII of "tokensell".
pub fn prefix_bytes() -> (r: Vec<u8>)
    ensures
        r@ == prefix_seq(),
{
    let mut v: Vec<u8> = Vec::new();
    v.push(116);
    v.push(111);
    v.push(107);
    v.push(101);
    v.push(110);
    v.push(115);
    v.push(101);
    v.push(108);
    v.push(108);
    proof {
        assert(v@ =~= prefix_seq());
    }
    v
}

/// Seeds that derive the authority over a sale's custody vault.
pub open spec fn sale_authority_seeds(program: Seq<u8>, sell: Seq<u8>) -> Seq<Seq<u8>> {
    seq![prefix_seq(), program, sell]
}

/// Seeds that derive the address of one investor's participant record.
pub open spec fn participant_seeds(program: Seq<u8>, sell: Seq<u8>, payer: Seq<u8>) -> Seq<
    Seq<u8>,
> {
    seq![prefix_seq(), program, sell, payer]
}

/// Relies on solana_program's Pubkey::try_find_program_address: the returned
/// address and bump seed are the canonical derivation, a deterministic
/// function of the seeds and the program identity alone; None in the
/// statistically improbable case that no bump seed yields a valid address.
#[verifier::external_body]
fn find_derived_address(seeds: &Vec<Vec<u8>>, program: &Address) -> (r: Option<(Address, u8)>)
    ensures
        r is Some <==> pda_of(seeds@.map_values(|s: Vec<u8>| s@), program@) is Some,
        r matches Some(p) ==> Some((p.0@, p.1)) == pda_of(
            seeds@.map_values(|s: Vec<u8>| s@),
            program@,
        ),
{
    let refs: Vec<&[u8]> = seeds.iter().map(|s| s.as_slice()).collect();
    let program_key = solana_program::pubkey::Pubkey::new_from_array(program.bytes);
    match solana_program::pubkey::Pubkey::try_find_program_address(&refs, &program_key) {
        Some((address, bump)) => Some((Address { bytes: address.to_bytes() }, bump)),
        None => None,
    }
}

/// The 32 bytes of an identity as a fresh vector.
fn address_to_vec(a: &Address) -> (r: Vec<u8>)
    ensures
        r@ == a@,
{
    let mut v: Vec<u8> = Vec::new();
    crate::state::push_address(&mut v, a);
    v
}

/// Derives the identity permitted to move funds out of a sale's vault.
pub fn derive_sale_authority(program: &Address, sell: &Address) -> (r: Option<(Address, u8)>)
    ensures
        r is Some <==> pda_of(sale_authority_seeds(program@, sell@), program@) is Some,
        r matches Some(p) ==> Some((p.0@, p.1)) == pda_of(
            sale_authority_seeds(program@, sell@),
            program@,
        ),
{
    let mut seeds: Vec<Vec<u8>> = Vec::new();
    seeds.push(prefix_bytes());
    seeds.push(address_to_vec(program));
    seeds.push(address_to_vec(sell));
    proof {
        assert(seeds@.map_values(|s: Vec<u8>| s@) =~= sale_authority_seeds(program@, sell@));
    }
    find_derived_address(&seeds, program)
}

/// Derives the required address of one investor's participant record.
pub fn derive_participant_address(program: &Address, sell: &Address, payer: &Address) -> (r:
    Option<(Address, u8)>)
    ensures
        r is Some <==> pda_of(participant_seeds(program@, sell@, payer@), program@) is Some,
        r matches Some(p) ==> Some((p.0@, p.1)) == pda_of(
            participant_seeds(program@, sell@, payer@),
            program@,
        ),
{
    let mut seeds: Vec<Vec<u8>> = Vec::new();
    seeds.push(prefix_bytes());
    seeds.push(address_to_vec(program));
    seeds.push(address_to_vec(sell));
    seeds.push(address_to_vec(payer));
    proof {
        assert(seeds@.map_values(|s: Vec<u8>| s@) =~= participant_seeds(
            program@,
            sell@,
            payer@,
        ));
    }
    find_derived_address(&seeds, program)
}

} // verus!
