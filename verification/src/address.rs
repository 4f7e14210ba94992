use vstd::prelude::*;
use crate::bytes::{be_bytes_of_u64, u64_to_be_bytes};

verus! {

/// The derived storage address and salt for a list of seed byte strings
/// under a given owning program identity, or `None` in the statistically
/// improbable event that no salt yields a valid storage address.
pub uninterp spec fn pda_of(seeds: Seq<Seq<u8>>, program_id: Seq<u8>) -> Option<(Seq<u8>, u8)>;

/// Relies on `anchor_lang::solana_program::pubkey::Pubkey::try_find_program_address`:
/// the derived address and salt are a pure function of the seeds and the
/// program identity, and each derived address is 32 bytes long. `None` comes
/// only when no salt yields a valid address — statistically improbable for
/// seed lists within the derivation's length limits, as this crate's are.
#[verifier::external_body]
fn try_derive_address(seeds: &Vec<Vec<u8>>, program_id: &Vec<u8>) -> (r: Option<(Vec<u8>, u8)>)
    requires
        program_id@.len() == 32,
    ensures
        (match r {
            Some(p) => pda_of(seeds@.map_values(|s: Vec<u8>| s@), program_id@) == Some((p.0@, p.1))
                && p.0@.len() == 32,
            None => pda_of(seeds@.map_values(|s: Vec<u8>| s@), program_id@) is None,
        }),
{
    let mut id_bytes = [0u8; 32];
    id_bytes.copy_from_slice(program_id.as_slice());
    let id = anchor_lang::solana_program::pubkey::Pubkey::new_from_array(id_bytes);
    let seed_slices: Vec<&[u8]> = seeds.iter().map(|s| s.as_slice()).collect();
    anchor_lang::solana_program::pubkey::Pubkey::try_find_program_address(&seed_slices, &id)
        .map(|(addr, salt)| (addr.to_bytes().to_vec(), salt))
}

/// The namespace tag of the fund record: the bytes of `fund`.
pub open spec fn fund_tag() -> Seq<u8> {
    seq![102u8, 117u8, 110u8, 100u8]
}

/// The namespace tag of a donation record: the bytes of `donation`.
pub open spec fn donation_tag() -> Seq<u8> {
    seq![100u8, 111u8, 110u8, 97u8, 116u8, 105u8, 111u8, 110u8]
}

/// The seed list that addresses the singleton fund record.
pub open spec fn fund_seeds() -> Seq<Seq<u8>> {
    seq![fund_tag()]
}

/// The seed list that addresses the donation record at a sequence index.
pub open spec fn donation_seeds(index: u64) -> Seq<Seq<u8>> {
    seq![donation_tag(), be_bytes_of_u64(index)]
}

/// The derived address and salt of the fund record under a program identity.
pub open spec fn fund_pda(program_id: Seq<u8>) -> Option<(Seq<u8>, u8)> {
    pda_of(fund_seeds(), program_id)
}

/// The derived address and salt of the donation record at a sequence index
/// under a program identity.
pub open spec fn donation_pda(program_id: Seq<u8>, index: u64) -> Option<(Seq<u8>, u8)> {
    pda_of(donation_seeds(index), program_id)
}

/// The exec fund tag, equal to `fund_tag()`.
fn fund_tag_bytes() -> (r: Vec<u8>)
    ensures
        r@ == fund_tag(),
{
    let mut r: Vec<u8> = Vec::new();
    r.push(102u8);
    r.push(117u8);
    r.push(110u8);
    r.push(100u8);
    proof {
        assert(r@ =~= fund_tag());
    }
    r
}

/// The exec donation tag, equal to `donation_tag()`.
fn donation_tag_bytes() -> (r: Vec<u8>)
    ensures
        r@ == donation_tag(),
{
    let mut r: Vec<u8> = Vec::new();
    r.push(100u8);
    r.push(111u8);
    r.push(110u8);
    r.push(97u8);
    r.push(116u8);
    r.push(105u8);
    r.push(111u8);
    r.push(110u8);
    proof {
        assert(r@ =~= donation_tag());
    }
    r
}

/// Derive the storage address and salt of the singleton fund record.
///
/// Derivation is deterministic: the result is a pure function of the
/// program identity, so two derivations for the same identity agree.
pub fn derive_fund_address(program_id: &Vec<u8>) -> (r: Option<(Vec<u8>, u8)>)
    requires
        program_id@.len() == 32,
    ensures
        (match r {
            Some(p) => fund_pda(program_id@) == Some((p.0@, p.1)) && p.0@.len() == 32,
            None => fund_pda(program_id@) is None,
        }),
{
    let mut seeds: Vec<Vec<u8>> = Vec::new();
    seeds.push(fund_tag_bytes());
    proof {
        assert(seeds@.map_values(|s: Vec<u8>| s@) =~= fund_seeds());
    }
    try_derive_address(&seeds, program_id)
}

/// Derive the storage address and salt of the donation record at a
/// sequence index.
///
/// Derivation is deterministic: the result is a pure function of the
/// program identity and the index, so two derivations for the same
/// arguments agree.
pub fn derive_donation_address(program_id: &Vec<u8>, index: u64) -> (r: Option<(Vec<u8>, u8)>)
    requires
        program_id@.len() == 32,
    ensures
        (match r {
            Some(p) => donation_pda(program_id@, index) == Some((p.0@, p.1)) && p.0@.len() == 32,
            None => donation_pda(program_id@, index) is None,
        }),
{
    let mut seeds: Vec<Vec<u8>> = Vec::new();
    seeds.push(donation_tag_bytes());
    seeds.push(u64_to_be_bytes(index));
    proof {
        assert(seeds@.map_values(|s: Vec<u8>| s@) =~= donation_seeds(index));
    }
    try_derive_address(&seeds, program_id)
}

/// Law: address derivation is deterministic. Two derivations for the same
/// tag, index and program identity yield the same address and the same salt.
pub proof fn lemma_derivation_deterministic(
    program_id: Seq<u8>,
    index: u64,
    r1: Option<(Seq<u8>, u8)>,
    r2: Option<(Seq<u8>, u8)>,
)
    requires
        r1 == donation_pda(program_id, index),
        r2 == donation_pda(program_id, index),
    ensures
        r1 == r2,
{
}

} // verus!
