//! Program-derived address computation.
//!
//! Deriving an address from a seed set and a program identifier is a pure
//! cryptographic function; the search over bump values is delegated to the
//! Solana SDK and named by `pda_of`.

use crate::address::Address;
use crate::error::DecodeError;
use vstd::prelude::*;

verus! {

/// The most seeds a derivation accepts.
pub const MAX_SEEDS: usize = 16;

/// The widest seed a derivation accepts, in bytes.
pub const MAX_SEED_LEN: usize = 32;

/// What `Pubkey::try_find_program_address` returns for a seed set and a
/// program identifier: the derived 32-byte address and the bump actually
/// used, or nothing when no bump yields a valid address or the seeds
/// exceed the derivation limits.
pub uninterp spec fn pda_of(seeds: Seq<Seq<u8>>, program_id: Seq<u8>) -> Option<(Seq<u8>, u8)>;

/// Whether a seed set is within the derivation limits: fewer than 16
/// seeds, each at most 32 bytes.
pub open spec fn spec_seeds_ok(seeds: Seq<Seq<u8>>) -> bool {
    seeds.len() < 16 && (forall|i: int| 0 <= i < seeds.len() ==> seeds[i].len() <= 32)
}

/// Relies on solana_sdk's Pubkey::try_find_program_address: the outcome is
/// a function of the seeds and the program identifier alone, and a derived
/// address always holds 32 bytes.
#[verifier::external_body]
fn try_find_program_address(seeds: &Vec<Vec<u8>>, program_id: &Address) -> (r: Option<(Address, u8)>)
    requires
        program_id@.len() == 32,
    ensures
        (r is Some) == (pda_of(seeds.deep_view(), program_id@) is Some),
        r matches Some(p) ==> pda_of(seeds.deep_view(), program_id@) == Some((p.0@, p.1))
            && p.0@.len() == 32,
{
    let seed_slices: Vec<&[u8]> = seeds.iter().map(|s| s.as_slice()).collect();
    let pid_bytes: [u8; 32] = program_id.as_bytes().as_slice().try_into().unwrap();
    let pid = solana_sdk::pubkey::Pubkey::new_from_array(pid_bytes);
    solana_sdk::pubkey::Pubkey::try_find_program_address(&seed_slices, &pid).map(
        |p: (solana_sdk::pubkey::Pubkey, u8)| (Address { bytes: p.0.to_bytes().to_vec() }, p.1),
    )
}

/// Derives a program-derived address from an ordered seed set and a
/// program identifier. Seed sets outside the derivation limits are
/// rejected as invalid seeds, as is the statistically improbable seed set
/// for which no bump value yields a valid address. Two calls with equal
/// seeds and program identifier return the same address and bump.
pub fn derive(seeds: &Vec<Vec<u8>>, program_id: &Address) -> (r: Result<(Address, u8), DecodeError>)
    requires
        program_id.wf(),
    ensures
        !spec_seeds_ok(seeds.deep_view()) ==> (r matches Err(e) && e == DecodeError::InvalidSeed),
        spec_seeds_ok(seeds.deep_view()) ==> match pda_of(seeds.deep_view(), program_id@) {
            Some(p) => r matches Ok(q) && q.0@ == p.0 && q.1 == p.1 && q.0.wf(),
            None => r matches Err(e) && e == DecodeError::InvalidSeed,
        },
{
    if seeds.len() >= MAX_SEEDS {
        return Err(DecodeError::InvalidSeed);
    }
    let mut i: usize = 0;
    while i < seeds.len()
        invariant
            i <= seeds@.len(),
            seeds@.len() < 16,
            forall|j: int| 0 <= j < i ==> seeds.deep_view()[j].len() <= 32,
        decreases seeds@.len() - i,
    {
        if seeds[i].len() > MAX_SEED_LEN {
            proof {
                assert(seeds.deep_view()[i as int].len() > 32);
            }
            return Err(DecodeError::InvalidSeed);
        }
        i = i + 1;
    }
    match try_find_program_address(seeds, program_id) {
        Some(p) => Ok(p),
        None => Err(DecodeError::InvalidSeed),
    }
}

/// Derivation is referentially transparent: equal seed sets and program
/// identifiers always name the same derived address and bump.
pub proof fn lemma_derive_deterministic(
    seeds1: Seq<Seq<u8>>,
    pid1: Seq<u8>,
    seeds2: Seq<Seq<u8>>,
    pid2: Seq<u8>,
)
    requires
        seeds1 == seeds2,
        pid1 == pid2,
    ensures
        pda_of(seeds1, pid1) == pda_of(seeds2, pid2),
{
}

} // verus!
