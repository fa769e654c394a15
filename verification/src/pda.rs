//! Deterministic address derivation: every mutable record lives at an
//! address derived from a seed tuple plus a completion byte. The derivation
//! itself is the host platform's; the engine calls it and checks the result.

use crate::address::Address;
use crate::codec::bytes_eq;
use crate::error::OpError;
use vstd::prelude::*;

verus! {

/// What the host's address derivation returns for a seed tuple and a
/// program identity: the 32 derived address bytes and the completion byte,
/// or nothing in the statistically improbable event that no completion
/// byte works. The result depends on the seeds and the program identity
/// alone.
pub uninterp spec fn pda_of(seeds: Seq<Seq<u8>>, program_id: Seq<u8>) -> Option<(Seq<u8>, u8)>;

/// Relies on solana_program's Pubkey::try_find_program_address: a pure
/// derivation (repeated hashing over the seeds, the program id and a
/// descending bump byte) whose result depends on its arguments alone.
#[verifier::external_body]
fn try_find_program_address(seeds: &Vec<Vec<u8>>, program_id: &Vec<u8>) -> (r: Option<
    (Vec<u8>, u8),
>)
    requires
        program_id@.len() == 32,
    ensures
        r matches Some(p) ==> pda_of(seeds@.map_values(|v: Vec<u8>| v@), program_id@) == Some(
            (p.0@, p.1),
        ) && p.0@.len() == 32,
        r is None ==> pda_of(seeds@.map_values(|v: Vec<u8>| v@), program_id@) is None,
{
    let refs: Vec<&[u8]> = seeds.iter().map(|s| s.as_slice()).collect();
    let pk = solana_program::pubkey::Pubkey::try_from(program_id.as_slice()).ok()?;
    solana_program::pubkey::Pubkey::try_find_program_address(&refs, &pk)
        .map(|(a, b)| (a.to_bytes().to_vec(), b))
}

/// Whether `account` is the address that the seed tuple derives under
/// `program_id`, whatever its completion byte.
pub open spec fn spec_pda_matches(
    seeds: Seq<Seq<u8>>,
    program_id: Seq<u8>,
    account: Address,
) -> bool {
    pda_of(seeds, program_id) matches Some(p) && p.0 == account.spec_bytes()
}

/// Checks that a caller-supplied record address equals the address the seed
/// tuple derives; made before any mutation touches a derived record.
pub fn verify_pda(seeds: &Vec<Vec<u8>>, program_id: &Address, account: &Address) -> (r: Result<
    (),
    OpError,
>)
    ensures
        r is Ok <==> spec_pda_matches(
            seeds@.map_values(|v: Vec<u8>| v@),
            program_id.spec_bytes(),
            *account,
        ),
        r is Err ==> r == Err::<(), OpError>(OpError::InvalidSeeds),
{
    let id_bytes = program_id.to_bytes();
    match try_find_program_address(seeds, &id_bytes) {
        Some((derived, _bump)) => {
            let expected = account.to_bytes();
            if bytes_eq(derived.as_slice(), expected.as_slice()) {
                Ok(())
            } else {
                Err(OpError::InvalidSeeds)
            }
        },
        None => Err(OpError::InvalidSeeds),
    }
}

/// Derives the address and completion byte for a seed tuple, if the host's
/// derivation finds one.
pub fn derive_pda(seeds: &Vec<Vec<u8>>, program_id: &Address) -> (r: Option<(Vec<u8>, u8)>)
    ensures
        r matches Some(p) ==> pda_of(seeds@.map_values(|v: Vec<u8>| v@), program_id.spec_bytes())
            == Some((p.0@, p.1)) && p.0@.len() == 32,
        r is None ==> pda_of(seeds@.map_values(|v: Vec<u8>| v@), program_id.spec_bytes()) is None,
{
    let id_bytes = program_id.to_bytes();
    try_find_program_address(seeds, &id_bytes)
}

} // verus!
