//! Seed hashes and program-derived addresses.
use sha2::{Digest, Sha256};
use solana_pubkey::Pubkey;
use vstd::prelude::*;
use vstd::string::StringSliceAdditionalSpecFns;

use crate::bytes::{append_slice, array_to_vec};
use crate::config::Config;
use crate::error::WorldError;

verus! {

/// The SHA-256 digest of `data`.
pub uninterp spec fn sha256_of(data: Seq<u8>) -> [u8; 32];

/// Relies on sha2's `Sha256::digest`: the digest depends on the bytes alone.
#[verifier::external_body]
fn sha256(data: &Vec<u8>) -> (r: [u8; 32])
    ensures
        r == sha256_of(data@),
{
    Sha256::digest(data.as_slice()).into()
}

/// The address and bump that the ledger's bump search finds for `seeds`
/// under `program_id`, if any.
pub uninterp spec fn program_address_of(seeds: Seq<Seq<u8>>, program_id: Seq<u8>) -> Option<
    ([u8; 32], u8),
>;

/// The seeds as byte sequences.
pub open spec fn seeds_view(seeds: Seq<Vec<u8>>) -> Seq<Seq<u8>> {
    seeds.map_values(|s: Vec<u8>| s@)
}

/// Relies on solana_pubkey's `Pubkey::try_find_program_address`: the result
/// depends on the seeds and the program alone, and is `None` when there are
/// more than fifteen seeds or a seed is longer than thirty-two bytes.
#[verifier::external_body]
fn try_find_program_address(seeds: &Vec<Vec<u8>>, program_id: &[u8; 32]) -> (r: Option<
    ([u8; 32], u8),
>)
    ensures
        r == program_address_of(seeds_view(seeds@), program_id@),
        (seeds@.len() >= 16 || exists|i: int| 0 <= i < seeds@.len() && seeds@[i]@.len() > 32)
            ==> r is None,
{
    let refs: Vec<&[u8]> = seeds.iter().map(|s| s.as_slice()).collect();
    Pubkey::try_find_program_address(&refs, &Pubkey::new_from_array(*program_id)).map(
        |(a, b)| (a.to_bytes(), b),
    )
}

/// Outcome of deriving an address from seeds under a program.
pub open spec fn derived(seeds: Seq<Seq<u8>>, program_id: Seq<u8>) -> Result<
    ([u8; 32], u8),
    WorldError,
> {
    match program_address_of(seeds, program_id) {
        Some(p) => Ok(p),
        None => Err(WorldError::AddressDerivationError),
    }
}

/// The canonical (address, bump) for `seeds` under `program_id`, or
/// `AddressDerivationError` when the bump search finds none.
pub fn derive_address(program_id: &[u8; 32], seeds: &Vec<Vec<u8>>) -> (r: Result<
    ([u8; 32], u8),
    WorldError,
>)
    ensures
        r == derived(seeds_view(seeds@), program_id@),
{
    match try_find_program_address(seeds, program_id) {
        Some(p) => Ok(p),
        None => Err(WorldError::AddressDerivationError),
    }
}

/// Domain tag of world derivations: `"world"`.
pub open spec fn world_tag() -> Seq<u8> {
    seq![119u8, 111u8, 114u8, 108u8, 100u8]
}

/// Domain tag of state derivations: `"state"`.
pub open spec fn state_tag() -> Seq<u8> {
    seq![115u8, 116u8, 97u8, 116u8, 101u8]
}

/// Hash input of a world: tag, name, owner.
pub open spec fn world_material(owner: Seq<u8>, name: Seq<u8>) -> Seq<u8> {
    world_tag() + name + owner
}

/// Hash input of a state under a world: tag, world, name, owner.
pub open spec fn state_material(world: Seq<u8>, name: Seq<u8>, owner: Seq<u8>) -> Seq<u8> {
    state_tag() + world + name + owner
}

/// Seed hash of the world `name` owned by `owner`.
pub fn world_seed_hash(owner: &[u8; 32], name: &str) -> (r: [u8; 32])
    ensures
        r == sha256_of(world_material(owner@, name.spec_bytes())),
{
    let mut m: Vec<u8> = vec![119u8, 111u8, 114u8, 108u8, 100u8];
    assert(m@ =~= world_tag());
    append_slice(&mut m, name.as_bytes());
    append_slice(&mut m, owner.as_slice());
    sha256(&m)
}

/// Seed hash of the state `state_name` under `world`, owned by `owner`.
pub fn state_seed_hash(world: &[u8; 32], state_name: &str, owner: &[u8; 32]) -> (r: [u8; 32])
    ensures
        r == sha256_of(state_material(world@, state_name.spec_bytes(), owner@)),
{
    let mut m: Vec<u8> = vec![115u8, 116u8, 97u8, 116u8, 101u8];
    assert(m@ =~= state_tag());
    append_slice(&mut m, world.as_slice());
    append_slice(&mut m, state_name.as_bytes());
    append_slice(&mut m, owner.as_slice());
    sha256(&m)
}

/// Seeds of a primary address: the seed hash, then the owner.
pub open spec fn primary_seeds(seed_hash: [u8; 32], owner: Seq<u8>) -> Seq<Seq<u8>> {
    seq![seed_hash@, owner]
}

/// Address of the world `name` owned by `owner`.
pub open spec fn world_pda(c: Config, owner: Seq<u8>, name: Seq<u8>) -> Result<
    ([u8; 32], u8),
    WorldError,
> {
    derived(primary_seeds(sha256_of(world_material(owner, name)), owner), c.program_id@)
}

/// Address of the state `name` under `world`, owned by `owner`.
pub open spec fn state_pda(c: Config, world: Seq<u8>, name: Seq<u8>, owner: Seq<u8>) -> Result<
    ([u8; 32], u8),
    WorldError,
> {
    derived(primary_seeds(sha256_of(state_material(world, name, owner)), owner), c.program_id@)
}

/// Derives the address of a primary account from its seed hash and owner.
fn find_primary_pda(config: &Config, seed_hash: [u8; 32], owner: &[u8; 32]) -> (r: Result<
    ([u8; 32], u8),
    WorldError,
>)
    ensures
        r == derived(primary_seeds(seed_hash, owner@), config.program_id@),
{
    let seeds: Vec<Vec<u8>> = vec![array_to_vec(&seed_hash), array_to_vec(owner)];
    assert(seeds_view(seeds@) =~= primary_seeds(seed_hash, owner@));
    derive_address(&config.program_id, &seeds)
}

/// Address and bump of the world `name` owned by `owner`.
pub fn find_world_pda(config: &Config, owner: &[u8; 32], name: &str) -> (r: Result<
    ([u8; 32], u8),
    WorldError,
>)
    ensures
        r == world_pda(*config, owner@, name.spec_bytes()),
{
    let seed_hash = world_seed_hash(owner, name);
    find_primary_pda(config, seed_hash, owner)
}

/// Address and bump of the state `state_name` under `world`, owned by `owner`.
pub fn find_state_pda(config: &Config, world: &[u8; 32], state_name: &str, owner: &[u8; 32]) -> (r:
    Result<([u8; 32], u8), WorldError>)
    ensures
        r == state_pda(*config, world@, state_name.spec_bytes(), owner@),
{
    let seed_hash = state_seed_hash(world, state_name, owner);
    find_primary_pda(config, seed_hash, owner)
}

/// Seed hashing is deterministic: equal (owner, name) pairs give equal
/// hashes, and pairs that differ in any byte feed the hash different inputs.
pub proof fn lemma_world_seed_hash(o1: Seq<u8>, n1: Seq<u8>, o2: Seq<u8>, n2: Seq<u8>)
    requires
        o1.len() == 32,
        o2.len() == 32,
    ensures
        o1 == o2 && n1 == n2 ==> sha256_of(world_material(o1, n1)) == sha256_of(
            world_material(o2, n2),
        ),
        o1 != o2 || n1 != n2 ==> world_material(o1, n1) != world_material(o2, n2),
{
    let m1 = world_material(o1, n1);
    let m2 = world_material(o2, n2);
    assert(world_tag().len() == 5);
    if m1 == m2 {
        assert(m1.len() == 5 + n1.len() + 32);
        assert(m2.len() == 5 + n2.len() + 32);
        assert(n1 =~= m1.subrange(5, 5 + n1.len() as int));
        assert(n2 =~= m2.subrange(5, 5 + n2.len() as int));
        assert(o1 =~= m1.subrange(5 + n1.len() as int, m1.len() as int));
        assert(o2 =~= m2.subrange(5 + n2.len() as int, m2.len() as int));
    }
}

/// The same for state seed hashes, keyed by (world, name, owner).
pub proof fn lemma_state_seed_hash(
    w1: Seq<u8>,
    n1: Seq<u8>,
    o1: Seq<u8>,
    w2: Seq<u8>,
    n2: Seq<u8>,
    o2: Seq<u8>,
)
    requires
        w1.len() == 32,
        w2.len() == 32,
        o1.len() == 32,
        o2.len() == 32,
    ensures
        w1 == w2 && n1 == n2 && o1 == o2 ==> sha256_of(state_material(w1, n1, o1)) == sha256_of(
            state_material(w2, n2, o2),
        ),
        w1 != w2 || n1 != n2 || o1 != o2 ==> state_material(w1, n1, o1) != state_material(
            w2,
            n2,
            o2,
        ),
{
    let m1 = state_material(w1, n1, o1);
    let m2 = state_material(w2, n2, o2);
    assert(state_tag().len() == 5);
    if m1 == m2 {
        assert(m1.len() == 5 + 32 + n1.len() + 32);
        assert(m2.len() == 5 + 32 + n2.len() + 32);
        assert(w1 =~= m1.subrange(5, 37));
        assert(w2 =~= m2.subrange(5, 37));
        assert(n1 =~= m1.subrange(37, 37 + n1.len() as int));
        assert(n2 =~= m2.subrange(37, 37 + n2.len() as int));
        assert(o1 =~= m1.subrange(37 + n1.len() as int, m1.len() as int));
        assert(o2 =~= m2.subrange(37 + n2.len() as int, m2.len() as int));
    }
}

/// Address derivation is a pure function of the program and the seeds:
/// two derivations from the same inputs give the same (address, bump), or
/// both fail.
pub proof fn lemma_derive_deterministic(
    program_id: Seq<u8>,
    seeds: Seq<Seq<u8>>,
    r1: Result<([u8; 32], u8), WorldError>,
    r2: Result<([u8; 32], u8), WorldError>,
)
    requires
        r1 == derived(seeds, program_id),
        r2 == derived(seeds, program_id),
    ensures
        r1 == r2,
        r1 is Err <==> program_address_of(seeds, program_id) is None,
{
}

} // verus!
