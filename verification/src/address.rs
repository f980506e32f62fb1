//! Account identities, and the identity that is derived for a grant.

use crate::bytes::{le_bytes, write_bytes, write_u64};
use vstd::prelude::*;

verus! {

/// The identity of an account: 32 bytes.
pub type Pubkey = [u8; 32];

/// Whether two identities are the same.
pub fn same_key(a: &Pubkey, b: &Pubkey) -> (r: bool)
    ensures
        r == (a@ == b@),
        r == (*a == *b),
{
    let mut i: usize = 0;
    while i < 32
        invariant
            i <= 32,
            forall|j: int| 0 <= j < i ==> a@[j] == b@[j],
        decreases 32 - i,
    {
        if a[i] != b[i] {
            assert(a@[i as int] != b@[i as int]);
            return false;
        }
        i = i + 1;
    }
    assert(a@ =~= b@);
    assert(*a =~= *b);
    true
}

/// The tag that sets the identities of grants apart from all others derived
/// for the program: the ASCII letters of "vesting".
pub open spec fn domain_tag() -> Seq<u8> {
    seq![118u8, 101u8, 115u8, 116u8, 105u8, 110u8, 103u8]
}

/// The seeds from which the identity of a grant is derived: the domain tag,
/// the beneficiary, the mint, the grant's seed in eight little-endian bytes,
/// and the bump.
pub open spec fn grant_seeds(beneficiary: Seq<u8>, mint: Seq<u8>, seed: u64, bump: u8) -> Seq<
    Seq<u8>,
> {
    seq![domain_tag(), beneficiary, mint, le_bytes(seed as nat, 8), seq![bump]]
}

/// Builds the seeds from which the identity of a grant is derived. The same
/// seeds let the program sign for the grant's vault.
pub fn vesting_seeds(beneficiary: &Pubkey, mint: &Pubkey, seed: u64, bump: u8) -> (r: Vec<Vec<u8>>)
    ensures
        r.deep_view() == grant_seeds(beneficiary@, mint@, seed, bump),
{
    let mut tag: Vec<u8> = Vec::new();
    tag.push(118);
    tag.push(101);
    tag.push(115);
    tag.push(116);
    tag.push(105);
    tag.push(110);
    tag.push(103);
    let mut holder: Vec<u8> = Vec::new();
    write_bytes(&mut holder, beneficiary.as_slice());
    let mut token: Vec<u8> = Vec::new();
    write_bytes(&mut token, mint.as_slice());
    let mut number: Vec<u8> = Vec::new();
    write_u64(&mut number, seed);
    let mut last: Vec<u8> = Vec::new();
    last.push(bump);
    let mut seeds: Vec<Vec<u8>> = Vec::new();
    seeds.push(tag);
    seeds.push(holder);
    seeds.push(token);
    seeds.push(number);
    seeds.push(last);
    proof {
        let want = grant_seeds(beneficiary@, mint@, seed, bump);
        assert(seeds@[0]@ =~= want[0]);
        assert(seeds@[1]@ =~= want[1]);
        assert(seeds@[2]@ =~= want[2]);
        assert(seeds@[3]@ =~= want[3]);
        assert(seeds@[4]@ =~= want[4]);
        assert(seeds.deep_view() =~~= want);
    }
    seeds
}

/// The address that `solana_address::Address::create_program_address` gives
/// for a list of seeds and a program, or `None` where it gives none.
pub uninterp spec fn program_address(seeds: Seq<Seq<u8>>, program_id: Seq<u8>) -> Option<Seq<u8>>;

/// Calls `solana_address::Address::create_program_address`. It hashes the
/// seeds, the program's identity and a marker, and yields the hash as an
/// address unless the hash is a point of the curve, or there are more than
/// 16 seeds, or one of them is longer than 32 bytes. Nothing is proved of
/// this: the contract only gives the result its name, as a function of the
/// seeds and the program.
#[verifier::external_body]
fn create_program_address(seeds: &Vec<Vec<u8>>, program_id: &Pubkey) -> (r: Option<Pubkey>)
    ensures
        r matches Some(a) ==> program_address(seeds.deep_view(), program_id@) == Some(a@),
        r is None ==> program_address(seeds.deep_view(), program_id@) is None,
{
    let parts: Vec<&[u8]> = seeds.iter().map(|s| s.as_slice()).collect();
    let program = solana_address::Address::new_from_array(*program_id);
    match solana_address::Address::create_program_address(&parts, &program) {
        Ok(address) => Some(address.to_bytes()),
        Err(_) => None,
    }
}

/// The identity derived for the grant of a beneficiary, a mint and a seed
/// under a program, with a given bump; `None` where that bump yields none.
pub open spec fn grant_address(
    beneficiary: Seq<u8>,
    mint: Seq<u8>,
    seed: u64,
    bump: u8,
    program_id: Seq<u8>,
) -> Option<Seq<u8>> {
    program_address(grant_seeds(beneficiary, mint, seed, bump), program_id)
}

/// Derives the identity of a grant.
pub fn derive_vesting_address(
    beneficiary: &Pubkey,
    mint: &Pubkey,
    seed: u64,
    bump: u8,
    program_id: &Pubkey,
) -> (r: Option<Pubkey>)
    ensures
        r matches Some(a) ==> grant_address(beneficiary@, mint@, seed, bump, program_id@) == Some(
            a@,
        ),
        r is None ==> grant_address(beneficiary@, mint@, seed, bump, program_id@) is None,
{
    let seeds = vesting_seeds(beneficiary, mint, seed, bump);
    create_program_address(&seeds, program_id)
}

} // verus!
