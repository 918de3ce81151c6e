use vstd::prelude::*;

use vstd::bytes::{
    lemma_auto_spec_u64_to_from_le_bytes, spec_u64_from_le_bytes, spec_u64_to_le_bytes,
    u64_to_le_bytes,
};

use crate::error::EscrowError;

verus! {

/// A 32-byte account address.
pub type Address = [u8; 32];

/// What the host's program-address search yields for a list of seeds under a
/// program: the first valid bump seed, counting down from 255, with its
/// address, or nothing where no bump seed gives a valid address.
pub uninterp spec fn program_address_search(seeds: Seq<Seq<u8>>, program_id: Seq<u8>) -> Option<
    (Seq<u8>, u8),
>;

/// An address derived from seeds, together with the bump seed that makes it
/// valid and lets the program sign for it.
#[derive(Clone, Copy, Debug, PartialEq, Eq)]
pub struct DerivedAuthority {
    pub address: Address,
    pub bump: u8,
}

/// The address and bump of a search result, as plain sequences.
pub open spec fn authority_view(r: Option<DerivedAuthority>) -> Option<(Seq<u8>, u8)> {
    match r {
        Some(d) => Some((d.address@, d.bump)),
        None => None,
    }
}

/// Relies on `solana_program::pubkey::Pubkey::try_find_program_address`: it
/// hashes the seeds, a bump and the program id, and its result depends on
/// those values alone.
#[verifier::external_body]
fn try_find_program_address(seeds: &Vec<Vec<u8>>, program_id: &Address) -> (r: Option<
    DerivedAuthority,
>)
    ensures
        authority_view(r) == program_address_search(seeds.deep_view(), program_id@),
{
    let refs: Vec<&[u8]> = seeds.iter().map(|s| s.as_slice()).collect();
    let program = solana_program::pubkey::Pubkey::new_from_array(*program_id);
    solana_program::pubkey::Pubkey::try_find_program_address(&refs, &program).map(
        |(key, bump)| DerivedAuthority { address: key.to_bytes(), bump },
    )
}

/// The fixed first seed of every escrow record: the bytes of `"escrow"`.
pub open spec fn escrow_seed_prefix() -> Seq<u8> {
    seq![101u8, 115u8, 99u8, 114u8, 111u8, 119u8]
}

/// The fixed first seed of every reserve account: the bytes of `"heehee"`.
pub open spec fn reserve_seed_prefix() -> Seq<u8> {
    seq![104u8, 101u8, 101u8, 104u8, 101u8, 101u8]
}

/// The seeds of the escrow record of `(owner, input_mint, output_mint, index)`.
pub open spec fn escrow_seeds(
    owner: Seq<u8>,
    input_mint: Seq<u8>,
    output_mint: Seq<u8>,
    index: u64,
) -> Seq<Seq<u8>> {
    seq![escrow_seed_prefix(), owner, input_mint, output_mint, spec_u64_to_le_bytes(index)]
}

/// The seeds of the reserve account kept for `output_mint`.
pub open spec fn reserve_seeds(output_mint: Seq<u8>) -> Seq<Seq<u8>> {
    seq![reserve_seed_prefix(), output_mint]
}

/// The escrow record's derived address and bump.
pub open spec fn escrow_derivation(
    program_id: Seq<u8>,
    owner: Seq<u8>,
    input_mint: Seq<u8>,
    output_mint: Seq<u8>,
    index: u64,
) -> Option<(Seq<u8>, u8)> {
    program_address_search(escrow_seeds(owner, input_mint, output_mint, index), program_id)
}

/// The reserve account's derived address and bump.
pub open spec fn reserve_derivation(program_id: Seq<u8>, output_mint: Seq<u8>) -> Option<
    (Seq<u8>, u8),
> {
    program_address_search(reserve_seeds(output_mint), program_id)
}

proof fn lemma_bytes_deep_view(v: Vec<u8>)
    ensures
        v.deep_view() == v@,
{
    assert(v.deep_view() =~= v@);
}

fn address_bytes(a: &Address) -> (r: Vec<u8>)
    ensures
        r@ == a@,
{
    vstd::slice::slice_to_vec(a.as_slice())
}

/// Builds the escrow record's seed list.
pub fn build_escrow_seeds(owner: &Address, input_mint: &Address, output_mint: &Address, index: u64) -> (r: Vec<Vec<u8>>)
    ensures
        r.deep_view() == escrow_seeds(owner@, input_mint@, output_mint@, index),
{
    let mut seeds: Vec<Vec<u8>> = Vec::new();
    seeds.push(vec![101u8, 115u8, 99u8, 114u8, 111u8, 119u8]);
    seeds.push(address_bytes(owner));
    seeds.push(address_bytes(input_mint));
    seeds.push(address_bytes(output_mint));
    seeds.push(u64_to_le_bytes(index));
    proof {
        lemma_bytes_deep_view(seeds[0]);
        lemma_bytes_deep_view(seeds[1]);
        lemma_bytes_deep_view(seeds[2]);
        lemma_bytes_deep_view(seeds[3]);
        lemma_bytes_deep_view(seeds[4]);
    }
    assert(seeds.deep_view() =~= escrow_seeds(owner@, input_mint@, output_mint@, index));
    seeds
}

/// Builds the reserve account's seed list.
pub fn build_reserve_seeds(output_mint: &Address) -> (r: Vec<Vec<u8>>)
    ensures
        r.deep_view() == reserve_seeds(output_mint@),
{
    let mut seeds: Vec<Vec<u8>> = Vec::new();
    seeds.push(vec![104u8, 101u8, 101u8, 104u8, 101u8, 101u8]);
    seeds.push(address_bytes(output_mint));
    proof {
        lemma_bytes_deep_view(seeds[0]);
        lemma_bytes_deep_view(seeds[1]);
    }
    assert(seeds.deep_view() =~= reserve_seeds(output_mint@));
    seeds
}

/// Derives the escrow record's address and signing bump from public identifiers.
pub fn find_escrow_authority(
    program_id: &Address,
    owner: &Address,
    input_mint: &Address,
    output_mint: &Address,
    index: u64,
) -> (r: Option<DerivedAuthority>)
    ensures
        authority_view(r) == escrow_derivation(program_id@, owner@, input_mint@, output_mint@, index),
{
    let seeds = build_escrow_seeds(owner, input_mint, output_mint, index);
    try_find_program_address(&seeds, program_id)
}

/// Derives the reserve account's address and signing bump for an output asset.
pub fn find_reserve_authority(program_id: &Address, output_mint: &Address) -> (r: Option<
    DerivedAuthority,
>)
    ensures
        authority_view(r) == reserve_derivation(program_id@, output_mint@),
{
    let seeds = build_reserve_seeds(output_mint);
    try_find_program_address(&seeds, program_id)
}

/// Two search results with the same view are the same value.
pub proof fn lemma_authority_view_injective(a: Option<DerivedAuthority>, b: Option<DerivedAuthority>)
    requires
        authority_view(a) == authority_view(b),
    ensures
        a == b,
{
    if let (Some(x), Some(y)) = (a, b) {
        assert(x.address@ == y.address@);
        assert forall|i: int| 0 <= i < 32 implies x.address[i] == y.address[i] by {
            assert(x.address@[i] == y.address@[i]);
        }
        assert(x.address =~= y.address);
    }
}

/// Deriving an escrow authority is deterministic: two derivations from the
/// same program, owner, assets and index yield the same address and bump.
pub proof fn lemma_escrow_derivation_deterministic(
    program_id: Address,
    owner: Address,
    input_mint: Address,
    output_mint: Address,
    index: u64,
    first: Option<DerivedAuthority>,
    second: Option<DerivedAuthority>,
)
    requires
        authority_view(first) == escrow_derivation(program_id@, owner@, input_mint@, output_mint@, index),
        authority_view(second) == escrow_derivation(program_id@, owner@, input_mint@, output_mint@, index),
    ensures
        first == second,
{
    lemma_authority_view_injective(first, second);
}

/// Deriving a reserve authority is deterministic: two derivations from the
/// same program and output asset yield the same address and bump.
pub proof fn lemma_reserve_derivation_deterministic(
    program_id: Address,
    output_mint: Address,
    first: Option<DerivedAuthority>,
    second: Option<DerivedAuthority>,
)
    requires
        authority_view(first) == reserve_derivation(program_id@, output_mint@),
        authority_view(second) == reserve_derivation(program_id@, output_mint@),
    ensures
        first == second,
{
    lemma_authority_view_injective(first, second);
}

/// Distinct `(owner, input asset, output asset, index)` tuples give distinct
/// escrow seed lists, so each record is derived from seeds of its own.
pub proof fn lemma_escrow_seeds_injective(
    owner1: Address,
    input_mint1: Address,
    output_mint1: Address,
    index1: u64,
    owner2: Address,
    input_mint2: Address,
    output_mint2: Address,
    index2: u64,
)
    requires
        escrow_seeds(owner1@, input_mint1@, output_mint1@, index1) == escrow_seeds(
            owner2@,
            input_mint2@,
            output_mint2@,
            index2,
        ),
    ensures
        owner1 == owner2,
        input_mint1 == input_mint2,
        output_mint1 == output_mint2,
        index1 == index2,
{
    let s1 = escrow_seeds(owner1@, input_mint1@, output_mint1@, index1);
    let s2 = escrow_seeds(owner2@, input_mint2@, output_mint2@, index2);
    assert(s1[1] == s2[1] && s1[2] == s2[2] && s1[3] == s2[3] && s1[4] == s2[4]);
    lemma_authority_view_injective(
        Some(DerivedAuthority { address: owner1, bump: 0 }),
        Some(DerivedAuthority { address: owner2, bump: 0 }),
    );
    lemma_authority_view_injective(
        Some(DerivedAuthority { address: input_mint1, bump: 0 }),
        Some(DerivedAuthority { address: input_mint2, bump: 0 }),
    );
    lemma_authority_view_injective(
        Some(DerivedAuthority { address: output_mint1, bump: 0 }),
        Some(DerivedAuthority { address: output_mint2, bump: 0 }),
    );
    lemma_auto_spec_u64_to_from_le_bytes();
    assert(spec_u64_from_le_bytes(spec_u64_to_le_bytes(index1)) == index1);
    assert(spec_u64_from_le_bytes(spec_u64_to_le_bytes(index2)) == index2);
}

/// The escrow and reserve authorities are separate domains: no escrow seed
/// list is ever a reserve seed list.
pub proof fn lemma_escrow_and_reserve_seeds_differ(
    owner: Address,
    input_mint: Address,
    output_mint: Address,
    index: u64,
    reserve_mint: Address,
)
    ensures
        escrow_seeds(owner@, input_mint@, output_mint@, index) != reserve_seeds(reserve_mint@),
{
    assert(escrow_seeds(owner@, input_mint@, output_mint@, index).len() == 5);
    assert(reserve_seeds(reserve_mint@).len() == 2);
}

} // verus!
