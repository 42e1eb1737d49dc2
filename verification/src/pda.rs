use crate::error::Error;
use crate::pubkey::{PubkeyWrapper, BUBBLEGUM_PROGRAM_ID};
use solana_program::pubkey::Pubkey;
use vstd::bytes::{lemma_auto_spec_u64_to_from_le_bytes, spec_u64_to_le_bytes, u64_to_le_bytes};
use vstd::prelude::*;
use vstd::slice::slice_to_vec;

verus! {

/// The first seed of every asset identifier: the ASCII text `asset`.
pub const ASSET_PREFIX: [u8; 5] = [97, 115, 115, 101, 116];

/// The program-derived address that the ledger's derivation scheme gives for
/// a list of seeds under a program: the address found with the highest bump
/// seed that yields one. There is none where no bump seed yields an address,
/// where a seed is longer than 32 bytes, and where there are more than 15
/// seeds.
pub uninterp spec fn program_address(seeds: Seq<Seq<u8>>, program_id: Seq<u8>) -> Option<Seq<u8>>;

/// The byte strings that a list of seed buffers holds.
pub open spec fn seed_views(seeds: Seq<Vec<u8>>) -> Seq<Seq<u8>> {
    seeds.map_values(|seed: Vec<u8>| seed@)
}

/// `Pubkey::try_find_program_address` of solana-program, the bump seed dropped.
/// Trusted: the address is what `program_address` names for these seeds and
/// this program, and there is none exactly where it names none.
#[verifier::external_body]
fn find_program_address(seeds: &Vec<Vec<u8>>, program_id: &PubkeyWrapper) -> (found: Option<
    PubkeyWrapper,
>)
    ensures
        found is Some <==> program_address(seed_views(seeds@), program_id@) is Some,
        found is Some ==> found->0@ == program_address(seed_views(seeds@), program_id@)->0,
{
    let parts: Vec<&[u8]> = seeds.iter().map(|seed| seed.as_slice()).collect();
    Pubkey::try_find_program_address(&parts, &Pubkey::from(program_id.0)).map(
        |(key, _)| PubkeyWrapper(key.to_bytes()),
    )
}

/// The seeds of a tree's configuration account: the tree's address alone.
pub open spec fn tree_config_seeds(tree: Seq<u8>) -> Seq<Seq<u8>> {
    seq![tree]
}

/// The seeds of an asset identifier: the prefix, the tree's address, and the
/// leaf nonce as eight little-endian bytes.
pub open spec fn asset_seeds(tree: Seq<u8>, nonce: u64) -> Seq<Seq<u8>> {
    seq![ASSET_PREFIX@, tree, spec_u64_to_le_bytes(nonce)]
}

/// The configuration address of a tree, where one can be derived.
pub open spec fn tree_config_address(tree: Seq<u8>) -> Option<Seq<u8>> {
    program_address(tree_config_seeds(tree), BUBBLEGUM_PROGRAM_ID@)
}

/// The identifier of the asset at a leaf of a tree, where one can be derived.
pub open spec fn asset_address(tree: Seq<u8>, nonce: u64) -> Option<Seq<u8>> {
    program_address(asset_seeds(tree, nonce), BUBBLEGUM_PROGRAM_ID@)
}

/// Derives the address of the configuration account that belongs to a tree.
///
/// The result depends on the tree's address alone. Fails with
/// `InvalidAddress` exactly when the derivation scheme finds no address for it.
pub fn derive_tree_config(tree: &PubkeyWrapper) -> (config: Result<PubkeyWrapper, Error>)
    ensures
        match tree_config_address(tree@) {
            Some(address) => config is Ok && config->Ok_0@ == address,
            None => config == Err::<PubkeyWrapper, Error>(Error::InvalidAddress),
        },
{
    let mut seeds: Vec<Vec<u8>> = Vec::new();
    seeds.push(slice_to_vec(tree.0.as_slice()));
    assert(seed_views(seeds@) =~= tree_config_seeds(tree@));
    let program = PubkeyWrapper(BUBBLEGUM_PROGRAM_ID);
    match find_program_address(&seeds, &program) {
        Some(address) => Ok(address),
        None => Err(Error::InvalidAddress),
    }
}

/// Derives the identifier of the asset at leaf `nonce` of a tree.
///
/// The result depends on the tree's address and the nonce alone. Fails with
/// `InvalidAddress` exactly when the derivation scheme finds no address for
/// them.
pub fn derive_asset_id(tree: &PubkeyWrapper, nonce: u64) -> (asset: Result<PubkeyWrapper, Error>)
    ensures
        match asset_address(tree@, nonce) {
            Some(address) => asset is Ok && asset->Ok_0@ == address,
            None => asset == Err::<PubkeyWrapper, Error>(Error::InvalidAddress),
        },
{
    let mut seeds: Vec<Vec<u8>> = Vec::new();
    seeds.push(slice_to_vec(ASSET_PREFIX.as_slice()));
    seeds.push(slice_to_vec(tree.0.as_slice()));
    seeds.push(u64_to_le_bytes(nonce));
    assert(seed_views(seeds@) =~= asset_seeds(tree@, nonce));
    let program = PubkeyWrapper(BUBBLEGUM_PROGRAM_ID);
    match find_program_address(&seeds, &program) {
        Some(address) => Ok(address),
        None => Err(Error::InvalidAddress),
    }
}

/// Two trees with the same address have the same configuration address:
/// the derivation reads nothing but the address.
pub proof fn lemma_tree_config_depends_on_address_alone(a: PubkeyWrapper, b: PubkeyWrapper)
    requires
        a@ == b@,
    ensures
        tree_config_address(a@) == tree_config_address(b@),
{
}

/// Different nonces on one tree give different seeds to the derivation.
pub proof fn lemma_asset_seeds_differ(tree: Seq<u8>, first: u64, second: u64)
    requires
        first != second,
    ensures
        asset_seeds(tree, first) != asset_seeds(tree, second),
{
    lemma_auto_spec_u64_to_from_le_bytes();
    if asset_seeds(tree, first) == asset_seeds(tree, second) {
        assert(asset_seeds(tree, first)[2] == asset_seeds(tree, second)[2]);
        assert(spec_u64_to_le_bytes(first) == spec_u64_to_le_bytes(second));
    }
}

} // verus!
