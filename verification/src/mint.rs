use vstd::prelude::*;

use crate::keys::push_byte_run;
use crate::pda::tree_owner_seed_bytes;
use crate::pda::tree_owner_seeds;

verus! {

broadcast use vstd::array::group_array_axioms;

/// The metadata payload of a newly minted leaf and the derivation seeds that the
/// tree delegate signs the mint with.
pub struct MintPlan {
    pub name: String,
    pub symbol: String,
    pub uri: String,
    pub seller_fee_basis_points: u16,
    pub primary_sale_happened: bool,
    pub is_mutable: bool,
    pub edition_nonce: u8,
    pub collection_key: [u8; 32],
    pub collection_verified: bool,
    pub tree_owner_signer_seeds: Vec<Vec<u8>>,
}

/// Prepares the mint of a new compressed leaf: the caller-supplied strings and
/// fee fraction are carried over unchanged, the collection reference is attached
/// not yet verified, the leaf is born unsold and immutable, and the mint is
/// signed by the tree delegate derived from the tree's address.
pub fn mint_cnft(
    name: String,
    symbol: String,
    uri: String,
    seller_fee_basis_points: u16,
    collection_mint: &[u8; 32],
    merkle_tree: &[u8; 32],
    tree_owner_bump: u8,
) -> (p: MintPlan)
    ensures
        p.name@ == name@,
        p.symbol@ == symbol@,
        p.uri@ == uri@,
        p.seller_fee_basis_points == seller_fee_basis_points,
        p.primary_sale_happened == false,
        p.is_mutable == false,
        p.edition_nonce == 0,
        p.collection_key == *collection_mint,
        p.collection_verified == false,
        p.tree_owner_signer_seeds.deep_view() =~~= tree_owner_seeds(merkle_tree@).push(
            seq![tree_owner_bump],
        ),
{
    let mut tree_owner_signer_seeds: Vec<Vec<u8>> = Vec::new();
    tree_owner_signer_seeds.push(tree_owner_seed_bytes());
    let mut tree_seed: Vec<u8> = Vec::new();
    push_byte_run(&mut tree_seed, merkle_tree.as_slice());
    tree_owner_signer_seeds.push(tree_seed);
    let mut bump_seed: Vec<u8> = Vec::new();
    bump_seed.push(tree_owner_bump);
    tree_owner_signer_seeds.push(bump_seed);
    proof {
        assert(tree_owner_signer_seeds.deep_view() =~~= tree_owner_seeds(merkle_tree@).push(
            seq![tree_owner_bump],
        ));
    }
    MintPlan {
        name,
        symbol,
        uri,
        seller_fee_basis_points,
        primary_sale_happened: false,
        is_mutable: false,
        edition_nonce: 0,
        collection_key: *collection_mint,
        collection_verified: false,
        tree_owner_signer_seeds,
    }
}

} // verus!
