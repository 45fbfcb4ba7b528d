use vstd::prelude::*;

use crate::keys::push_byte_run;
use crate::pda::tree_owner_seed_bytes;
use crate::pda::tree_owner_seeds;

verus! {

broadcast use vstd::array::group_array_axioms;

/// The shape of a new tree and the derivation seeds its creation is signed with.
pub struct CreateTreePlan {
    pub max_depth: u32,
    pub max_buffer_size: u32,
    pub tree_owner_signer_seeds: Vec<Vec<u8>>,
}

/// Prepares the creation of a new compression tree: the requested depth and
/// buffer size are carried over unchanged and the call is signed by the tree
/// delegate derived from the tree's address.
pub fn create_tree(max_depth: u32, max_buffer_size: u32, merkle_tree: &[u8; 32], tree_owner_bump:
    u8) -> (p: CreateTreePlan)
    ensures
        p.max_depth == max_depth,
        p.max_buffer_size == max_buffer_size,
        p.tree_owner_signer_seeds.deep_view() =~~= tree_owner_seeds(merkle_tree@).push(
            seq![tree_owner_bump],
        ),
{
    let mut tree_owner_signer_seeds: Vec<Vec<u8>> = Vec::new();
    tree_owner_signer_seeds.push(tree_owner_seed_bytes());
    let mut tree_seed: Vec<u8> = Vec::new();
    push_byte_run(&mut tree_seed, merkle_tree.as_slice());
    tree_owner_signer_seeds.push(tree_seed);
    let mut bump_seed: Vec<u8> = Vec::new();
    bump_seed.push(tree_owner_bump);
    tree_owner_signer_seeds.push(bump_seed);
    proof {
        assert(tree_owner_signer_seeds.deep_view() =~~= tree_owner_seeds(merkle_tree@).push(
            seq![tree_owner_bump],
        ));
    }
    CreateTreePlan { max_depth, max_buffer_size, tree_owner_signer_seeds }
}

} // verus!
