use vstd::prelude::*;

use crate::keys::push_byte_run;

verus! {

/// The address and bump byte that program-derived-address search yields for the
/// given seeds under the given program identifier.
pub uninterp spec fn derived_pda(seeds: Seq<Seq<u8>>, program_id: Seq<u8>) -> (Seq<u8>, u8);

/// Whether program-derived-address search finds a usable bump byte for the
/// given seeds under the given program identifier. Like the address itself,
/// this is a fixed function of the two arguments.
pub uninterp spec fn pda_found(seeds: Seq<Seq<u8>>, program_id: Seq<u8>) -> bool;

/// Relies on solana_program::pubkey::Pubkey::try_find_program_address: the result,
/// including whether the search succeeds at all, depends on the seeds and the
/// program identifier alone, and `None` comes back, rather than a panic, when no
/// bump byte yields a usable derived address.
#[verifier::external_body]
fn try_find_program_address(seeds: &Vec<Vec<u8>>, program_id: &[u8; 32]) -> (r: Option<
    ([u8; 32], u8),
>)
    ensures
        r is Some <==> pda_found(seeds.deep_view(), program_id@),
        r matches Some(p) ==> {
            &&& p.0@ == derived_pda(seeds.deep_view(), program_id@).0
            &&& p.1 == derived_pda(seeds.deep_view(), program_id@).1
        },
{
    let refs: Vec<&[u8]> = seeds.iter().map(|s| s.as_slice()).collect();
    let pid = solana_program::pubkey::Pubkey::new_from_array(*program_id);
    solana_program::pubkey::Pubkey::try_find_program_address(&refs, &pid).map(
        |p: (solana_program::pubkey::Pubkey, u8)| (p.0.to_bytes(), p.1),
    )
}

/// The fixed salt that binds an escrow vault to its asset: the bytes of "stake_vault".
pub open spec fn stake_vault_seed() -> Seq<u8> {
    seq![115u8, 116u8, 97u8, 107u8, 101u8, 95u8, 118u8, 97u8, 117u8, 108u8, 116u8]
}

/// The fixed salt of the tree-delegate authority: the bytes of "tree_owner".
pub open spec fn tree_owner_seed() -> Seq<u8> {
    seq![116u8, 114u8, 101u8, 101u8, 95u8, 111u8, 119u8, 110u8, 101u8, 114u8]
}

/// The fixed seed of the whitelist record: the bytes of "token_whitelist".
pub open spec fn whitelist_seed() -> Seq<u8> {
    seq![
        116u8,
        111u8,
        107u8,
        101u8,
        110u8,
        95u8,
        119u8,
        104u8,
        105u8,
        116u8,
        101u8,
        108u8,
        105u8,
        115u8,
        116u8,
    ]
}

/// The seeds that address an asset's escrow vault: the fixed salt and the asset id.
pub open spec fn vault_seeds(asset_id: Seq<u8>) -> Seq<Seq<u8>> {
    seq![stake_vault_seed(), asset_id]
}

/// The seeds that address the tree-delegate authority of a tree.
pub open spec fn tree_owner_seeds(merkle_tree: Seq<u8>) -> Seq<Seq<u8>> {
    seq![tree_owner_seed(), merkle_tree]
}

/// The seeds that address the tree authority the compression program recognizes:
/// the tree's own address alone.
pub open spec fn tree_authority_seeds(merkle_tree: Seq<u8>) -> Seq<Seq<u8>> {
    seq![merkle_tree]
}


/// The fixed vault salt as bytes.
pub fn stake_vault_seed_bytes() -> (r: Vec<u8>)
    ensures
        r@ =~= stake_vault_seed(),
{
    let mut v: Vec<u8> = Vec::new();
    push_byte_run(&mut v, &[115u8, 116u8, 97u8, 107u8, 101u8, 95u8, 118u8, 97u8, 117u8, 108u8, 116u8]);
    v
}

/// The fixed tree-delegate salt as bytes.
pub fn tree_owner_seed_bytes() -> (r: Vec<u8>)
    ensures
        r@ =~= tree_owner_seed(),
{
    let mut v: Vec<u8> = Vec::new();
    push_byte_run(&mut v, &[116u8, 114u8, 101u8, 101u8, 95u8, 111u8, 119u8, 110u8, 101u8, 114u8]);
    v
}

/// The fixed whitelist seed as bytes.
pub fn whitelist_seed_bytes() -> (r: Vec<u8>)
    ensures
        r@ =~= whitelist_seed(),
{
    let mut v: Vec<u8> = Vec::new();
    push_byte_run(
        &mut v,
        &[116u8, 111u8, 107u8, 101u8, 110u8, 95u8, 119u8, 104u8, 105u8, 116u8, 101u8, 108u8, 105u8, 115u8, 116u8],
    );
    v
}

fn key_to_vec(k: &[u8; 32]) -> (r: Vec<u8>)
    ensures
        r@ =~= k@,
{
    let mut v: Vec<u8> = Vec::new();
    push_byte_run(&mut v, k.as_slice());
    v
}

/// Derives the escrow-vault address for an asset under this subsystem's program
/// identity. Whether a usable bump byte exists is itself a fixed function of
/// the inputs, named `pda_found`.
pub fn derive_vault_address(asset_id: &[u8; 32], program_id: &[u8; 32]) -> (r: Option<
    ([u8; 32], u8),
>)
    ensures
        r is Some <==> pda_found(vault_seeds(asset_id@), program_id@),
        r matches Some(p) ==> {
            &&& p.0@ == derived_pda(vault_seeds(asset_id@), program_id@).0
            &&& p.1 == derived_pda(vault_seeds(asset_id@), program_id@).1
        },
{
    let mut seeds: Vec<Vec<u8>> = Vec::new();
    seeds.push(stake_vault_seed_bytes());
    seeds.push(key_to_vec(asset_id));
    proof {
        assert(seeds.deep_view() =~~= vault_seeds(asset_id@));
    }
    try_find_program_address(&seeds, program_id)
}

/// The seeds that address the whitelist record: the fixed seed alone.
pub open spec fn whitelist_seeds() -> Seq<Seq<u8>> {
    seq![whitelist_seed()]
}

/// Derives the whitelist record's address under this subsystem's program
/// identity. Whether a usable bump byte exists is itself a fixed function of
/// the inputs, named `pda_found`.
pub fn derive_whitelist_address(program_id: &[u8; 32]) -> (r: Option<([u8; 32], u8)>)
    ensures
        r is Some <==> pda_found(whitelist_seeds(), program_id@),
        r matches Some(p) ==> {
            &&& p.0@ == derived_pda(whitelist_seeds(), program_id@).0
            &&& p.1 == derived_pda(whitelist_seeds(), program_id@).1
        },
{
    let mut seeds: Vec<Vec<u8>> = Vec::new();
    seeds.push(whitelist_seed_bytes());
    proof {
        assert(seeds.deep_view() =~~= whitelist_seeds());
    }
    try_find_program_address(&seeds, program_id)
}

/// Derives the tree-delegate authority for a tree under this subsystem's program
/// identity. Whether a usable bump byte exists is itself a fixed function of
/// the inputs, named `pda_found`.
pub fn derive_tree_owner(merkle_tree: &[u8; 32], program_id: &[u8; 32]) -> (r: Option<
    ([u8; 32], u8),
>)
    ensures
        r is Some <==> pda_found(tree_owner_seeds(merkle_tree@), program_id@),
        r matches Some(p) ==> {
            &&& p.0@ == derived_pda(tree_owner_seeds(merkle_tree@), program_id@).0
            &&& p.1 == derived_pda(tree_owner_seeds(merkle_tree@), program_id@).1
        },
{
    let mut seeds: Vec<Vec<u8>> = Vec::new();
    seeds.push(tree_owner_seed_bytes());
    seeds.push(key_to_vec(merkle_tree));
    proof {
        assert(seeds.deep_view() =~~= tree_owner_seeds(merkle_tree@));
    }
    try_find_program_address(&seeds, program_id)
}

/// Derives the tree authority recognized by the leaf-compression program.
/// Whether a usable bump byte exists is itself a fixed function of the inputs,
/// named `pda_found`.
pub fn derive_tree_authority(merkle_tree: &[u8; 32], compression_owner_id: &[u8; 32]) -> (r: Option<
    ([u8; 32], u8),
>)
    ensures
        r is Some <==> pda_found(tree_authority_seeds(merkle_tree@), compression_owner_id@),
        r matches Some(p) ==> {
            &&& p.0@ == derived_pda(tree_authority_seeds(merkle_tree@), compression_owner_id@).0
            &&& p.1 == derived_pda(tree_authority_seeds(merkle_tree@), compression_owner_id@).1
        },
{
    let mut seeds: Vec<Vec<u8>> = Vec::new();
    seeds.push(key_to_vec(merkle_tree));
    proof {
        assert(seeds.deep_view() =~~= tree_authority_seeds(merkle_tree@));
    }
    try_find_program_address(&seeds, compression_owner_id)
}

} // verus!
