use vstd::prelude::*;

use vstd::bytes::spec_u32_from_le_bytes;
use vstd::bytes::spec_u32_to_le_bytes;
use vstd::bytes::spec_u64_from_le_bytes;
use vstd::bytes::spec_u64_to_le_bytes;
use vstd::bytes::u32_to_le_bytes;
use vstd::bytes::u64_to_le_bytes;

use crate::keys::push_byte_run;
use crate::pda::derive_tree_authority;
use crate::pda::derived_pda;
use crate::pda::pda_found;
use crate::pda::tree_authority_seeds;

verus! {

broadcast use vstd::array::group_array_axioms;

/// One entry of the account list attached to a cross-program instruction.
#[derive(Clone, Copy, Debug)]
pub struct AccountMeta {
    pub pubkey: [u8; 32],
    pub is_signer: bool,
    pub is_writable: bool,
}

impl AccountMeta {
    /// A writable entry.
    pub fn new(pubkey: [u8; 32], is_signer: bool) -> (r: AccountMeta)
        ensures
            r == (AccountMeta { pubkey, is_signer, is_writable: true }),
    {
        AccountMeta { pubkey, is_signer, is_writable: true }
    }

    /// A read-only entry.
    pub fn new_readonly(pubkey: [u8; 32], is_signer: bool) -> (r: AccountMeta)
        ensures
            r == (AccountMeta { pubkey, is_signer, is_writable: false }),
    {
        AccountMeta { pubkey, is_signer, is_writable: false }
    }
}

/// The 8-byte operation tag that names "transfer leaf ownership" to the
/// leaf-compression program.
pub open spec fn transfer_discriminator() -> Seq<u8> {
    seq![163u8, 52u8, 200u8, 231u8, 140u8, 3u8, 69u8, 186u8]
}

/// The wire payload of a leaf transfer: the operation tag, the three 32-byte
/// hashes, the 64-bit little-endian nonce and the 32-bit little-endian index.
pub open spec fn spec_transfer_data(
    root: Seq<u8>,
    data_hash: Seq<u8>,
    creator_hash: Seq<u8>,
    nonce: u64,
    index: u32,
) -> Seq<u8> {
    transfer_discriminator() + root + data_hash + creator_hash + spec_u64_to_le_bytes(nonce)
        + spec_u32_to_le_bytes(index)
}


/// Assembles the wire payload of a leaf transfer, bit-exact.
pub fn build_transfer_data(
    root: &[u8; 32],
    data_hash: &[u8; 32],
    creator_hash: &[u8; 32],
    nonce: u64,
    index: u32,
) -> (data: Vec<u8>)
    ensures
        data@ == spec_transfer_data(root@, data_hash@, creator_hash@, nonce, index),
        data@.len() == 116,
{
    let mut data: Vec<u8> = Vec::new();
    let disc: [u8; 8] = [163u8, 52u8, 200u8, 231u8, 140u8, 3u8, 69u8, 186u8];
    proof {
        assert(disc@ =~= transfer_discriminator());
    }
    push_byte_run(&mut data, disc.as_slice());
    push_byte_run(&mut data, root.as_slice());
    push_byte_run(&mut data, data_hash.as_slice());
    push_byte_run(&mut data, creator_hash.as_slice());
    let mut nonce_bytes: Vec<u8> = u64_to_le_bytes(nonce);
    data.append(&mut nonce_bytes);
    let mut index_bytes: Vec<u8> = u32_to_le_bytes(index);
    data.append(&mut index_bytes);
    proof {
        vstd::bytes::lemma_auto_spec_u64_to_from_le_bytes();
        vstd::bytes::lemma_auto_spec_u32_to_from_le_bytes();
    }
    data
}

/// Decodes a transfer payload back into its fields: the three hashes, the nonce
/// and the leaf index. `None` exactly when the bytes are not a payload that
/// `spec_transfer_data` produces.
pub open spec fn spec_parse_transfer_data(d: Seq<u8>) -> Option<
    (Seq<u8>, Seq<u8>, Seq<u8>, u64, u32),
> {
    if d.len() != 116 {
        None
    } else if d.subrange(0, 8) != transfer_discriminator() {
        None
    } else {
        Some(
            (
                d.subrange(8, 40),
                d.subrange(40, 72),
                d.subrange(72, 104),
                spec_u64_from_le_bytes(d.subrange(104, 112)),
                spec_u32_from_le_bytes(d.subrange(112, 116)),
            ),
        )
    }
}

/// Encoding and decoding a transfer payload are inverse: decoding what
/// `spec_transfer_data` encodes yields exactly the encoded fields.
pub proof fn lemma_transfer_data_round_trip(
    root: Seq<u8>,
    data_hash: Seq<u8>,
    creator_hash: Seq<u8>,
    nonce: u64,
    index: u32,
)
    requires
        root.len() == 32,
        data_hash.len() == 32,
        creator_hash.len() == 32,
    ensures
        spec_parse_transfer_data(spec_transfer_data(root, data_hash, creator_hash, nonce, index))
            == Some((root, data_hash, creator_hash, nonce, index)),
{
    vstd::bytes::lemma_auto_spec_u64_to_from_le_bytes();
    vstd::bytes::lemma_auto_spec_u32_to_from_le_bytes();
    let d = spec_transfer_data(root, data_hash, creator_hash, nonce, index);
    assert(d.len() == 116);
    assert(d.subrange(0, 8) =~= transfer_discriminator());
    assert(d.subrange(8, 40) =~= root);
    assert(d.subrange(40, 72) =~= data_hash);
    assert(d.subrange(72, 104) =~= creator_hash);
    assert(d.subrange(104, 112) =~= spec_u64_to_le_bytes(nonce));
    assert(d.subrange(112, 116) =~= spec_u32_to_le_bytes(index));
}

/// Decodes a transfer payload, bit-exact with the encoder.
pub fn parse_transfer_data(data: &[u8]) -> (r: Option<([u8; 32], [u8; 32], [u8; 32], u64, u32)>)
    ensures
        r is Some <==> spec_parse_transfer_data(data@) is Some,
        r matches Some(f) ==> spec_parse_transfer_data(data@) == Some(
            (f.0@, f.1@, f.2@, f.3, f.4),
        ),
{
    if data.len() != 116 {
        return None;
    }
    let expected: [u8; 8] = [163u8, 52u8, 200u8, 231u8, 140u8, 3u8, 69u8, 186u8];
    let mut i: usize = 0;
    while i < 8
        invariant
            i <= 8,
            data@.len() == 116,
            expected@ =~= transfer_discriminator(),
            forall|j: int| 0 <= j < i ==> data@[j] == transfer_discriminator()[j],
        decreases 8 - i,
    {
        if *vstd::slice::slice_index_get(data, i) != expected[i] {
            proof {
                assert(data@.subrange(0, 8)[i as int] == data@[i as int]);
                assert(data@.subrange(0, 8) != transfer_discriminator());
            }
            return None;
        }
        i = i + 1;
    }
    proof {
        assert(data@.subrange(0, 8) =~= transfer_discriminator());
    }
    let root = crate::keys::read_key(data, 8);
    let data_hash = crate::keys::read_key(data, 40);
    let creator_hash = crate::keys::read_key(data, 72);
    let nonce = vstd::bytes::u64_from_le_bytes(vstd::slice::slice_subrange(data, 104, 112));
    let index = vstd::bytes::u32_from_le_bytes(vstd::slice::slice_subrange(data, 112, 116));
    Some((root, data_hash, creator_hash, nonce, index))
}

/// The accounts a transfer instruction names ahead of the proof path, in order:
/// the tree authority, the current owner (co-signing), the current owner again as
/// delegate, the new owner, the tree storage (writable), the log target, the
/// compression program, and the base runtime program.
pub open spec fn fixed_transfer_accounts(
    tree_authority: [u8; 32],
    leaf_owner: [u8; 32],
    new_leaf_owner: [u8; 32],
    merkle_tree: [u8; 32],
    log_wrapper: [u8; 32],
    compression_program: [u8; 32],
    system_program: [u8; 32],
) -> Seq<AccountMeta> {
    seq![
        AccountMeta { pubkey: tree_authority, is_signer: false, is_writable: false },
        AccountMeta { pubkey: leaf_owner, is_signer: true, is_writable: false },
        AccountMeta { pubkey: leaf_owner, is_signer: false, is_writable: false },
        AccountMeta { pubkey: new_leaf_owner, is_signer: false, is_writable: false },
        AccountMeta { pubkey: merkle_tree, is_signer: false, is_writable: true },
        AccountMeta { pubkey: log_wrapper, is_signer: false, is_writable: false },
        AccountMeta { pubkey: compression_program, is_signer: false, is_writable: false },
        AccountMeta { pubkey: system_program, is_signer: false, is_writable: false },
    ]
}

/// Assembles the account list of a transfer: the eight fixed entries followed by
/// every supplied proof-path account, in order, each read-only.
pub fn build_transfer_accounts(
    tree_authority: &[u8; 32],
    leaf_owner: &[u8; 32],
    new_leaf_owner: &[u8; 32],
    merkle_tree: &[u8; 32],
    log_wrapper: &[u8; 32],
    compression_program: &[u8; 32],
    system_program: &[u8; 32],
    proof_keys: &Vec<[u8; 32]>,
) -> (accounts: Vec<AccountMeta>)
    ensures
        accounts@.len() == 8 + proof_keys@.len(),
        accounts@.subrange(0, 8) == fixed_transfer_accounts(
            *tree_authority,
            *leaf_owner,
            *new_leaf_owner,
            *merkle_tree,
            *log_wrapper,
            *compression_program,
            *system_program,
        ),
        forall|i: int|
            0 <= i < proof_keys@.len() ==> accounts@[8 + i] == (AccountMeta {
                pubkey: proof_keys@[i],
                is_signer: false,
                is_writable: false,
            }),
{
    let mut accounts: Vec<AccountMeta> = Vec::new();
    accounts.push(AccountMeta::new_readonly(*tree_authority, false));
    accounts.push(AccountMeta::new_readonly(*leaf_owner, true));
    accounts.push(AccountMeta::new_readonly(*leaf_owner, false));
    accounts.push(AccountMeta::new_readonly(*new_leaf_owner, false));
    accounts.push(AccountMeta::new(*merkle_tree, false));
    accounts.push(AccountMeta::new_readonly(*log_wrapper, false));
    accounts.push(AccountMeta::new_readonly(*compression_program, false));
    accounts.push(AccountMeta::new_readonly(*system_program, false));
    proof {
        assert(accounts@ =~= fixed_transfer_accounts(
            *tree_authority,
            *leaf_owner,
            *new_leaf_owner,
            *merkle_tree,
            *log_wrapper,
            *compression_program,
            *system_program,
        ));
    }
    let ghost prefix = accounts@;
    let mut i: usize = 0;
    while i < proof_keys.len()
        invariant
            i <= proof_keys@.len(),
            accounts@.len() == 8 + i,
            accounts@.subrange(0, 8) =~= prefix,
            prefix.len() == 8,
            forall|j: int|
                0 <= j < i ==> accounts@[8 + j] == (AccountMeta {
                    pubkey: proof_keys@[j],
                    is_signer: false,
                    is_writable: false,
                }),
        decreases proof_keys@.len() - i,
    {
        accounts.push(AccountMeta::new_readonly(proof_keys[i], false));
        proof {
            assert(accounts@.subrange(0, 8) =~= prefix);
        }
        i = i + 1;
    }
    accounts
}

/// A fully-assembled cross-program transfer call: the target program, the ordered
/// account list, the wire payload, and the derivation seeds the caller signs with.
pub struct TransferPlan {
    pub program_id: [u8; 32],
    pub accounts: Vec<AccountMeta>,
    pub data: Vec<u8>,
    pub signer_seeds: Vec<Vec<u8>>,
}

/// Constructs the cross-program call that reassigns a compressed leaf to a new
/// owner. The tree authority and the bump byte of its signing seeds are derived
/// from the tree's address under the compression program's identity; whether
/// that derivation succeeds is a fixed function of those two identities, named
/// `pda_found`, so for a given tree and program a plan is either always owed or
/// never.
pub fn transfer_cnft(
    root: &[u8; 32],
    data_hash: &[u8; 32],
    creator_hash: &[u8; 32],
    nonce: u64,
    index: u32,
    leaf_owner: &[u8; 32],
    new_leaf_owner: &[u8; 32],
    merkle_tree: &[u8; 32],
    log_wrapper: &[u8; 32],
    compression_program: &[u8; 32],
    bubblegum_program: &[u8; 32],
    system_program: &[u8; 32],
    proof_keys: &Vec<[u8; 32]>,
) -> (r: Option<TransferPlan>)
    ensures
        r is Some <==> pda_found(tree_authority_seeds(merkle_tree@), bubblegum_program@),
        r matches Some(p) ==> {
            &&& p.program_id == *bubblegum_program
            &&& p.data@ == spec_transfer_data(root@, data_hash@, creator_hash@, nonce, index)
            &&& p.accounts@.len() == 8 + proof_keys@.len()
            &&& p.accounts@[0].pubkey@ == derived_pda(
                tree_authority_seeds(merkle_tree@),
                bubblegum_program@,
            ).0
            &&& p.accounts@.subrange(1, 8) == fixed_transfer_accounts(
                p.accounts@[0].pubkey,
                *leaf_owner,
                *new_leaf_owner,
                *merkle_tree,
                *log_wrapper,
                *compression_program,
                *system_program,
            ).subrange(1, 8)
            &&& p.accounts@[0].is_signer == false && p.accounts@[0].is_writable == false
            &&& forall|i: int|
                0 <= i < proof_keys@.len() ==> p.accounts@[8 + i] == (AccountMeta {
                    pubkey: proof_keys@[i],
                    is_signer: false,
                    is_writable: false,
                })
            &&& p.signer_seeds.deep_view() =~~= tree_authority_seeds(merkle_tree@).push(
                seq![derived_pda(tree_authority_seeds(merkle_tree@), bubblegum_program@).1],
            )
        },
{
    let derived = derive_tree_authority(merkle_tree, bubblegum_program);
    match derived {
        None => None,
        Some((tree_authority, bump)) => {
            let accounts = build_transfer_accounts(
                &tree_authority,
                leaf_owner,
                new_leaf_owner,
                merkle_tree,
                log_wrapper,
                compression_program,
                system_program,
                proof_keys,
            );
            let data = build_transfer_data(root, data_hash, creator_hash, nonce, index);
            let mut signer_seeds: Vec<Vec<u8>> = Vec::new();
            let mut tree_key: Vec<u8> = Vec::new();
            push_byte_run(&mut tree_key, merkle_tree.as_slice());
            signer_seeds.push(tree_key);
            let mut bump_seed: Vec<u8> = Vec::new();
            bump_seed.push(bump);
            signer_seeds.push(bump_seed);
            proof {
                assert(signer_seeds.deep_view() =~~= tree_authority_seeds(merkle_tree@).push(
                    seq![derived_pda(tree_authority_seeds(merkle_tree@), bubblegum_program@).1],
                ));
            }
            let plan = TransferPlan {
                program_id: *bubblegum_program,
                accounts,
                data,
                signer_seeds,
            };
            proof {
                assert(plan.accounts@.subrange(0, 8) == fixed_transfer_accounts(
                    tree_authority,
                    *leaf_owner,
                    *new_leaf_owner,
                    *merkle_tree,
                    *log_wrapper,
                    *compression_program,
                    *system_program,
                ));
                assert(plan.accounts@[0].pubkey == tree_authority);
                assert(plan.accounts@.subrange(1, 8) =~= plan.accounts@.subrange(0, 8).subrange(
                    1,
                    8,
                ));
            }
            Some(plan)
        },
    }
}

} // verus!
