use mint_nft_skytrade::mint::mint_cnft;
use mint_nft_skytrade::pda::{derive_tree_owner, derive_vault_address, derive_whitelist_address};
use mint_nft_skytrade::tree::create_tree;
use solana_program::pubkey::Pubkey;

fn key(b: u8) -> [u8; 32] {
    [b; 32]
}

#[test]
fn mint_plan_carries_the_metadata_unchanged() {
    let plan = mint_cnft(
        String::from("Sky Parcel"),
        String::from("SKY"),
        String::from("https://example.invalid/meta.json"),
        550,
        &key(0x33),
        &key(0x11),
        253,
    );
    assert_eq!(plan.name, "Sky Parcel");
    assert_eq!(plan.symbol, "SKY");
    assert_eq!(plan.uri, "https://example.invalid/meta.json");
    assert_eq!(plan.seller_fee_basis_points, 550);
    assert!(!plan.primary_sale_happened);
    assert!(!plan.is_mutable);
    assert_eq!(plan.edition_nonce, 0);
    assert_eq!(plan.collection_key, key(0x33));
    assert!(!plan.collection_verified);
    assert_eq!(
        plan.tree_owner_signer_seeds,
        vec![b"tree_owner".to_vec(), key(0x11).to_vec(), vec![253]],
    );
}

#[test]
fn create_tree_plan_carries_the_shape_unchanged() {
    let plan = create_tree(14, 64, &key(0x11), 251);
    assert_eq!(plan.max_depth, 14);
    assert_eq!(plan.max_buffer_size, 64);
    assert_eq!(
        plan.tree_owner_signer_seeds,
        vec![b"tree_owner".to_vec(), key(0x11).to_vec(), vec![251]],
    );
}

#[test]
fn vault_address_matches_the_ledger_derivation() {
    let asset = key(0x44);
    let program = key(0x55);
    let (addr, bump) = derive_vault_address(&asset, &program).expect("a bump exists");
    let (expected, expected_bump) = Pubkey::find_program_address(
        &[b"stake_vault", &asset],
        &Pubkey::new_from_array(program),
    );
    assert_eq!(addr, expected.to_bytes());
    assert_eq!(bump, expected_bump);
    // the derivation is not an echo of its inputs
    assert_ne!(addr, asset);
    assert_ne!(addr, program);
}

#[test]
fn tree_owner_address_matches_the_ledger_derivation() {
    let tree = key(0x66);
    let program = key(0x77);
    let (addr, bump) = derive_tree_owner(&tree, &program).expect("a bump exists");
    let (expected, expected_bump) = Pubkey::find_program_address(
        &[b"tree_owner", &tree],
        &Pubkey::new_from_array(program),
    );
    assert_eq!(addr, expected.to_bytes());
    assert_eq!(bump, expected_bump);
}

#[test]
fn whitelist_address_matches_the_ledger_derivation() {
    let program = key(0x21);
    let (addr, bump) = derive_whitelist_address(&program).expect("a bump exists");
    let (expected, expected_bump) = Pubkey::find_program_address(
        &[b"token_whitelist"],
        &Pubkey::new_from_array(program),
    );
    assert_eq!(addr, expected.to_bytes());
    assert_eq!(bump, expected_bump);
}

#[test]
fn derivation_is_deterministic() {
    let a = derive_vault_address(&key(1), &key(2)).unwrap();
    let b = derive_vault_address(&key(1), &key(2)).unwrap();
    assert_eq!(a, b);
    let c = derive_vault_address(&key(3), &key(2)).unwrap();
    assert_ne!(a.0, c.0);
}
