use mint_nft_skytrade::asset::{Asset, Reputation};
use mint_nft_skytrade::burn::burn_cnft;
use mint_nft_skytrade::errors::Errors;
use mint_nft_skytrade::vault::{lock_fund, release};
use mint_nft_skytrade::whitelist::TokenWhitelist;

fn key(b: u8) -> [u8; 32] {
    [b; 32]
}

fn asset_priced(price: u64) -> Asset {
    Asset {
        id: key(0x0A),
        name: b"parcel".to_vec(),
        metadata_url: b"ipfs://m".to_vec(),
        price,
        last_updated: 0,
        reputation: Reputation::Medium,
        authority: key(0x0B),
    }
}

#[test]
fn lock_moves_exactly_the_price_into_the_vault() {
    let mut wl = TokenWhitelist::new();
    wl.insert_token(&key(1)).unwrap();
    let outcome = lock_fund(&wl, &key(1), &asset_priced(250), 0, 1_000).unwrap();
    assert_eq!(outcome.amount, 250);
    assert_eq!(outcome.vault_balance_after, 250);
    assert_eq!(outcome.payer_balance_after, 750);
}

#[test]
fn lock_rejects_a_token_off_the_whitelist() {
    let mut wl = TokenWhitelist::new();
    wl.insert_token(&key(1)).unwrap();
    let r = lock_fund(&wl, &key(2), &asset_priced(250), 0, 1_000);
    assert_eq!(r, Err(Errors::TokenNotWhitelisted));
}

#[test]
fn lock_rejects_a_payer_short_of_the_price() {
    let mut wl = TokenWhitelist::new();
    wl.insert_token(&key(1)).unwrap();
    let r = lock_fund(&wl, &key(1), &asset_priced(250), 0, 249);
    assert_eq!(r, Err(Errors::InSufficientToken));
}

#[test]
fn release_moves_the_whole_balance_to_the_destination() {
    let outcome = release(250, 40, &key(3), &key(3)).unwrap();
    assert_eq!(outcome.withdraw_amount, 250);
    assert_eq!(outcome.destination_balance_after, 290);
}

#[test]
fn release_rejects_a_signer_who_is_not_the_owner() {
    let r = release(250, 40, &key(4), &key(3));
    assert_eq!(r, Err(Errors::UnauthorizedSigner));
}

#[test]
fn lock_then_release_conserves_the_balance() {
    let mut wl = TokenWhitelist::new();
    wl.insert_token(&key(1)).unwrap();
    let lock = lock_fund(&wl, &key(1), &asset_priced(777), 0, 1_000).unwrap();
    assert_eq!(lock.vault_balance_after, 777);
    let rel = release(lock.vault_balance_after, 100, &key(3), &key(3)).unwrap();
    assert_eq!(rel.withdraw_amount, 777);
    assert_eq!(rel.destination_balance_after, 877);
}

#[test]
fn lock_rejects_a_vault_that_cannot_hold_the_grown_balance() {
    let mut wl = TokenWhitelist::new();
    wl.insert_token(&key(1)).unwrap();
    let r = lock_fund(&wl, &key(1), &asset_priced(2), u64::MAX - 1, 10);
    assert_eq!(r, Err(Errors::InSufficientToken));
}

#[test]
fn release_rejects_a_destination_that_cannot_hold_the_balance() {
    let r = release(u64::MAX, 1, &key(3), &key(3));
    assert_eq!(r, Err(Errors::InSufficientToken));
}

#[test]
fn ownership_decides_before_the_resource_check() {
    // a non-owner is turned away even where the balances would also fail
    let r = release(u64::MAX, 1, &key(4), &key(3));
    assert_eq!(r, Err(Errors::UnauthorizedSigner));
}

#[test]
fn burn_rejects_a_destination_that_cannot_hold_the_balance() {
    let r = burn_cnft(
        &key(0xAA),
        &key(0xBB),
        &key(0xCC),
        7,
        3,
        &key(1),
        &key(1),
        &key(9),
        254,
        u64::MAX,
        1,
    );
    assert!(matches!(r, Err(Errors::InSufficientToken)));
}

#[test]
fn burn_rejects_a_signer_who_is_not_the_owner() {
    let r = burn_cnft(
        &key(0xAA),
        &key(0xBB),
        &key(0xCC),
        7,
        3,
        &key(1),
        &key(2),
        &key(9),
        254,
        500,
        0,
    );
    assert!(matches!(r, Err(Errors::UnauthorizedSigner)));
}

#[test]
fn burn_releases_the_vault_and_forwards_the_leaf_fields() {
    let plan = burn_cnft(
        &key(0xAA),
        &key(0xBB),
        &key(0xCC),
        7,
        3,
        &key(1),
        &key(1),
        &key(9),
        254,
        500,
        20,
    )
    .unwrap();
    assert_eq!(plan.release.withdraw_amount, 500);
    assert_eq!(plan.release.destination_balance_after, 520);
    assert_eq!(plan.root, key(0xAA));
    assert_eq!(plan.data_hash, key(0xBB));
    assert_eq!(plan.creator_hash, key(0xCC));
    assert_eq!(plan.nonce, 7);
    assert_eq!(plan.index, 3);
    assert_eq!(
        plan.vault_signer_seeds,
        vec![b"stake_vault".to_vec(), key(9).to_vec(), vec![254]],
    );
}
