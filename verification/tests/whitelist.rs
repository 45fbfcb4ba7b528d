use mint_nft_skytrade::errors::Errors;
use mint_nft_skytrade::whitelist::{realloc, TokenWhitelist};

fn key(b: u8) -> [u8; 32] {
    [b; 32]
}

#[test]
fn insert_then_contains() {
    let mut wl = TokenWhitelist::new();
    assert!(!wl.contains_token(&key(1)));
    assert_eq!(wl.insert_token(&key(1)), Ok(()));
    assert!(wl.contains_token(&key(1)));
    assert!(!wl.contains_token(&key(2)));
    assert_eq!(wl.tokens.len(), 1);
}

#[test]
fn duplicate_insert_fails_and_leaves_set_unchanged() {
    let mut wl = TokenWhitelist::new();
    assert_eq!(wl.insert_token(&key(1)), Ok(()));
    assert_eq!(wl.insert_token(&key(2)), Ok(()));
    let before = wl.tokens.clone();
    assert_eq!(wl.insert_token(&key(1)), Err(Errors::TokenAlreadyWhitelisted));
    assert_eq!(wl.tokens, before);
    assert_eq!(wl.tokens.len(), 2);
}

#[test]
fn insert_then_remove_restores_membership() {
    let mut wl = TokenWhitelist::new();
    assert_eq!(wl.insert_token(&key(1)), Ok(()));
    assert_eq!(wl.insert_token(&key(2)), Ok(()));
    let before = wl.tokens.clone();
    assert_eq!(wl.insert_token(&key(9)), Ok(()));
    assert_eq!(wl.remove_token(&key(9)), Ok(()));
    assert_eq!(wl.tokens, before);
}

#[test]
fn remove_absent_fails() {
    let mut wl = TokenWhitelist::new();
    assert_eq!(wl.insert_token(&key(1)), Ok(()));
    assert_eq!(wl.remove_token(&key(7)), Err(Errors::TokenNotWhitelisted));
    assert_eq!(wl.tokens, vec![key(1)]);
}

#[test]
fn remove_keeps_order_of_rest() {
    let mut wl = TokenWhitelist::new();
    for b in [1u8, 2, 3, 4] {
        assert_eq!(wl.insert_token(&key(b)), Ok(()));
    }
    assert_eq!(wl.remove_token(&key(2)), Ok(()));
    assert_eq!(wl.tokens, vec![key(1), key(3), key(4)]);
}

#[test]
fn check_token_exist_reports_absence() {
    let mut wl = TokenWhitelist::new();
    assert_eq!(wl.check_token_exist(&key(3)), Err(Errors::TokenNotWhitelisted));
    assert_eq!(wl.insert_token(&key(3)), Ok(()));
    assert_eq!(wl.check_token_exist(&key(3)), Ok(()));
}

#[test]
fn record_round_trips_through_its_account_bytes() {
    let mut wl = TokenWhitelist::new();
    for b in [5u8, 6, 7] {
        assert_eq!(wl.insert_token(&key(b)), Ok(()));
    }
    let bytes = wl.to_account_data();
    assert_eq!(bytes.len(), 12 + 32 * 3);
    assert_eq!(&bytes[0..8], &[105, 240, 104, 47, 95, 13, 48, 78]);
    assert_eq!(&bytes[8..12], &3u32.to_le_bytes());
    let back = TokenWhitelist::from_account_info(&bytes).expect("a valid record");
    assert_eq!(back.tokens, wl.tokens);
}

#[test]
fn record_reader_ignores_spare_capacity() {
    let mut wl = TokenWhitelist::new();
    assert_eq!(wl.insert_token(&key(9)), Ok(()));
    let mut bytes = wl.to_account_data();
    bytes.extend_from_slice(&[0u8; 32]);
    let back = TokenWhitelist::from_account_info(&bytes).expect("a valid record");
    assert_eq!(back.tokens, vec![key(9)]);
}

#[test]
fn record_reader_rejects_a_wrong_tag_or_a_short_record() {
    let wl = TokenWhitelist::new();
    let mut bytes = wl.to_account_data();
    bytes[0] ^= 0xFF;
    assert!(TokenWhitelist::from_account_info(&bytes).is_none());
    let mut bytes = wl.to_account_data();
    // declare one identifier without providing its bytes
    bytes[8..12].copy_from_slice(&1u32.to_le_bytes());
    assert!(TokenWhitelist::from_account_info(&bytes).is_none());
}

#[test]
fn realloc_grows_by_one_key_and_prices_the_deposit() {
    let plan = realloc(44, 1_200_000, 1_500_000);
    assert_eq!(plan.new_size, 76);
    assert_eq!(plan.rent_delta, 300_000);
    let level = realloc(76, 2_000_000, 2_000_000);
    assert_eq!(level.new_size, 108);
    assert_eq!(level.rent_delta, 0);
}
