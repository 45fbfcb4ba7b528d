use mint_nft_skytrade::asset::{Asset, Reputation};

const DISC: [u8; 8] = [234, 180, 241, 252, 139, 224, 160, 8];

fn encode_asset(
    id: [u8; 32],
    name: &[u8],
    url: &[u8],
    price: u64,
    last_updated: u64,
    reputation: u8,
    authority: [u8; 32],
) -> Vec<u8> {
    let mut d = Vec::new();
    d.extend_from_slice(&DISC);
    d.extend_from_slice(&id);
    d.extend_from_slice(&(name.len() as u32).to_le_bytes());
    d.extend_from_slice(name);
    d.extend_from_slice(&(url.len() as u32).to_le_bytes());
    d.extend_from_slice(url);
    d.extend_from_slice(&price.to_le_bytes());
    d.extend_from_slice(&last_updated.to_le_bytes());
    d.push(reputation);
    d.extend_from_slice(&authority);
    d
}

#[test]
fn parses_a_valid_record() {
    let data = encode_asset([7u8; 32], b"Parcel 9", b"ipfs://meta", 5_000, 1_700_000_000, 2, [9u8; 32]);
    let a: Asset = Asset::from_account_info(&data).expect("valid record");
    assert_eq!(a.id, [7u8; 32]);
    assert_eq!(a.name, b"Parcel 9".to_vec());
    assert_eq!(a.metadata_url, b"ipfs://meta".to_vec());
    assert_eq!(a.price, 5_000);
    assert_eq!(a.last_updated, 1_700_000_000);
    assert_eq!(a.reputation, Reputation::High);
    assert_eq!(a.authority, [9u8; 32]);
}

#[test]
fn parses_each_reputation_tier() {
    for (byte, tier) in [(0u8, Reputation::Low), (1, Reputation::Medium), (2, Reputation::High)] {
        let data = encode_asset([1u8; 32], b"", b"", 1, 2, byte, [2u8; 32]);
        let a = Asset::from_account_info(&data).expect("valid record");
        assert_eq!(a.reputation, tier);
    }
}

#[test]
fn ignores_trailing_bytes() {
    let mut data = encode_asset([1u8; 32], b"n", b"u", 10, 20, 0, [2u8; 32]);
    data.extend_from_slice(&[0u8; 64]);
    let a = Asset::from_account_info(&data).expect("valid record");
    assert_eq!(a.price, 10);
    assert_eq!(a.name, b"n".to_vec());
}

#[test]
fn rejects_a_wrong_tag() {
    let mut data = encode_asset([1u8; 32], b"n", b"u", 10, 20, 0, [2u8; 32]);
    data[0] ^= 0xFF;
    assert!(Asset::from_account_info(&data).is_none());
}

#[test]
fn rejects_a_bad_reputation_byte() {
    let data = encode_asset([1u8; 32], b"n", b"u", 10, 20, 3, [2u8; 32]);
    assert!(Asset::from_account_info(&data).is_none());
}

#[test]
fn rejects_truncated_records() {
    let data = encode_asset([1u8; 32], b"name", b"url", 10, 20, 1, [2u8; 32]);
    for cut in [0, 7, 43, data.len() - 1] {
        assert!(Asset::from_account_info(&data[..cut]).is_none());
    }
}

#[test]
fn rejects_a_name_length_past_the_end() {
    let mut data = encode_asset([1u8; 32], b"abcd", b"u", 10, 20, 1, [2u8; 32]);
    // overstate the name length
    data[40..44].copy_from_slice(&u32::MAX.to_le_bytes());
    assert!(Asset::from_account_info(&data).is_none());
}
