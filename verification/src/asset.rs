use vstd::prelude::*;

use vstd::bytes::spec_u32_from_le_bytes;
use vstd::bytes::spec_u64_from_le_bytes;
use vstd::bytes::u32_from_le_bytes;
use vstd::bytes::u64_from_le_bytes;
use vstd::slice::slice_subrange;

use crate::keys::read_key;

verus! {

broadcast use vstd::array::group_array_axioms;

/// Coarse reputation tier of an asset reference.
#[derive(Clone, Copy, Debug, PartialEq, Eq, Structural)]
pub enum Reputation {
    Low,
    Medium,
    High,
}

/// An externally-owned asset record, read here and never mutated.
/// `name` and `metadata_url` hold the encoded text bytes of the record.
pub struct Asset {
    pub id: [u8; 32],
    pub name: Vec<u8>,
    pub metadata_url: Vec<u8>,
    pub price: u64,
    pub last_updated: u64,
    pub reputation: Reputation,
    pub authority: [u8; 32],
}

/// The mathematical content of an asset record.
pub struct AssetView {
    pub id: Seq<u8>,
    pub name: Seq<u8>,
    pub metadata_url: Seq<u8>,
    pub price: u64,
    pub last_updated: u64,
    pub reputation: Reputation,
    pub authority: Seq<u8>,
}

impl View for Asset {
    type V = AssetView;

    open spec fn view(&self) -> AssetView {
        AssetView {
            id: self.id@,
            name: self.name@,
            metadata_url: self.metadata_url@,
            price: self.price,
            last_updated: self.last_updated,
            reputation: self.reputation,
            authority: self.authority@,
        }
    }
}

/// The 8-byte tag that opens every serialized asset record.
pub open spec fn asset_discriminator() -> Seq<u8> {
    seq![234u8, 180u8, 241u8, 252u8, 139u8, 224u8, 160u8, 8u8]
}

/// The reputation tier encoded by one byte, if any.
pub open spec fn spec_parse_reputation(b: u8) -> Option<Reputation> {
    if b == 0 {
        Some(Reputation::Low)
    } else if b == 1 {
        Some(Reputation::Medium)
    } else if b == 2 {
        Some(Reputation::High)
    } else {
        None
    }
}

/// Parses a serialized asset record: the 8-byte tag, a 32-byte identifier, two
/// length-prefixed byte strings, two 64-bit little-endian integers, a one-byte
/// reputation tier and a 32-byte authority. Bytes past the record are ignored.
pub open spec fn spec_parse_asset(d: Seq<u8>) -> Option<AssetView> {
    if d.len() < 44 {
        None
    } else if d.subrange(0, 8) != asset_discriminator() {
        None
    } else {
        let n1 = spec_u32_from_le_bytes(d.subrange(40, 44)) as int;
        if d.len() < 48 + n1 {
            None
        } else {
            let n2 = spec_u32_from_le_bytes(d.subrange(44 + n1, 48 + n1)) as int;
            if d.len() < 97 + n1 + n2 {
                None
            } else if spec_parse_reputation(d[64 + n1 + n2]) is None {
                None
            } else {
                Some(AssetView {
                    id: d.subrange(8, 40),
                    name: d.subrange(44, 44 + n1),
                    metadata_url: d.subrange(48 + n1, 48 + n1 + n2),
                    price: spec_u64_from_le_bytes(d.subrange(48 + n1 + n2, 56 + n1 + n2)),
                    last_updated: spec_u64_from_le_bytes(d.subrange(56 + n1 + n2, 64 + n1 + n2)),
                    reputation: spec_parse_reputation(d[64 + n1 + n2]).unwrap(),
                    authority: d.subrange(65 + n1 + n2, 97 + n1 + n2),
                })
            }
        }
    }
}

impl Asset {
    /// Reads an asset record out of the raw contents of its account. Returns
    /// `None` exactly when the bytes are not a validly-encoded record.
    pub fn from_account_info(data: &[u8]) -> (r: Option<Asset>)
        ensures
            r is Some <==> spec_parse_asset(data@) is Some,
            r matches Some(a) ==> spec_parse_asset(data@) == Some(a@),
    {
        let len: usize = data.len();
        if len < 44 {
            return None;
        }
        let mut i: usize = 0;
        let expected: [u8; 8] = [234u8, 180u8, 241u8, 252u8, 139u8, 224u8, 160u8, 8u8];
        while i < 8
            invariant
                i <= 8,
                len == data@.len(),
                44 <= len,
                expected@ =~= asset_discriminator(),
                forall|j: int| 0 <= j < i ==> data@[j] == asset_discriminator()[j],
            decreases 8 - i,
        {
            if *vstd::slice::slice_index_get(data, i) != expected[i] {
                proof {
                    assert(data@.subrange(0, 8)[i as int] == data@[i as int]);
                    assert(data@.subrange(0, 8) != asset_discriminator());
                }
                return None;
            }
            i = i + 1;
        }
        proof {
            assert(data@.subrange(0, 8) =~= asset_discriminator());
        }
        let n1_32: u32 = u32_from_le_bytes(slice_subrange(data, 40, 44));
        let n1: usize = n1_32 as usize;
        if (len as u64) < 48u64 + (n1 as u64) {
            return None;
        }
        let n2_32: u32 = u32_from_le_bytes(slice_subrange(data, 44 + n1, 48 + n1));
        let n2: usize = n2_32 as usize;
        if (len as u64) < 97u64 + (n1 as u64) + (n2 as u64) {
            return None;
        }
        let rep_byte: u8 = *vstd::slice::slice_index_get(data, 64 + n1 + n2);
        let reputation: Reputation = if rep_byte == 0 {
            Reputation::Low
        } else if rep_byte == 1 {
            Reputation::Medium
        } else if rep_byte == 2 {
            Reputation::High
        } else {
            return None;
        };
        let id: [u8; 32] = read_key(data, 8);
        let name: Vec<u8> = vstd::slice::slice_to_vec(slice_subrange(data, 44, 44 + n1));
        let metadata_url: Vec<u8> = vstd::slice::slice_to_vec(
            slice_subrange(data, 48 + n1, 48 + n1 + n2),
        );
        let price: u64 = u64_from_le_bytes(slice_subrange(data, 48 + n1 + n2, 56 + n1 + n2));
        let last_updated: u64 = u64_from_le_bytes(slice_subrange(data, 56 + n1 + n2, 64 + n1 + n2));
        let authority: [u8; 32] = read_key(data, 65 + n1 + n2);
        let a = Asset { id, name, metadata_url, price, last_updated, reputation, authority };
        proof {
            assert(spec_parse_asset(data@) == Some(a@));
        }
        Some(a)
    }
}

} // verus!
