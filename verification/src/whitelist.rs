use vstd::prelude::*;

use vstd::bytes::spec_u32_from_le_bytes;
use vstd::bytes::spec_u32_to_le_bytes;
use vstd::bytes::u32_from_le_bytes;
use vstd::bytes::u32_to_le_bytes;
use vstd::slice::slice_subrange;

use crate::errors::Errors;
use crate::keys::key_eq;
use crate::keys::push_byte_run;
use crate::keys::read_key;

verus! {

broadcast use vstd::array::group_array_axioms;

/// No identifier occurs twice in the sequence.
pub open spec fn unique_keys(s: Seq<[u8; 32]>) -> bool {
    forall|i: int, j: int| 0 <= i < j < s.len() ==> s[i] != s[j]
}

/// The sequence `s` with every occurrence of `t` removed, order preserved.
pub open spec fn remove_key(s: Seq<[u8; 32]>, t: [u8; 32]) -> Seq<[u8; 32]>
    decreases s.len(),
{
    if s.len() == 0 {
        s
    } else if s.last() == t {
        remove_key(s.drop_last(), t)
    } else {
        remove_key(s.drop_last(), t).push(s.last())
    }
}

/// An element is in `remove_key(s, t)` exactly when it is in `s` and differs from `t`.
pub proof fn lemma_remove_key_membership(s: Seq<[u8; 32]>, t: [u8; 32], x: [u8; 32])
    ensures
        remove_key(s, t).contains(x) <==> (s.contains(x) && x != t),
    decreases s.len(),
{
    if s.len() == 0 {
        assert(!s.contains(x));
        assert(!remove_key(s, t).contains(x));
    } else {
        let s0 = s.drop_last();
        lemma_remove_key_membership(s0, t, x);
        assert(s.contains(x) <==> (s0.contains(x) || s.last() == x)) by {
            if s.contains(x) {
                let i = choose|i: int| 0 <= i < s.len() && s[i] == x;
                if i < s.len() - 1 {
                    assert(s0[i] == x);
                }
            }
            if s0.contains(x) {
                let i = choose|i: int| 0 <= i < s0.len() && s0[i] == x;
                assert(s[i] == x);
            }
            if s.last() == x {
                assert(s[s.len() - 1] == x);
            }
        }
        if s.last() == t {
            assert(remove_key(s, t) == remove_key(s0, t));
        } else {
            let r0 = remove_key(s0, t);
            assert(remove_key(s, t) == r0.push(s.last()));
            assert(r0.push(s.last()).contains(x) <==> (r0.contains(x) || s.last() == x)) by {
                if r0.push(s.last()).contains(x) {
                    let i = choose|i: int| 0 <= i < r0.push(s.last()).len() && r0.push(s.last())[i] == x;
                    if i < r0.len() {
                        assert(r0[i] == x);
                    }
                }
                if r0.contains(x) {
                    let i = choose|i: int| 0 <= i < r0.len() && r0[i] == x;
                    assert(r0.push(s.last())[i] == x);
                }
                if s.last() == x {
                    assert(r0.push(s.last())[r0.len() as int] == x);
                }
            }
        }
    }
}

/// Removal preserves uniqueness of the remaining identifiers.
pub proof fn lemma_remove_key_unique(s: Seq<[u8; 32]>, t: [u8; 32])
    requires
        unique_keys(s),
    ensures
        unique_keys(remove_key(s, t)),
    decreases s.len(),
{
    if s.len() == 0 {
    } else {
        let s0 = s.drop_last();
        assert(unique_keys(s0)) by {
            assert forall|i: int, j: int| 0 <= i < j < s0.len() implies s0[i] != s0[j] by {
                assert(s[i] == s0[i] && s[j] == s0[j]);
            }
        }
        lemma_remove_key_unique(s0, t);
        if s.last() != t {
            let r0 = remove_key(s0, t);
            assert(!r0.contains(s.last())) by {
                if r0.contains(s.last()) {
                    lemma_remove_key_membership(s0, t, s.last());
                    let i = choose|i: int| 0 <= i < s0.len() && s0[i] == s.last();
                    assert(s[i] == s[s.len() - 1]);
                }
            }
            assert forall|i: int, j: int| 0 <= i < j < r0.push(s.last()).len()
                implies r0.push(s.last())[i] != r0.push(s.last())[j] by {
                if j < r0.len() {
                } else {
                    assert(r0.push(s.last())[j] == s.last());
                    assert(r0[i] == r0.push(s.last())[i]);
                    assert(r0.contains(r0[i]));
                }
            }
        }
    }
}

/// Removing an identifier that is absent leaves the sequence unchanged.
pub proof fn lemma_remove_key_absent(s: Seq<[u8; 32]>, t: [u8; 32])
    requires
        !s.contains(t),
    ensures
        remove_key(s, t) =~= s,
    decreases s.len(),
{
    if s.len() == 0 {
    } else {
        let s0 = s.drop_last();
        assert(!s0.contains(t)) by {
            if s0.contains(t) {
                let i = choose|i: int| 0 <= i < s0.len() && s0[i] == t;
                assert(s[i] == t);
            }
        }
        lemma_remove_key_absent(s0, t);
        assert(s.last() != t) by {
            if s.last() == t {
                assert(s[s.len() - 1] == t);
            }
        }
        assert(remove_key(s, t) =~= s0.push(s.last()));
        assert(s0.push(s.last()) =~= s);
    }
}

/// Appending an absent identifier preserves uniqueness.
pub proof fn lemma_insert_preserves_uniqueness(s: Seq<[u8; 32]>, t: [u8; 32])
    requires
        unique_keys(s),
        !s.contains(t),
    ensures
        unique_keys(s.push(t)),
{
    assert forall|i: int, j: int| 0 <= i < j < s.push(t).len()
        implies s.push(t)[i] != s.push(t)[j] by {
        if j == s.len() {
            assert(s.push(t)[j] == t);
            assert(s.push(t)[i] == s[i]);
            assert(s.contains(s[i]));
        }
    }
}

/// Inserting an absent identifier and then removing it restores the prior membership exactly.
pub proof fn lemma_insert_then_remove(s: Seq<[u8; 32]>, t: [u8; 32])
    requires
        !s.contains(t),
    ensures
        remove_key(s.push(t), t) =~= s,
{
    let p = s.push(t);
    assert(p.drop_last() =~= s);
    assert(p.last() == t);
    assert(remove_key(p, t) == remove_key(s, t));
    lemma_remove_key_absent(s, t);
}

/// The record holding the set of accepted settlement-token identifiers.
pub struct TokenWhitelist {
    pub tokens: Vec<[u8; 32]>,
}

/// What must be paid and how far the record's storage must grow for one insertion.
pub struct ReallocPlan {
    /// The storage size the account must be resized to.
    pub new_size: usize,
    /// The additional deposit owed so the resized account stays rent-funded.
    pub rent_delta: u64,
}

impl TokenWhitelist {
    /// The whitelist invariant: identifiers are unique by value.
    pub open spec fn wf(self) -> bool {
        unique_keys(self.tokens@)
    }

    /// Membership of a token identifier.
    pub open spec fn spec_contains(self, t: [u8; 32]) -> bool {
        self.tokens@.contains(t)
    }

    /// An empty whitelist, as created at system initialization.
    pub fn new() -> (r: TokenWhitelist)
        ensures
            r.tokens@ =~= Seq::<[u8; 32]>::empty(),
            r.wf(),
    {
        TokenWhitelist { tokens: Vec::new() }
    }

    /// Reads a whitelist record out of the raw contents of its account. Returns
    /// `None` exactly when the tag is wrong or the bytes are too few for the
    /// declared count. The bytes, not this reader, decide whether identifiers
    /// repeat: a stored record is unique by construction.
    pub fn from_account_info(data: &[u8]) -> (r: Option<TokenWhitelist>)
        ensures
            r is Some <==> spec_whitelist_parses(data@),
            r matches Some(wl) ==> {
                &&& wl.tokens@.len() == spec_u32_from_le_bytes(data@.subrange(8, 12))
                &&& forall|i: int|
                    0 <= i < wl.tokens@.len() ==> wl.tokens@[i]@ == data@.subrange(
                        12 + 32 * i,
                        44 + 32 * i,
                    )
            },
    {
        let len: usize = data.len();
        if len < 12 {
            return None;
        }
        let expected: [u8; 8] = [105u8, 240u8, 104u8, 47u8, 95u8, 13u8, 48u8, 78u8];
        let mut i: usize = 0;
        while i < 8
            invariant
                i <= 8,
                len == data@.len(),
                12 <= len,
                expected@ =~= whitelist_discriminator(),
                forall|j: int| 0 <= j < i ==> data@[j] == whitelist_discriminator()[j],
            decreases 8 - i,
        {
            if *vstd::slice::slice_index_get(data, i) != expected[i] {
                proof {
                    assert(data@.subrange(0, 8)[i as int] == data@[i as int]);
                    assert(data@.subrange(0, 8) != whitelist_discriminator());
                }
                return None;
            }
            i = i + 1;
        }
        proof {
            assert(data@.subrange(0, 8) =~= whitelist_discriminator());
        }
        let n_32: u32 = u32_from_le_bytes(slice_subrange(data, 8, 12));
        let n: usize = n_32 as usize;
        if (len as u64) < 12u64 + 32u64 * (n as u64) {
            return None;
        }
        let mut tokens: Vec<[u8; 32]> = Vec::new();
        let mut k: usize = 0;
        while k < n
            invariant
                k <= n,
                len == data@.len(),
                12 + 32 * n <= len,
                tokens@.len() == k,
                forall|j: int|
                    0 <= j < k ==> tokens@[j]@ == data@.subrange(12 + 32 * j, 44 + 32 * j),
            decreases n - k,
        {
            tokens.push(read_key(data, 12 + 32 * k));
            k = k + 1;
        }
        Some(TokenWhitelist { tokens })
    }

    /// Writes the record out as its account holds it: the tag, the 32-bit
    /// little-endian count, and the identifiers in order.
    pub fn to_account_data(&self) -> (r: Vec<u8>)
        requires
            self.tokens@.len() <= u32::MAX,
        ensures
            r@ == spec_whitelist_bytes(self.tokens@),
    {
        let mut r: Vec<u8> = Vec::new();
        let disc: [u8; 8] = [105u8, 240u8, 104u8, 47u8, 95u8, 13u8, 48u8, 78u8];
        proof {
            assert(disc@ =~= whitelist_discriminator());
        }
        push_byte_run(&mut r, disc.as_slice());
        let mut count_bytes: Vec<u8> = u32_to_le_bytes(self.tokens.len() as u32);
        r.append(&mut count_bytes);
        let ghost prefix = whitelist_discriminator() + spec_u32_to_le_bytes(
            self.tokens@.len() as u32,
        );
        let mut i: usize = 0;
        while i < self.tokens.len()
            invariant
                i <= self.tokens@.len(),
                r@ == prefix + spec_keys_bytes(self.tokens@.subrange(0, i as int)),
            decreases self.tokens@.len() - i,
        {
            let ghost pre = self.tokens@.subrange(0, i as int);
            let ghost post = self.tokens@.subrange(0, i as int + 1);
            push_byte_run(&mut r, self.tokens[i].as_slice());
            proof {
                assert(post.drop_last() =~= pre);
                assert(post.last() == self.tokens@[i as int]);
                assert(spec_keys_bytes(post) == spec_keys_bytes(pre) + self.tokens@[i as int]@);
                assert(r@ =~= prefix + spec_keys_bytes(post));
            }
            i = i + 1;
        }
        proof {
            assert(self.tokens@.subrange(0, self.tokens@.len() as int) =~= self.tokens@);
        }
        r
    }

    /// Pure membership test used to gate settlement-token choices.
    pub fn contains_token(&self, token: &[u8; 32]) -> (r: bool)
        ensures
            r <==> self.spec_contains(*token),
    {
        let mut i: usize = 0;
        while i < self.tokens.len()
            invariant
                i <= self.tokens@.len(),
                forall|j: int| 0 <= j < i ==> self.tokens@[j] != *token,
            decreases self.tokens@.len() - i,
        {
            if key_eq(&self.tokens[i], token) {
                proof {
                    assert(self.tokens@[i as int] == *token);
                }
                return true;
            }
            i = i + 1;
        }
        proof {
            if self.spec_contains(*token) {
                let j = choose|j: int| 0 <= j < self.tokens@.len() && self.tokens@[j] == *token;
                assert(self.tokens@[j] != *token);
            }
        }
        false
    }

    /// Succeeds exactly when the token is whitelisted. Absence is reported as
    /// `TokenNotWhitelisted` and by nothing else: this lookup's failure path is
    /// deliberately not shared with the insufficient-lamports code
    /// (`InSufficientSol`), so a benign absence can never be misreported as a
    /// resource failure.
    pub fn check_token_exist(&self, token: &[u8; 32]) -> (r: Result<(), Errors>)
        ensures
            self.spec_contains(*token) ==> r == Ok::<(), Errors>(()),
            !self.spec_contains(*token) ==> r == Err::<(), Errors>(Errors::TokenNotWhitelisted),
    {
        if self.contains_token(token) {
            Ok(())
        } else {
            Err(Errors::TokenNotWhitelisted)
        }
    }

    /// Appends a token to the whitelist; a token already present is rejected with
    /// `TokenAlreadyWhitelisted` and the record is left unchanged.
    pub fn insert_token(&mut self, token: &[u8; 32]) -> (r: Result<(), Errors>)
        requires
            old(self).wf(),
        ensures
            final(self).wf(),
            old(self).spec_contains(*token) ==> {
                &&& r == Err::<(), Errors>(Errors::TokenAlreadyWhitelisted)
                &&& final(self).tokens@ == old(self).tokens@
            },
            !old(self).spec_contains(*token) ==> {
                &&& r == Ok::<(), Errors>(())
                &&& final(self).tokens@ == old(self).tokens@.push(*token)
            },
    {
        match self.check_token_exist(token) {
            Ok(_) => Err(Errors::TokenAlreadyWhitelisted),
            Err(_) => {
                proof {
                    lemma_insert_preserves_uniqueness(self.tokens@, *token);
                }
                self.tokens.push(*token);
                Ok(())
            },
        }
    }

    /// Removes all occurrences of a token, keeping the order of the rest; an absent
    /// token is rejected with `TokenNotWhitelisted` and the record is left unchanged.
    pub fn remove_token(&mut self, token: &[u8; 32]) -> (r: Result<(), Errors>)
        requires
            old(self).wf(),
        ensures
            final(self).wf(),
            old(self).spec_contains(*token) ==> {
                &&& r == Ok::<(), Errors>(())
                &&& final(self).tokens@ == remove_key(old(self).tokens@, *token)
            },
            !old(self).spec_contains(*token) ==> {
                &&& r == Err::<(), Errors>(Errors::TokenNotWhitelisted)
                &&& final(self).tokens@ == old(self).tokens@
            },
    {
        match self.check_token_exist(token) {
            Ok(_) => {
                let ghost orig = self.tokens@;
                let ghost t = *token;
                let mut kept: Vec<[u8; 32]> = Vec::new();
                let mut i: usize = 0;
                while i < self.tokens.len()
                    invariant
                        i <= self.tokens@.len(),
                        self.tokens@ == orig,
                        kept@ == remove_key(orig.subrange(0, i as int), t),
                        *token == t,
                    decreases self.tokens@.len() - i,
                {
                    let ghost pre = orig.subrange(0, i as int);
                    let ghost post = orig.subrange(0, i as int + 1);
                    proof {
                        assert(post.drop_last() =~= pre);
                        assert(post.last() == orig[i as int]);
                    }
                    if !key_eq(&self.tokens[i], token) {
                        kept.push(self.tokens[i]);
                        proof {
                            assert(remove_key(post, t) == remove_key(pre, t).push(orig[i as int]));
                        }
                    } else {
                        proof {
                            assert(remove_key(post, t) == remove_key(pre, t));
                        }
                    }
                    i = i + 1;
                }
                proof {
                    assert(orig.subrange(0, orig.len() as int) =~= orig);
                    lemma_remove_key_unique(orig, t);
                }
                self.tokens = kept;
                Ok(())
            },
            Err(e) => Err(e),
        }
    }
}

/// The 8-byte tag that opens every serialized whitelist record.
pub open spec fn whitelist_discriminator() -> Seq<u8> {
    seq![105u8, 240u8, 104u8, 47u8, 95u8, 13u8, 48u8, 78u8]
}

/// The identifiers of a record laid out one after another, 32 bytes each.
pub open spec fn spec_keys_bytes(s: Seq<[u8; 32]>) -> Seq<u8>
    decreases s.len(),
{
    if s.len() == 0 {
        Seq::empty()
    } else {
        spec_keys_bytes(s.drop_last()) + s.last()@
    }
}

/// The serialized form of a whitelist record: the 8-byte tag, the 32-bit
/// little-endian count, and the identifiers themselves.
pub open spec fn spec_whitelist_bytes(s: Seq<[u8; 32]>) -> Seq<u8> {
    whitelist_discriminator() + spec_u32_to_le_bytes(s.len() as u32) + spec_keys_bytes(s)
}

/// Whether bytes open with the record tag and hold as many identifiers as the
/// count declares. Bytes past the record are allowed: storage capacity may
/// exceed the record.
pub open spec fn spec_whitelist_parses(d: Seq<u8>) -> bool {
    &&& d.len() >= 12
    &&& d.subrange(0, 8) == whitelist_discriminator()
    &&& d.len() >= 12 + 32 * (spec_u32_from_le_bytes(d.subrange(8, 12)) as int)
}

/// Every 32-byte sequence of identifiers is `32 * count` bytes long.
pub proof fn lemma_keys_bytes_len(s: Seq<[u8; 32]>)
    ensures
        spec_keys_bytes(s).len() == 32 * s.len(),
    decreases s.len(),
{
    if s.len() > 0 {
        lemma_keys_bytes_len(s.drop_last());
    }
}

/// The bytes of the `i`-th identifier stand at offset `32 * i` of the laid-out
/// identifiers.
pub proof fn lemma_keys_bytes_index(s: Seq<[u8; 32]>, i: int)
    requires
        0 <= i < s.len(),
    ensures
        spec_keys_bytes(s).subrange(32 * i, 32 * i + 32) == s[i]@,
    decreases s.len(),
{
    lemma_keys_bytes_len(s);
    if i == s.len() - 1 {
        lemma_keys_bytes_len(s.drop_last());
        assert(spec_keys_bytes(s).subrange(32 * i, 32 * i + 32) =~= s.last()@);
    } else {
        lemma_keys_bytes_index(s.drop_last(), i);
        lemma_keys_bytes_len(s.drop_last());
        assert(s.drop_last()[i] == s[i]);
        assert(spec_keys_bytes(s).subrange(32 * i, 32 * i + 32) =~= spec_keys_bytes(
            s.drop_last(),
        ).subrange(32 * i, 32 * i + 32));
    }
}

/// Serializing a record and reading the bytes back yields the same count and
/// the same identifiers, in order.
pub proof fn lemma_whitelist_round_trip(s: Seq<[u8; 32]>)
    requires
        s.len() <= u32::MAX,
    ensures
        spec_whitelist_parses(spec_whitelist_bytes(s)),
        spec_u32_from_le_bytes(spec_whitelist_bytes(s).subrange(8, 12)) == s.len(),
        forall|i: int|
            0 <= i < s.len() ==> spec_whitelist_bytes(s).subrange(12 + 32 * i, 44 + 32 * i)
                == s[i]@,
{
    vstd::bytes::lemma_auto_spec_u32_to_from_le_bytes();
    lemma_keys_bytes_len(s);
    let d = spec_whitelist_bytes(s);
    assert(d.subrange(0, 8) =~= whitelist_discriminator());
    assert(d.subrange(8, 12) =~= spec_u32_to_le_bytes(s.len() as u32));
    assert forall|i: int| 0 <= i < s.len() implies d.subrange(12 + 32 * i, 44 + 32 * i)
        == s[i]@ by {
        lemma_keys_bytes_index(s, i);
        assert(d.subrange(12 + 32 * i, 44 + 32 * i) =~= spec_keys_bytes(s).subrange(
            32 * i,
            32 * i + 32,
        ));
    }
}

/// The serialized size of a whitelist record holding `n` identifiers: an 8-byte
/// tag, a 4-byte count, and the identifiers themselves.
pub open spec fn record_size(n: nat) -> nat {
    12 + 32 * n
}

/// Storage that covers a record, grown by one identifier's width, covers the
/// record with one more identifier: growth keeps capacity ahead of the count.
pub proof fn lemma_growth_covers_insert(n: nat, size: nat)
    requires
        size >= record_size(n),
    ensures
        size + 32 >= record_size(n + 1),
{
}

/// Computes the grown storage size and the additional rent deposit owed for it.
/// Growth is by exactly one identifier's width.
pub fn realloc(current_size: usize, current_lamports: u64, required_lamports: u64) -> (plan:
    ReallocPlan)
    requires
        current_size + 32 <= usize::MAX,
        current_lamports <= required_lamports,
    ensures
        plan.new_size == current_size + 32,
        plan.rent_delta == required_lamports - current_lamports,
{
    ReallocPlan { new_size: current_size + 32, rent_delta: required_lamports - current_lamports }
}

} // verus!
