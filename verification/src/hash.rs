//! SHA-256 digests and the one hashing primitive everything else is built on.
use vstd::prelude::*;

verus! {

/// `solana_sdk::hash::Hash` as it is defined: a tuple struct with one public
/// field, the 32 bytes of the digest.
#[verifier::external_type_specification]
pub struct ExHash(solana_sdk::hash::Hash);

/// The SHA-256 digest of the given byte strings, fed to the hasher one after
/// the other.
pub uninterp spec fn sha256v(parts: Seq<Seq<u8>>) -> Seq<u8>;

/// The bytes of a digest.
pub open spec fn digest(h: solana_sdk::hash::Hash) -> Seq<u8> {
    h.0@
}

/// The bytes of the all-zero digest.
pub open spec fn zero_digest() -> Seq<u8> {
    Seq::new(32, |i: int| 0u8)
}

/// Two digests with the same bytes are the same digest.
pub proof fn lemma_digest_pins_hash(a: solana_sdk::hash::Hash, b: solana_sdk::hash::Hash)
    requires
        digest(a) == digest(b),
    ensures
        a == b,
{
    assert(a.0 =~= b.0);
}

/// Calls `solana_sdk::hash::hashv`, which feeds every slice in order to one
/// SHA-256 hasher and returns the 32-byte result. The contract gives that
/// result its name.
#[verifier::external_body]
pub(crate) fn hashv(vals: &[&[u8]]) -> (r: solana_sdk::hash::Hash)
    ensures
        digest(r) == sha256v(vals@.map_values(|s: &[u8]| s@)),
{
    solana_sdk::hash::hashv(vals)
}

/// `Clone::clone` of a digest, which the derive writes for this `Copy` type:
/// the copy holds the same bytes.
pub assume_specification[ <solana_sdk::hash::Hash as Clone>::clone ](h: &solana_sdk::hash::Hash) -> (r: solana_sdk::hash::Hash)
    ensures
        r == *h,
;

/// The all-zero digest.
pub fn zero_hash() -> (r: solana_sdk::hash::Hash)
    ensures
        digest(r) == zero_digest(),
{
    let r = solana_sdk::hash::Hash([0u8; 32]);
    assert(digest(r) =~= zero_digest());
    r
}

/// Byte-wise equality of two digests.
pub fn hash_eq(a: &solana_sdk::hash::Hash, b: &solana_sdk::hash::Hash) -> (r: bool)
    ensures
        r == (digest(*a) == digest(*b)),
        r == (*a == *b),
{
    let mut i: usize = 0;
    while i < 32
        invariant
            i <= 32,
            forall|j: int| 0 <= j < i ==> a.0[j] == b.0[j],
        decreases 32 - i,
    {
        if a.0[i] != b.0[i] {
            return false;
        }
        i += 1;
    }
    assert(digest(*a) =~= digest(*b));
    proof {
        lemma_digest_pins_hash(*a, *b);
    }
    true
}

} // verus!
