//! The Proof-of-History hash walk: a running digest that is advanced one
//! SHA-256 application at a time, optionally mixing in outside data.
use vstd::prelude::*;
use crate::hash::{digest, hashv, sha256v};

verus! {

/// One plain step of the walk: the digest of the running digest.
pub open spec fn hash_once(h: Seq<u8>) -> Seq<u8> {
    sha256v(seq![h])
}

/// `n` plain steps of the walk.
pub open spec fn hash_n(h: Seq<u8>, n: nat) -> Seq<u8>
    decreases n,
{
    if n == 0 {
        h
    } else {
        hash_once(hash_n(h, (n - 1) as nat))
    }
}

/// One step that folds `mixin` into the walk.
pub open spec fn hash_mixin(h: Seq<u8>, mixin: Seq<u8>) -> Seq<u8> {
    sha256v(seq![h, mixin])
}

/// The state of a walk: the digest reached so far.
pub struct Poh {
    pub hash: solana_sdk::hash::Hash,
}

impl Poh {
    /// A walk that starts at `hash`.
    pub fn new(hash: solana_sdk::hash::Hash) -> (r: Poh)
        ensures
            r.hash == hash,
    {
        Poh { hash }
    }

    /// Advances the walk by `num_hashes` plain steps.
    pub fn hash(&mut self, num_hashes: u64)
        ensures
            digest(final(self).hash) == hash_n(digest(old(self).hash), num_hashes as nat),
    {
        let mut i: u64 = 0;
        while i < num_hashes
            invariant
                i <= num_hashes,
                digest(self.hash) == hash_n(digest(old(self).hash), i as nat),
            decreases num_hashes - i,
        {
            let _ = self.tick();
            i += 1;
        }
    }

    /// Advances the walk by one plain step and returns the digest reached.
    pub fn tick(&mut self) -> (r: solana_sdk::hash::Hash)
        ensures
            r == final(self).hash,
            digest(r) == hash_once(digest(old(self).hash)),
    {
        let parts: [&[u8]; 1] = [self.hash.0.as_slice()];
        let next = hashv(parts.as_slice());
        assert(parts@.map_values(|s: &[u8]| s@) =~= seq![digest(self.hash)]);
        self.hash = next;
        next
    }

    /// Advances the walk by one step that folds in `mixin`, and returns the
    /// digest reached.
    pub fn record(&mut self, mixin: &solana_sdk::hash::Hash) -> (r: solana_sdk::hash::Hash)
        ensures
            r == final(self).hash,
            digest(r) == hash_mixin(digest(old(self).hash), digest(*mixin)),
    {
        let parts: [&[u8]; 2] = [self.hash.0.as_slice(), mixin.0.as_slice()];
        let next = hashv(parts.as_slice());
        assert(parts@.map_values(|s: &[u8]| s@) =~= seq![digest(self.hash), digest(*mixin)]);
        self.hash = next;
        next
    }
}

} // verus!
