//! The batch form of the hash walk: one lane for each entry, advanced by a
//! device or a wide-SIMD routine, and the last step of each entry made and
//! compared afterwards.
use vstd::prelude::*;
use crate::entry::{hash_transactions, prev_digest, transactions_digest, tx_views, Entry};
use crate::hash::{digest, hash_eq, zero_digest, zero_hash};
use crate::poh::{hash_mixin, hash_n, hash_once, Poh};

verus! {

/// The number of plain steps that a lane makes for an entry of `num_hashes`
/// hashes: all but the last.
pub open spec fn walk_count(num_hashes: u64) -> nat {
    if num_hashes == 0 {
        0
    } else {
        (num_hashes - 1) as nat
    }
}

/// The hash that an entry of `num_hashes` hashes must store when its lane
/// reached `computed`: `computed` itself without hashes, else one more step,
/// which folds in `mixin` where there is one.
pub open spec fn finalized(computed: Seq<u8>, num_hashes: u64, mixin: Option<Seq<u8>>) -> Seq<u8> {
    if num_hashes == 0 {
        computed
    } else {
        match mixin {
            None => hash_once(computed),
            Some(m) => hash_mixin(computed, m),
        }
    }
}

/// What the last step of an entry folds in: nothing for a tick, else the
/// digest of its transactions.
pub open spec fn entry_mixin(e: Entry) -> Option<Seq<u8>> {
    if e.is_tick_spec() {
        None
    } else {
        Some(transactions_digest(tx_views(e.transactions@)))
    }
}

/// Whether the entry stores the hash that follows from a lane that reached
/// `computed`.
pub open spec fn finalizes(e: Entry, computed: Seq<u8>) -> bool {
    digest(e.hash) == finalized(computed, e.num_hashes, entry_mixin(e))
}

/// The hash that the lane of entry `i` must reach.
pub open spec fn lane_target(entries: Seq<Entry>, start: Seq<u8>, i: int) -> Seq<u8> {
    hash_n(prev_digest(entries, start, i), walk_count(entries[i].num_hashes))
}

/// Whether every entry stores the hash that follows from its lane, each lane
/// having started from the hash stored before the entry.
pub open spec fn lanes_valid(entries: Seq<Entry>, start: Seq<u8>) -> bool {
    forall|i: int| 0 <= i < entries.len() ==> finalizes(#[trigger] entries[i], lane_target(entries, start, i))
}

/// Lane `i` of a buffer of 32-byte lanes.
pub open spec fn lane(bytes: Seq<u8>, i: int) -> Seq<u8> {
    bytes.subrange(32 * i, 32 * i + 32)
}

/// `len` rounded up to a multiple of `width`.
pub open spec fn aligned_len(len: nat, width: nat) -> nat {
    (((len + width - 1) / (width as int)) * width) as nat
}

/// Whether the lanes of a slice of `len` entries fit in a buffer.
pub open spec fn simd_fits(len: nat) -> bool {
    32 * (len + 16) <= usize::MAX
}

/// Makes the last step of `ref_entry` from `computed_hash` and compares the
/// result with the hash that the entry stores.
pub fn compare_hashes(computed_hash: solana_sdk::hash::Hash, ref_entry: &Entry) -> (r: bool)
    ensures
        r == finalizes(*ref_entry, digest(computed_hash)),
{
    if ref_entry.num_hashes == 0 {
        hash_eq(&computed_hash, &ref_entry.hash)
    } else {
        let mut poh = Poh::new(computed_hash);
        if ref_entry.transactions.len() == 0 {
            let reached = poh.tick();
            hash_eq(&reached, &ref_entry.hash)
        } else {
            let tx_hash = hash_transactions(ref_entry.transactions.as_slice());
            let reached = poh.record(&tx_hash);
            hash_eq(&reached, &ref_entry.hash)
        }
    }
}

/// The digest of an optional hash.
pub open spec fn option_digest(h: Option<solana_sdk::hash::Hash>) -> Option<Seq<u8>> {
    match h {
        None => None,
        Some(x) => Some(digest(x)),
    }
}

/// Makes the last step of `answer` from `hash`, folding in `tx_hash` where
/// there is one, and compares the result with the hash that `answer` stores.
pub fn compare_with_mixin(hash: &solana_sdk::hash::Hash, tx_hash: &Option<solana_sdk::hash::Hash>, answer: &Entry) -> (r: bool)
    ensures
        r == (digest(answer.hash) == finalized(digest(*hash), answer.num_hashes, option_digest(*tx_hash))),
{
    if answer.num_hashes == 0 {
        hash_eq(hash, &answer.hash)
    } else {
        let mut poh = Poh::new(*hash);
        match tx_hash {
            Some(mixin) => {
                let reached = poh.record(mixin);
                hash_eq(&reached, &answer.hash)
            },
            None => {
                let reached = poh.tick();
                hash_eq(&reached, &answer.hash)
            },
        }
    }
}

/// Reads lane `i` of a buffer.
pub fn read_lane(bytes: &Vec<u8>, i: usize) -> (r: solana_sdk::hash::Hash)
    requires
        32 * (i + 1) <= bytes@.len(),
    ensures
        digest(r) == lane(bytes@, i as int),
{
    let len = bytes.len();
    let mut buf = [0u8; 32];
    let mut j: usize = 0;
    while j < 32
        invariant
            j <= 32,
            len == bytes@.len(),
            32 * (i + 1) <= len,
            forall|k: int| 0 <= k < j ==> buf@[k] == bytes@[32 * i + k],
        decreases 32 - j,
    {
        buf.set(j, bytes[32 * i + j]);
        j += 1;
    }
    let r = solana_sdk::hash::Hash(buf);
    assert(digest(r) =~= lane(bytes@, i as int));
    r
}

/// Appends the bytes of `hash` to a buffer of lanes, as one more lane.
pub fn push_lane(bytes: &mut Vec<u8>, hash: &solana_sdk::hash::Hash)
    ensures
        final(bytes)@ == old(bytes)@ + digest(*hash),
{
    let mut j: usize = 0;
    assert(bytes@ =~= old(bytes)@ + digest(*hash).take(0));
    while j < 32
        invariant
            j <= 32,
            bytes@ == old(bytes)@ + digest(*hash).take(j as int),
        decreases 32 - j,
    {
        bytes.push(hash.0[j]);
        assert(digest(*hash).take(j + 1) =~= digest(*hash).take(j as int).push(hash.0@[j as int]));
        assert(bytes@ =~= old(bytes)@ + digest(*hash).take(j + 1));
        j += 1;
    }
    assert(digest(*hash).take(32) =~= digest(*hash));
}

/// Appending a lane to whole lanes leaves them as they are and adds the new
/// one at the end.
pub proof fn lemma_push_lane(bytes: Seq<u8>, added: Seq<u8>, n: int)
    requires
        n >= 0,
        bytes.len() == 32 * n,
        added.len() == 32,
    ensures
        lane(bytes + added, n) == added,
        forall|k: int| 0 <= k < n ==> #[trigger] lane(bytes + added, k) == lane(bytes, k),
{
    assert(lane(bytes + added, n) =~= added);
    assert forall|k: int| 0 <= k < n implies lane(bytes + added, k) == lane(bytes, k) by {
        assert(lane(bytes + added, k) =~= lane(bytes, k));
    }
}

/// The hash that entry `i` starts from.
pub fn prev_hash(entries: &[Entry], start_hash: &solana_sdk::hash::Hash, i: usize) -> (r: solana_sdk::hash::Hash)
    requires
        i <= entries@.len(),
    ensures
        digest(r) == prev_digest(entries@, digest(*start_hash), i as int),
{
    if i == 0 {
        *start_hash
    } else {
        entries[i - 1].hash
    }
}

/// Whether `bytes` holds, for a slice and its starting hash, one lane for
/// each entry with the hash that the entry starts from, then zero lanes up to
/// a multiple of `width`.
pub open spec fn lanes_prepared(bytes: Seq<u8>, entries: Seq<Entry>, start: Seq<u8>, width: nat) -> bool {
    &&& bytes.len() == 32 * aligned_len(entries.len(), width)
    &&& forall|i: int| 0 <= i < entries.len() ==> #[trigger] lane(bytes, i) == prev_digest(entries, start, i)
    &&& forall|i: int|
        entries.len() <= i < aligned_len(entries.len(), width) ==> #[trigger] lane(bytes, i) == zero_digest()
}

/// Whether `counts` holds, for a slice, the number of plain steps of each
/// entry, then zeros up to a multiple of `width`.
pub open spec fn counts_prepared(counts: Seq<u64>, entries: Seq<Entry>, width: nat) -> bool {
    &&& counts.len() == aligned_len(entries.len(), width)
    &&& forall|i: int| 0 <= i < entries.len() ==> #[trigger] counts[i] == walk_count(entries[i].num_hashes)
    &&& forall|i: int| entries.len() <= i < counts.len() ==> #[trigger] counts[i] == 0
}

/// Whether `after` is what the batch step makes of `before`: every lane
/// advanced by as many plain steps as `counts` gives for it.
pub open spec fn lanes_advanced(before: Seq<u8>, counts: Seq<u64>, after: Seq<u8>) -> bool {
    &&& after.len() == before.len()
    &&& forall|i: int| 0 <= i < counts.len() ==> #[trigger] lane(after, i) == hash_n(lane(before, i), counts[i] as nat)
}

/// Whether every entry stores the hash that follows from its lane of
/// `bytes`.
pub open spec fn lanes_match(entries: Seq<Entry>, bytes: Seq<u8>) -> bool {
    forall|i: int| 0 <= i < entries.len() ==> finalizes(#[trigger] entries[i], lane(bytes, i))
}

/// Rounds the length of a slice up to a multiple of `simd_len`.
pub fn align_up(len: usize, simd_len: usize) -> (r: usize)
    requires
        simd_len == 8 || simd_len == 16,
        simd_fits(len as nat),
    ensures
        r == aligned_len(len as nat, simd_len as nat),
        len <= r < len + simd_len,
        32 * r <= usize::MAX,
{
    ((len + simd_len - 1) / simd_len) * simd_len
}

/// Lays out the lanes of a slice for a walk of width `simd_len`: the hash
/// that each entry starts from, padded with zero lanes.
pub fn simd_hashes(entries: &[Entry], start_hash: &solana_sdk::hash::Hash, simd_len: usize) -> (r: Vec<u8>)
    requires
        simd_len == 8 || simd_len == 16,
        simd_fits(entries@.len()),
    ensures
        lanes_prepared(r@, entries@, digest(*start_hash), simd_len as nat),
{
    let aligned = align_up(entries.len(), simd_len);
    let zero = zero_hash();
    let mut bytes: Vec<u8> = Vec::new();
    let mut i: usize = 0;
    while i < aligned
        invariant
            i <= aligned,
            entries@.len() <= aligned,
            digest(zero) == zero_digest(),
            bytes@.len() == 32 * i,
            forall|k: int| 0 <= k < i && k < entries@.len() ==> #[trigger] lane(bytes@, k) == prev_digest(entries@, digest(*start_hash), k),
            forall|k: int| entries@.len() <= k < i ==> #[trigger] lane(bytes@, k) == zero_digest(),
        decreases aligned - i,
    {
        let ghost before = bytes@;
        let h = if i < entries.len() {
            prev_hash(entries, start_hash, i)
        } else {
            zero
        };
        push_lane(&mut bytes, &h);
        proof {
            lemma_push_lane(before, digest(h), i as int);
        }
        i += 1;
    }
    bytes
}

/// Lays out the number of plain steps of each entry for a walk of width
/// `simd_len`, padded with zeros.
pub fn simd_num_hashes(entries: &[Entry], simd_len: usize) -> (r: Vec<u64>)
    requires
        simd_len == 8 || simd_len == 16,
        simd_fits(entries@.len()),
    ensures
        counts_prepared(r@, entries@, simd_len as nat),
{
    let aligned = align_up(entries.len(), simd_len);
    let mut counts: Vec<u64> = Vec::new();
    let mut i: usize = 0;
    while i < aligned
        invariant
            i <= aligned,
            entries@.len() <= aligned,
            counts@.len() == i,
            forall|k: int| 0 <= k < i && k < entries@.len() ==> #[trigger] counts@[k] == walk_count(entries@[k].num_hashes),
            forall|k: int| entries@.len() <= k < i ==> #[trigger] counts@[k] == 0,
        decreases aligned - i,
    {
        let n: u64 = if i < entries.len() {
            entries[i].num_hashes.saturating_sub(1)
        } else {
            0
        };
        counts.push(n);
        i += 1;
    }
    counts
}

/// The batch step in portable code: advances every lane of `hashes` by as
/// many plain steps as `num_hashes` gives for it.
pub fn advance_lanes(hashes: &mut Vec<u8>, num_hashes: &Vec<u64>)
    requires
        old(hashes)@.len() == 32 * num_hashes@.len(),
    ensures
        lanes_advanced(old(hashes)@, num_hashes@, final(hashes)@),
{
    let mut out: Vec<u8> = Vec::new();
    let mut i: usize = 0;
    while i < num_hashes.len()
        invariant
            i <= num_hashes@.len(),
            hashes@ == old(hashes)@,
            hashes@.len() == 32 * num_hashes@.len(),
            out@.len() == 32 * i,
            forall|k: int| 0 <= k < i ==> #[trigger] lane(out@, k) == hash_n(lane(hashes@, k), num_hashes@[k] as nat),
        decreases num_hashes@.len() - i,
    {
        let from = read_lane(hashes, i);
        let mut poh = Poh::new(from);
        poh.hash(num_hashes[i]);
        let ghost before = out@;
        push_lane(&mut out, &poh.hash);
        proof {
            lemma_push_lane(before, digest(poh.hash), i as int);
        }
        i += 1;
    }
    *hashes = out;
}

/// Makes the last step of every entry from its lane of `hashes` and compares
/// the result with the hash that the entry stores.
pub fn check_lanes(entries: &[Entry], hashes: &Vec<u8>) -> (r: bool)
    requires
        32 * entries@.len() <= hashes@.len(),
    ensures
        r == lanes_match(entries@, hashes@),
{
    let mut i: usize = 0;
    while i < entries.len()
        invariant
            i <= entries@.len(),
            32 * entries@.len() <= hashes@.len(),
            forall|k: int| 0 <= k < i ==> finalizes(#[trigger] entries@[k], lane(hashes@, k)),
        decreases entries@.len() - i,
    {
        let computed = read_lane(hashes, i);
        if !compare_hashes(computed, &entries[i]) {
            return false;
        }
        i += 1;
    }
    true
}

} // verus!
