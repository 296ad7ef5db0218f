//! Entries of the ledger and the hash that links each one to its
//! predecessor.
use vstd::prelude::*;
use crate::hash::{digest, hash_eq, zero_digest, zero_hash};
use crate::poh::{hash_mixin, hash_n, hash_once, Poh};
use crate::transaction::{Transaction, TransactionView};

verus! {

/// The root of the Merkle tree whose leaves are the given byte strings, in
/// order. Only meaningful for at least one leaf.
pub uninterp spec fn merkle_root(leaves: Seq<Seq<u8>>) -> Seq<u8>;

/// The bytes of each signature of a list.
pub open spec fn leaf_bytes(leaves: Seq<[u8; 64]>) -> Seq<Seq<u8>> {
    leaves.map_values(|s: [u8; 64]| s@)
}

/// The mathematical values of a list of transactions.
pub open spec fn tx_views(txs: Seq<Transaction>) -> Seq<TransactionView> {
    txs.map_values(|t: Transaction| t@)
}

/// Every signature of every transaction: transactions in order, and within
/// a transaction its signatures in order.
pub open spec fn signature_leaves(txs: Seq<TransactionView>) -> Seq<Seq<u8>>
    decreases txs.len(),
{
    if txs.len() == 0 {
        Seq::empty()
    } else {
        signature_leaves(txs.drop_last()) + txs.last().signatures
    }
}

/// The digest that binds the transactions of an entry, and their order, into
/// the entry's hash.
pub open spec fn transactions_digest(txs: Seq<TransactionView>) -> Seq<u8> {
    if signature_leaves(txs).len() == 0 {
        zero_digest()
    } else {
        merkle_root(signature_leaves(txs))
    }
}

/// The hash of the entry that lies `num_hashes` steps after `start` and
/// carries `txs`.
pub open spec fn next_hash_spec(start: Seq<u8>, num_hashes: u64, txs: Seq<TransactionView>) -> Seq<u8> {
    if num_hashes == 0 && txs.len() == 0 {
        start
    } else {
        let walked = hash_n(start, if num_hashes == 0 { 0nat } else { (num_hashes - 1) as nat });
        if txs.len() == 0 {
            hash_once(walked)
        } else {
            hash_mixin(walked, transactions_digest(txs))
        }
    }
}

/// Calls `solana_merkle_tree::MerkleTree::new` on the leaves and then
/// `get_root`. The tree has a node for every leaf, so there is a root exactly
/// when there is a leaf; the contract names the root.
#[verifier::external_body]
pub(crate) fn merkle_tree_root(leaves: &Vec<[u8; 64]>) -> (r: Option<solana_sdk::hash::Hash>)
    ensures
        r.is_some() == (leaves@.len() > 0),
        r.is_some() ==> digest(r.unwrap()) == merkle_root(leaf_bytes(leaves@)),
{
    solana_merkle_tree::MerkleTree::new(leaves).get_root().copied()
}

/// Hashes the signatures of the transactions into one digest; the zero digest
/// where there is no signature.
pub fn hash_transactions(transactions: &[Transaction]) -> (r: solana_sdk::hash::Hash)
    ensures
        digest(r) == transactions_digest(tx_views(transactions@)),
{
    let ghost views = tx_views(transactions@);
    let mut leaves: Vec<[u8; 64]> = Vec::new();
    let mut i: usize = 0;
    assert(leaf_bytes(leaves@) =~= signature_leaves(views.take(0)));
    while i < transactions.len()
        invariant
            i <= transactions.len(),
            views == tx_views(transactions@),
            leaf_bytes(leaves@) == signature_leaves(views.take(i as int)),
        decreases transactions.len() - i,
    {
        let tx = &transactions[i];
        let mut j: usize = 0;
        assert(tx@.signatures.take(0) =~= Seq::empty());
        assert(leaf_bytes(leaves@) + tx@.signatures.take(0) =~= leaf_bytes(leaves@));
        while j < tx.signatures.len()
            invariant
                i < transactions.len(),
                j <= tx.signatures.len(),
                *tx == transactions@[i as int],
                leaf_bytes(leaves@) == signature_leaves(views.take(i as int))
                    + tx@.signatures.take(j as int),
            decreases tx.signatures.len() - j,
        {
            let ghost before = leaves@;
            leaves.push(tx.signatures[j]);
            proof {
                assert(leaf_bytes(leaves@) =~= leaf_bytes(before).push(tx.signatures@[j as int]@));
                assert(tx@.signatures.take(j + 1) =~= tx@.signatures.take(j as int).push(
                    tx.signatures@[j as int]@,
                ));
                assert(leaf_bytes(leaves@) =~= signature_leaves(views.take(i as int))
                    + tx@.signatures.take(j + 1));
            }
            j += 1;
        }
        proof {
            assert(tx@.signatures.take(j as int) =~= tx@.signatures);
            assert(views.take(i + 1).drop_last() =~= views.take(i as int));
            assert(views.take(i + 1).last() == tx@);
        }
        i += 1;
    }
    assert(views.take(i as int) =~= views);
    root_or_zero(merkle_tree_root(&leaves))
}

/// The root of a tree, or the zero digest where the tree has none.
pub fn root_or_zero(root: Option<solana_sdk::hash::Hash>) -> (r: solana_sdk::hash::Hash)
    ensures
        digest(r) == (match root {
            Some(h) => digest(h),
            None => zero_digest(),
        }),
{
    match root {
        Some(h) => h,
        None => zero_hash(),
    }
}

/// Creates the hash `num_hashes` after `start_hash`. With transactions the
/// last step folds in their digest; with neither hashes nor transactions the
/// result is `start_hash` itself.
pub fn next_hash(start_hash: &solana_sdk::hash::Hash, num_hashes: u64, transactions: &[Transaction]) -> (r: solana_sdk::hash::Hash)
    ensures
        digest(r) == next_hash_spec(digest(*start_hash), num_hashes, tx_views(transactions@)),
{
    if num_hashes == 0 && transactions.len() == 0 {
        return *start_hash;
    }
    let mut poh = Poh::new(*start_hash);
    poh.hash(num_hashes.saturating_sub(1));
    if transactions.len() == 0 {
        poh.tick()
    } else {
        let mixin = hash_transactions(transactions);
        poh.record(&mixin)
    }
}

/// One record of the ledger: a hash, the number of hashes since the previous
/// entry, and the transactions observed before the hash was generated.
#[derive(Clone, Debug, Default, PartialEq, Eq)]
pub struct Entry {
    /// The number of hashes since the previous entry.
    pub num_hashes: u64,
    /// The hash `num_hashes` after the previous entry's hash.
    pub hash: solana_sdk::hash::Hash,
    /// The transactions bound into `hash`.
    pub transactions: Vec<Transaction>,
}

impl Entry {
    /// Whether the entry carries no transaction.
    pub open spec fn is_tick_spec(&self) -> bool {
        self.transactions@.len() == 0
    }

    /// Whether the entry's hash is the one that follows `prev` after the
    /// entry's number of hashes and with its transactions.
    pub open spec fn links(&self, prev: Seq<u8>) -> bool {
        digest(self.hash) == next_hash_spec(prev, self.num_hashes, tx_views(self.transactions@))
    }

    /// Whether an entry without hashes carries no transaction.
    pub open spec fn well_formed(&self) -> bool {
        self.num_hashes == 0 ==> self.is_tick_spec()
    }

    /// Creates the next entry `num_hashes` after `prev_hash`. Zero hashes with
    /// transactions count as one hash. The entry links to `prev_hash`, so it
    /// passes `verify` against it.
    pub fn new(prev_hash: &solana_sdk::hash::Hash, num_hashes: u64, transactions: Vec<Transaction>) -> (r: Entry)
        ensures
            r.transactions == transactions,
            r.num_hashes == (if num_hashes == 0 && transactions@.len() > 0 { 1 } else { num_hashes }),
            r.links(digest(*prev_hash)),
            r.well_formed(),
    {
        let num_hashes = if num_hashes == 0 && transactions.len() > 0 { 1 } else { num_hashes };
        let hash = next_hash(prev_hash, num_hashes, transactions.as_slice());
        Entry { num_hashes, hash, transactions }
    }

    /// Creates the next entry as `new` does, moves `start_hash` on to the new
    /// entry's hash and resets the hash count.
    pub fn new_mut(start_hash: &mut solana_sdk::hash::Hash, num_hashes: &mut u64, transactions: Vec<Transaction>) -> (r: Entry)
        ensures
            r.transactions == transactions,
            r.num_hashes == (if *old(num_hashes) == 0 && transactions@.len() > 0 { 1 } else { *old(num_hashes) }),
            r.links(digest(*old(start_hash))),
            r.well_formed(),
            *final(start_hash) == r.hash,
            *final(num_hashes) == 0,
    {
        let entry = Entry::new(start_hash, *num_hashes, transactions);
        *start_hash = entry.hash;
        *num_hashes = 0;
        entry
    }

    /// A tick with the given fields, whatever hash they imply.
    pub fn new_tick(num_hashes: u64, hash: &solana_sdk::hash::Hash) -> (r: Entry)
        ensures
            r.num_hashes == num_hashes,
            r.hash == *hash,
            r.transactions@.len() == 0,
            r.well_formed(),
    {
        Entry { num_hashes, hash: *hash, transactions: Vec::new() }
    }

    /// Verifies that the entry's hash is the result of hashing `start_hash`
    /// `num_hashes` times, the last time together with the transactions.
    pub fn verify(&self, start_hash: &solana_sdk::hash::Hash) -> (r: bool)
        ensures
            r == self.links(digest(*start_hash)),
    {
        let ref_hash = next_hash(start_hash, self.num_hashes, self.transactions.as_slice());
        hash_eq(&self.hash, &ref_hash)
    }

    /// Whether the entry carries no transaction.
    pub fn is_tick(&self) -> (r: bool)
        ensures
            r == self.is_tick_spec(),
    {
        self.transactions.len() == 0
    }
}

/// The hash that entry `i` of a sequence starts from: `start` for the first
/// entry, the stored hash of the entry before it for every other.
pub open spec fn prev_digest(entries: Seq<Entry>, start: Seq<u8>, i: int) -> Seq<u8> {
    if i <= 0 {
        start
    } else {
        digest(entries[i - 1].hash)
    }
}

/// Whether every entry of the sequence links to the hash stored before it.
pub open spec fn chain_valid(entries: Seq<Entry>, start: Seq<u8>) -> bool {
    forall|i: int| 0 <= i < entries.len() ==> (#[trigger] entries[i]).links(prev_digest(entries, start, i))
}

/// Whether every entry of the sequence is a tick.
pub open spec fn all_ticks(entries: Seq<Entry>) -> bool {
    forall|i: int| 0 <= i < entries.len() ==> (#[trigger] entries[i]).is_tick_spec()
}

/// Creates the next entry as `Entry::new` does and moves `start` on to its
/// hash.
pub fn next_entry_mut(start: &mut solana_sdk::hash::Hash, num_hashes: u64, transactions: Vec<Transaction>) -> (r: Entry)
    ensures
        r.transactions == transactions,
        r.num_hashes == (if num_hashes == 0 && transactions@.len() > 0 { 1 } else { num_hashes }),
        r.links(digest(*old(start))),
        r.well_formed(),
        *final(start) == r.hash,
{
    let entry = Entry::new(start, num_hashes, transactions);
    *start = entry.hash;
    entry
}

/// Creates `num_ticks` ticks of `hashes_per_tick` hashes each, chained from
/// `hash`.
pub fn create_ticks(num_ticks: u64, hashes_per_tick: u64, hash: solana_sdk::hash::Hash) -> (r: Vec<Entry>)
    ensures
        r@.len() == num_ticks,
        all_ticks(r@),
        forall|i: int| 0 <= i < r@.len() ==> (#[trigger] r@[i]).num_hashes == hashes_per_tick,
        chain_valid(r@, digest(hash)),
{
    let mut ticks: Vec<Entry> = Vec::new();
    let mut running = hash;
    let mut i: u64 = 0;
    while i < num_ticks
        invariant
            i <= num_ticks,
            ticks@.len() == i,
            all_ticks(ticks@),
            forall|k: int| 0 <= k < ticks@.len() ==> (#[trigger] ticks@[k]).num_hashes == hashes_per_tick,
            chain_valid(ticks@, digest(hash)),
            digest(running) == prev_digest(ticks@, digest(hash), ticks@.len() as int),
        decreases num_ticks - i,
    {
        let new_tick = next_entry_mut(&mut running, hashes_per_tick, Vec::new());
        ticks.push(new_tick);
        i += 1;
    }
    ticks
}

/// Calls `rand::Rng::gen_range` on the generator that `rand::thread_rng`
/// returns. It draws a value from the half-open range and panics on an empty
/// one, which `requires` rules out.
#[verifier::external_body]
pub(crate) fn random_in_range(low: u64, high: u64) -> (r: u64)
    requires
        low < high,
    ensures
        low <= r < high,
{
    rand::Rng::gen_range(&mut rand::thread_rng(), low, high)
}

/// Creates `num_ticks` ticks chained from `hash`, each with a number of
/// hashes drawn from `1..max_hashes_per_tick`.
pub fn create_random_ticks(num_ticks: u64, max_hashes_per_tick: u64, hash: solana_sdk::hash::Hash) -> (r: Vec<Entry>)
    requires
        max_hashes_per_tick > 1,
    ensures
        r@.len() == num_ticks,
        all_ticks(r@),
        forall|i: int| 0 <= i < r@.len() ==> 1 <= (#[trigger] r@[i]).num_hashes < max_hashes_per_tick,
        chain_valid(r@, digest(hash)),
{
    let mut ticks: Vec<Entry> = Vec::new();
    let mut running = hash;
    let mut i: u64 = 0;
    while i < num_ticks
        invariant
            max_hashes_per_tick > 1,
            i <= num_ticks,
            ticks@.len() == i,
            all_ticks(ticks@),
            forall|k: int| 0 <= k < ticks@.len() ==> 1 <= (#[trigger] ticks@[k]).num_hashes < max_hashes_per_tick,
            chain_valid(ticks@, digest(hash)),
            digest(running) == prev_digest(ticks@, digest(hash), ticks@.len() as int),
        decreases num_ticks - i,
    {
        let hashes_per_tick = random_in_range(1, max_hashes_per_tick);
        let new_tick = next_entry_mut(&mut running, hashes_per_tick, Vec::new());
        ticks.push(new_tick);
        i += 1;
    }
    ticks
}

/// Creates the next tick or transaction entry `num_hashes` after
/// `prev_hash`. Transactions need at least one hash.
pub fn next_entry(prev_hash: &solana_sdk::hash::Hash, num_hashes: u64, transactions: Vec<Transaction>) -> (r: Entry)
    requires
        num_hashes > 0 || transactions@.len() == 0,
    ensures
        r.transactions == transactions,
        r.num_hashes == num_hashes,
        r.links(digest(*prev_hash)),
        r.well_formed(),
{
    let hash = next_hash(prev_hash, num_hashes, transactions.as_slice());
    Entry { num_hashes, hash, transactions }
}

} // verus!
