//! Verification of a slice of entries: the signatures of its transactions,
//! its hash chain on the backend that fits, and its tick protocol.
use vstd::prelude::*;
use crate::entry::{chain_valid, hash_transactions, prev_digest, Entry};
use crate::hash::digest;
use crate::lanes::{
    advance_lanes, check_lanes, counts_prepared, entry_mixin, lane_target, lanes_advanced, lanes_match,
    lanes_prepared, lanes_valid, option_digest, prev_hash, simd_fits, simd_hashes, simd_num_hashes, walk_count,
};
use crate::state::{
    elapsed_us, select_backend_spec, timer_start, Backends, DeviceVerificationData, EntryVerificationState,
    EntryVerificationStatus, GpuVerificationData, PohBackend,
};
use crate::ticks::{carry_at, carry_out, lemma_first_bad_tick_from, lemma_overrun_rejects, run_hashes,
    tick_count_spec, tick_hash_count_ok, ticks_before};
use crate::transaction::transaction_ok;

verus! {

/// Whether every transaction of every entry passes.
pub open spec fn signatures_ok(entries: Seq<Entry>, secp256k1_program_enabled: bool) -> bool {
    forall|i: int, j: int|
        0 <= i < entries.len() && 0 <= j < entries[i].transactions@.len() ==> transaction_ok(
            (#[trigger] entries[i].transactions@[j])@,
            secp256k1_program_enabled,
        )
}

/// The status that a verdict stands for.
pub open spec fn verdict(valid: bool) -> EntryVerificationStatus {
    if valid {
        EntryVerificationStatus::Success
    } else {
        EntryVerificationStatus::Failure
    }
}

/// The backend that walks a slice of `len` entries on the processor: the
/// one selected without the device, or the scalar walk where the lanes would
/// not fit in a buffer.
pub open spec fn cpu_backend(backends: Backends, len: nat) -> PohBackend {
    let selected = select_backend_spec(
        Backends { gpu: false, simd: backends.simd, avx2: backends.avx2, avx512f: backends.avx512f },
        len,
    );
    if simd_fits(len) {
        selected
    } else {
        PohBackend::Scalar
    }
}

/// What a backend decides about the hash chain of a slice: the scalar walk
/// checks every link, every other makes the batch step and then the last
/// step of every entry.
pub open spec fn poh_valid(entries: Seq<Entry>, start: Seq<u8>, backend: PohBackend) -> bool {
    match backend {
        PohBackend::Scalar => chain_valid(entries, start),
        _ => lanes_valid(entries, start),
    }
}

/// Whether the buffers are laid out for the device: for every entry the hash
/// it starts from, the number of its plain steps and what its last step folds
/// in, and the device has not run.
pub open spec fn gpu_prepared(data: GpuVerificationData, entries: Seq<Entry>, start: Seq<u8>) -> bool {
    &&& !data.advanced
    &&& data.hashes@.len() == entries.len()
    &&& data.num_hashes@.len() == entries.len()
    &&& data.tx_hashes@.len() == entries.len()
    &&& forall|i: int|
        0 <= i < entries.len() ==> {
            &&& digest(#[trigger] data.hashes@[i]) == prev_digest(entries, start, i)
            &&& data.num_hashes@[i] == walk_count(entries[i].num_hashes)
            &&& option_digest(data.tx_hashes@[i]) == entry_mixin(entries[i])
        }
}

/// Checks every link of the chain, one entry after the other.
pub fn verify_chain(entries: &[Entry], start_hash: &solana_sdk::hash::Hash) -> (r: bool)
    ensures
        r == chain_valid(entries@, digest(*start_hash)),
{
    let mut i: usize = 0;
    while i < entries.len()
        invariant
            i <= entries@.len(),
            forall|k: int| 0 <= k < i ==> (#[trigger] entries@[k]).links(prev_digest(entries@, digest(*start_hash), k)),
        decreases entries@.len() - i,
    {
        let prev = prev_hash(entries, start_hash, i);
        if !entries[i].verify(&prev) {
            return false;
        }
        i += 1;
    }
    true
}

/// Lays out the buffers for the device.
pub fn gpu_prepare(entries: &[Entry], start_hash: &solana_sdk::hash::Hash) -> (r: GpuVerificationData)
    ensures
        gpu_prepared(r, entries@, digest(*start_hash)),
{
    let mut hashes: Vec<solana_sdk::hash::Hash> = Vec::new();
    let mut num_hashes: Vec<u64> = Vec::new();
    let mut tx_hashes: Vec<Option<solana_sdk::hash::Hash>> = Vec::new();
    let mut i: usize = 0;
    while i < entries.len()
        invariant
            i <= entries@.len(),
            hashes@.len() == i,
            num_hashes@.len() == i,
            tx_hashes@.len() == i,
            forall|k: int|
                0 <= k < i ==> {
                    &&& digest(#[trigger] hashes@[k]) == prev_digest(entries@, digest(*start_hash), k)
                    &&& num_hashes@[k] == walk_count(entries@[k].num_hashes)
                    &&& option_digest(tx_hashes@[k]) == entry_mixin(entries@[k])
                },
        decreases entries@.len() - i,
    {
        let entry = &entries[i];
        hashes.push(prev_hash(entries, start_hash, i));
        let count: u64 = entry.num_hashes.saturating_sub(1);
        assert(count == walk_count(entry.num_hashes));
        num_hashes.push(count);
        tx_hashes.push(
            if entry.transactions.len() == 0 {
                None
            } else {
                Some(hash_transactions(entry.transactions.as_slice()))
            },
        );
        i += 1;
    }
    let data = GpuVerificationData { hashes, num_hashes, tx_hashes, advanced: false };
    assert forall|k: int| 0 <= k < entries@.len() implies {
        &&& digest(#[trigger] data.hashes@[k]) == prev_digest(entries@, digest(*start_hash), k)
        &&& data.num_hashes@[k] == walk_count(entries@[k].num_hashes)
        &&& option_digest(data.tx_hashes@[k]) == entry_mixin(entries@[k])
    } by {
        assert(digest(hashes@[k]) == prev_digest(entries@, digest(*start_hash), k));
    }
    data
}

/// A slice of entries.
pub trait EntrySlice {
    /// The entries of the slice.
    spec fn entries(&self) -> Seq<Entry>;

    /// Verifies the hash chain on the processor, with the wide-SIMD walk
    /// where it is available and the slice is long enough.
    fn verify_cpu(&self, start_hash: &solana_sdk::hash::Hash, backends: &Backends) -> (r: EntryVerificationState)
        ensures
            r.status_spec() == verdict(
                poh_valid(self.entries(), digest(*start_hash), cpu_backend(*backends, self.entries().len())),
            ),
            r.transaction_duration_spec() == 0,
            r.device_spec() == DeviceVerificationData::CPU(),
    ;

    /// Verifies the hash chain with the scalar walk: every entry must link to
    /// the hash stored before it.
    fn verify_cpu_generic(&self, start_hash: &solana_sdk::hash::Hash) -> (r: EntryVerificationState)
        ensures
            r.status_spec() == verdict(chain_valid(self.entries(), digest(*start_hash))),
            r.transaction_duration_spec() == 0,
            r.device_spec() == DeviceVerificationData::CPU(),
    ;

    /// Verifies the hash chain with a walk of `simd_len` lanes: the batch
    /// step on every lane, then the last step of every entry.
    fn verify_cpu_x86_simd(&self, start_hash: &solana_sdk::hash::Hash, simd_len: usize) -> (r: EntryVerificationState)
        requires
            simd_len == 8 || simd_len == 16,
            simd_fits(self.entries().len()),
        ensures
            r.status_spec() == verdict(lanes_valid(self.entries(), digest(*start_hash))),
            r.transaction_duration_spec() == 0,
            r.device_spec() == DeviceVerificationData::CPU(),
    ;

    /// Starts a verification: the signatures first, then the hash chain. A
    /// slice with a bad transaction fails at once. Without the device the
    /// chain is verified on the processor and the verdict is there. With it
    /// the buffers are laid out and the verification waits for the device.
    fn start_verify(
        &self,
        start_hash: &solana_sdk::hash::Hash,
        backends: &Backends,
        secp256k1_program_enabled: bool,
    ) -> (r: EntryVerificationState)
        ensures
            !signatures_ok(self.entries(), secp256k1_program_enabled) ==> {
                &&& r.status_spec() == EntryVerificationStatus::Failure
                &&& r.poh_duration_spec() == 0
                &&& r.device_spec() == DeviceVerificationData::CPU()
            },
            signatures_ok(self.entries(), secp256k1_program_enabled) && !backends.gpu ==> {
                &&& r.status_spec() == verdict(
                    poh_valid(self.entries(), digest(*start_hash), cpu_backend(*backends, self.entries().len())),
                )
                &&& r.device_spec() == DeviceVerificationData::CPU()
            },
            signatures_ok(self.entries(), secp256k1_program_enabled) && backends.gpu ==> {
                &&& r.pending_on_gpu()
                &&& gpu_prepared(r.gpu_data(), self.entries(), digest(*start_hash))
            },
    ;

    /// Verifies the signatures of the transactions and the hash chain, with
    /// no accelerated backend.
    fn verify(&self, start_hash: &solana_sdk::hash::Hash) -> (r: bool)
        ensures
            r == (signatures_ok(self.entries(), true) && chain_valid(self.entries(), digest(*start_hash))),
    ;

    /// Checks that each tick closes a run of exactly `hashes_per_tick`
    /// hashes and that fewer are left over at the end. A slice need not end
    /// in a tick, so `tick_hash_count` carries the count over to the next
    /// slice. With `hashes_per_tick == 0` hashing is disabled: every slice is
    /// accepted and the count stays as it is. The count stops at the largest
    /// number where more hashes accumulate.
    fn verify_tick_hash_count(&self, tick_hash_count: &mut u64, hashes_per_tick: u64) -> (r: bool)
        ensures
            r == tick_hash_count_ok(self.entries(), *old(tick_hash_count) as int, hashes_per_tick as int),
            hashes_per_tick == 0 ==> *final(tick_hash_count) == *old(tick_hash_count),
            hashes_per_tick != 0 ==> *final(tick_hash_count) == (if carry_out(
                self.entries(),
                *old(tick_hash_count) as int,
                hashes_per_tick as int,
            ) > u64::MAX {
                u64::MAX as int
            } else {
                carry_out(self.entries(), *old(tick_hash_count) as int, hashes_per_tick as int)
            }),
    ;

    /// Counts the ticks.
    fn tick_count(&self) -> (r: u64)
        ensures
            r == tick_count_spec(self.entries()),
    ;

    /// Checks every transaction of every entry.
    fn verify_transaction_signatures(&self, secp256k1_program_enabled: bool) -> (r: bool)
        ensures
            r == signatures_ok(self.entries(), secp256k1_program_enabled),
    ;
}

/// What the batch step leaves in the lanes of a prepared buffer decides
/// exactly what the walk in lanes decides about the slice.
pub proof fn lemma_lanes_verdict(
    entries: Seq<Entry>,
    start: Seq<u8>,
    width: nat,
    before: Seq<u8>,
    counts: Seq<u64>,
    after: Seq<u8>,
)
    requires
        lanes_prepared(before, entries, start, width),
        counts_prepared(counts, entries, width),
        lanes_advanced(before, counts, after),
        entries.len() <= counts.len(),
    ensures
        lanes_match(entries, after) == lanes_valid(entries, start),
{
    assert forall|i: int| 0 <= i < entries.len() implies crate::lanes::lane(after, i) == lane_target(
        entries,
        start,
        i,
    ) by {
        assert(crate::lanes::lane(before, i) == prev_digest(entries, start, i));
        assert(counts[i] == walk_count(entries[i].num_hashes));
    }
}

impl EntrySlice for [Entry] {
    open spec fn entries(&self) -> Seq<Entry> {
        self@
    }

    fn verify_cpu(&self, start_hash: &solana_sdk::hash::Hash, backends: &Backends) -> (r: EntryVerificationState) {
        let cpu_only = Backends { gpu: false, simd: backends.simd, avx2: backends.avx2, avx512f: backends.avx512f };
        let fits = self.len() <= usize::MAX / 32 - 16;
        match cpu_only.select(self.len()) {
            PohBackend::Simd16 => {
                if fits {
                    self.verify_cpu_x86_simd(start_hash, 16)
                } else {
                    self.verify_cpu_generic(start_hash)
                }
            },
            PohBackend::Simd8 => {
                if fits {
                    self.verify_cpu_x86_simd(start_hash, 8)
                } else {
                    self.verify_cpu_generic(start_hash)
                }
            },
            _ => self.verify_cpu_generic(start_hash),
        }
    }

    fn verify_cpu_generic(&self, start_hash: &solana_sdk::hash::Hash) -> (r: EntryVerificationState) {
        let now = timer_start();
        let res = verify_chain(self, start_hash);
        let poh_duration_us = elapsed_us(&now);
        EntryVerificationState::cpu(res, poh_duration_us, 0)
    }

    fn verify_cpu_x86_simd(&self, start_hash: &solana_sdk::hash::Hash, simd_len: usize) -> (r: EntryVerificationState) {
        let now = timer_start();
        let mut hashes_bytes = simd_hashes(self, start_hash, simd_len);
        let num_hashes = simd_num_hashes(self, simd_len);
        let ghost before = hashes_bytes@;
        advance_lanes(&mut hashes_bytes, &num_hashes);
        let res = check_lanes(self, &hashes_bytes);
        proof {
            lemma_lanes_verdict(self@, digest(*start_hash), simd_len as nat, before, num_hashes@, hashes_bytes@);
        }
        let poh_duration_us = elapsed_us(&now);
        EntryVerificationState::cpu(res, poh_duration_us, 0)
    }

    fn start_verify(
        &self,
        start_hash: &solana_sdk::hash::Hash,
        backends: &Backends,
        secp256k1_program_enabled: bool,
    ) -> (r: EntryVerificationState) {
        let start = timer_start();
        let res = self.verify_transaction_signatures(secp256k1_program_enabled);
        let transaction_duration_us = elapsed_us(&start);
        if !res {
            return EntryVerificationState::cpu(false, 0, transaction_duration_us);
        }
        let start = timer_start();
        if !backends.gpu {
            let mut res = self.verify_cpu(start_hash, backends);
            res.set_transaction_duration_us(transaction_duration_us);
            return res;
        }
        let data = gpu_prepare(self, start_hash);
        EntryVerificationState::gpu(data, elapsed_us(&start), transaction_duration_us)
    }

    fn verify(&self, start_hash: &solana_sdk::hash::Hash) -> (r: bool) {
        let mut state = self.start_verify(start_hash, &Backends::none(), true);
        state.finish_verify(self)
    }

    fn verify_tick_hash_count(&self, tick_hash_count: &mut u64, hashes_per_tick: u64) -> (r: bool) {
        // When hashes_per_tick is 0, hashing is disabled.
        if hashes_per_tick == 0 {
            return true;
        }
        let ghost carry = *tick_hash_count as int;
        let ghost per_tick = hashes_per_tick as int;
        let mut i: usize = 0;
        while i < self.len()
            invariant
                i <= self@.len(),
                hashes_per_tick > 0,
                carry == *old(tick_hash_count),
                per_tick == hashes_per_tick,
                *tick_hash_count == carry_at(self@, carry, i as int),
                forall|k: int|
                    0 <= k < i && (#[trigger] self@[k]).is_tick_spec() ==> run_hashes(self@, carry, k) == per_tick,
            decreases self@.len() - i,
        {
            let entry = &self[i];
            proof {
                lemma_first_bad_tick_from(self@, carry, per_tick, i as int);
            }
            if entry.num_hashes > u64::MAX - *tick_hash_count {
                proof {
                    if !entry.is_tick_spec() {
                        lemma_overrun_rejects(self@, carry, per_tick, i + 1);
                    }
                }
                *tick_hash_count = u64::MAX;
                return false;
            }
            *tick_hash_count = *tick_hash_count + entry.num_hashes;
            if entry.is_tick() {
                if *tick_hash_count != hashes_per_tick {
                    return false;
                }
                *tick_hash_count = 0;
            }
            i += 1;
        }
        proof {
            lemma_first_bad_tick_from(self@, carry, per_tick, i as int);
        }
        *tick_hash_count < hashes_per_tick
    }

    fn tick_count(&self) -> (r: u64) {
        let mut count: usize = 0;
        let mut i: usize = 0;
        while i < self.len()
            invariant
                i <= self@.len(),
                count <= i,
                count == ticks_before(self@, i as int),
            decreases self@.len() - i,
        {
            if self[i].is_tick() {
                count += 1;
            }
            i += 1;
        }
        count as u64
    }

    fn verify_transaction_signatures(&self, secp256k1_program_enabled: bool) -> (r: bool) {
        let mut i: usize = 0;
        while i < self.len()
            invariant
                i <= self@.len(),
                forall|a: int, b: int|
                    0 <= a < i && 0 <= b < self@[a].transactions@.len() ==> transaction_ok(
                        (#[trigger] self@[a].transactions@[b])@,
                        secp256k1_program_enabled,
                    ),
            decreases self@.len() - i,
        {
            let entry = &self[i];
            let mut j: usize = 0;
            while j < entry.transactions.len()
                invariant
                    i < self@.len(),
                    *entry == self@[i as int],
                    j <= entry.transactions@.len(),
                    forall|b: int|
                        0 <= b < j ==> transaction_ok((#[trigger] entry.transactions@[b])@, secp256k1_program_enabled),
                decreases entry.transactions@.len() - j,
            {
                if !entry.transactions[j].verify(secp256k1_program_enabled) {
                    return false;
                }
                j += 1;
            }
            i += 1;
        }
        true
    }
}

/// Whether no entry of the slice carries transactions without a hash.
pub open spec fn all_well_formed(entries: Seq<Entry>) -> bool {
    forall|i: int| 0 <= i < entries.len() ==> (#[trigger] entries[i]).well_formed()
}

/// On a slice whose entries are well formed all backends decide alike: the
/// walk in lanes accepts the slice exactly when the scalar walk does.
pub proof fn lemma_backends_agree(entries: Seq<Entry>, start: Seq<u8>, a: PohBackend, b: PohBackend)
    requires
        all_well_formed(entries),
    ensures
        poh_valid(entries, start, a) == poh_valid(entries, start, b),
        lanes_valid(entries, start) == chain_valid(entries, start),
{
    assert forall|i: int| 0 <= i < entries.len() implies crate::lanes::finalizes(
        #[trigger] entries[i],
        lane_target(entries, start, i),
    ) == entries[i].links(prev_digest(entries, start, i)) by {
        assert(entries[i].well_formed());
    }
}

/// Whether `after` is what the device makes of prepared buffers: every hash
/// advanced by the number of plain steps laid out for it.
pub open spec fn gpu_advanced(before: GpuVerificationData, after: Seq<solana_sdk::hash::Hash>) -> bool {
    &&& after.len() == before.hashes@.len()
    &&& forall|i: int|
        0 <= i < after.len() ==> digest(#[trigger] after[i]) == crate::poh::hash_n(
            digest(before.hashes@[i]),
            before.num_hashes@[i] as nat,
        )
}

/// The verdict on prepared buffers is the verdict of the walk in lanes,
/// whether the device has made the batch step or the portable walk makes it.
pub proof fn lemma_gpu_verdict(
    entries: Seq<Entry>,
    start: Seq<u8>,
    prepared: GpuVerificationData,
    held: GpuVerificationData,
)
    requires
        gpu_prepared(prepared, entries, start),
        held == prepared || {
            &&& held.advanced
            &&& gpu_advanced(prepared, held.hashes@)
            &&& held.num_hashes == prepared.num_hashes
            &&& held.tx_hashes == prepared.tx_hashes
        },
    ensures
        held.lanes_match(entries) == lanes_valid(entries, start),
{
    assert(held.lane_count(entries) == entries.len());
    assert forall|i: int| 0 <= i < entries.len() implies held.lane_reached(i) == lane_target(entries, start, i) by {
        assert(digest(prepared.hashes@[i]) == prev_digest(entries, start, i));
        if held != prepared {
            assert(digest(held.hashes@[i]) == crate::poh::hash_n(
                digest(prepared.hashes@[i]),
                prepared.num_hashes@[i] as nat,
            ));
        }
    }
    assert forall|i: int| 0 <= i < entries.len() implies option_digest(held.tx_hashes@[i]) == entry_mixin(
        entries[i],
    ) by {
        assert(digest(prepared.hashes@[i]) == prev_digest(entries, start, i));
    }
    if held.lanes_match(entries) {
        assert forall|i: int| 0 <= i < entries.len() implies crate::lanes::finalizes(
            #[trigger] entries[i],
            lane_target(entries, start, i),
        ) by {
            assert(held.lane_reached(i) == lane_target(entries, start, i));
            assert(option_digest(held.tx_hashes@[i]) == entry_mixin(entries[i]));
        }
    }
    if lanes_valid(entries, start) {
        assert forall|i: int| 0 <= i < held.lane_count(entries) implies digest((#[trigger] entries[i]).hash)
            == crate::lanes::finalized(
            held.lane_reached(i),
            entries[i].num_hashes,
            option_digest(held.tx_hashes@[i]),
        ) by {
            assert(held.lane_reached(i) == lane_target(entries, start, i));
            assert(option_digest(held.tx_hashes@[i]) == entry_mixin(entries[i]));
        }
    }
}

} // verus!
