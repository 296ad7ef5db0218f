//! The state of a verification: its status, how long each pass took, and what
//! the chosen backend still holds until the verdict is reached.
use vstd::prelude::*;
use crate::entry::Entry;
use crate::hash::digest;
use crate::lanes::{compare_with_mixin, finalized, option_digest};
use crate::poh::{hash_n, Poh};

verus! {

/// `std::time::Instant`, carried from the start of a measurement to its
/// end; nothing is known of what it holds.
#[verifier::external_type_specification]
#[verifier::external_body]
pub struct ExInstant(std::time::Instant);

/// Calls `std::time::Instant::now`. Nothing is known of the instant.
#[verifier::external_body]
pub(crate) fn timer_start() -> (r: std::time::Instant) {
    std::time::Instant::now()
}

/// Calls `solana_sdk::timing::duration_as_us` on the time that has passed
/// since `start`. Nothing is known of the number of microseconds.
#[verifier::external_body]
pub(crate) fn elapsed_us(start: &std::time::Instant) -> (r: u64) {
    solana_sdk::timing::duration_as_us(&start.elapsed())
}

/// The outcome of a verification, or that it is not known yet.
#[derive(Clone, Copy, Debug, PartialEq, Eq, Structural)]
pub enum EntryVerificationStatus {
    Failure,
    Success,
    Pending,
}

/// The hash walks that can be used, as found when the process started.
#[derive(Clone, Copy, Debug, PartialEq, Eq, Structural)]
pub struct Backends {
    /// The device entry point is available.
    pub gpu: bool,
    /// The wide-SIMD library is loaded.
    pub simd: bool,
    /// The processor has AVX2.
    pub avx2: bool,
    /// The processor has AVX-512F.
    pub avx512f: bool,
}

/// One way of walking the hash chain of a slice.
#[derive(Clone, Copy, Debug, PartialEq, Eq, Structural)]
pub enum PohBackend {
    Gpu,
    Simd16,
    Simd8,
    Scalar,
}

/// Shortest slice for which the 16-lane walk pays off.
pub const SIMD16_MIN_ENTRIES: usize = 128;

/// Shortest slice for which the 8-lane walk pays off.
pub const SIMD8_MIN_ENTRIES: usize = 48;

/// The backend for a slice of `len` entries: the device if there is one, else
/// the widest SIMD walk that the processor, the library and the length allow,
/// else the scalar walk.
pub open spec fn select_backend_spec(backends: Backends, len: nat) -> PohBackend {
    if backends.gpu {
        PohBackend::Gpu
    } else if backends.avx512f && backends.simd && len >= SIMD16_MIN_ENTRIES {
        PohBackend::Simd16
    } else if backends.avx2 && backends.simd && len >= SIMD8_MIN_ENTRIES {
        PohBackend::Simd8
    } else {
        PohBackend::Scalar
    }
}

impl Backends {
    /// No accelerated backend at all.
    pub fn none() -> (r: Backends)
        ensures
            r == (Backends { gpu: false, simd: false, avx2: false, avx512f: false }),
    {
        Backends { gpu: false, simd: false, avx2: false, avx512f: false }
    }

    /// Picks the backend for a slice of `len` entries.
    pub fn select(&self, len: usize) -> (r: PohBackend)
        ensures
            r == select_backend_spec(*self, len as nat),
    {
        if self.gpu {
            PohBackend::Gpu
        } else if self.avx512f && self.simd && len >= SIMD16_MIN_ENTRIES {
            PohBackend::Simd16
        } else if self.avx2 && self.simd && len >= SIMD8_MIN_ENTRIES {
            PohBackend::Simd8
        } else {
            PohBackend::Scalar
        }
    }
}

/// What a verification on the device holds until its verdict is reached.
#[derive(Debug)]
pub struct GpuVerificationData {
    /// One hash for each entry: before the device has run, the hash that the
    /// entry starts from; after it, the hash that the walk reached.
    pub hashes: Vec<solana_sdk::hash::Hash>,
    /// The number of plain steps that the device makes for each entry.
    pub num_hashes: Vec<u64>,
    /// The digest of each entry's transactions; `None` for a tick.
    pub tx_hashes: Vec<Option<solana_sdk::hash::Hash>>,
    /// Whether `hashes` holds what the device computed.
    pub advanced: bool,
}

/// What a verification holds for its backend.
#[derive(Debug)]
pub enum DeviceVerificationData {
    CPU(),
    GPU(GpuVerificationData),
}

/// A verification that was started.
#[derive(Debug)]
pub struct EntryVerificationState {
    pub(crate) verification_status: EntryVerificationStatus,
    pub(crate) poh_duration_us: u64,
    pub(crate) transaction_duration_us: u64,
    pub(crate) device_verification_data: DeviceVerificationData,
}

impl GpuVerificationData {
    /// The number of entries that are compared: as many as the buffers and
    /// the slice all hold.
    pub open spec fn lane_count(&self, entries: Seq<Entry>) -> nat {
        let held = if self.hashes@.len() <= self.tx_hashes@.len() {
            self.hashes@.len()
        } else {
            self.tx_hashes@.len()
        };
        let counted = if self.advanced || held <= self.num_hashes@.len() {
            held
        } else {
            self.num_hashes@.len()
        };
        if counted <= entries.len() {
            counted
        } else {
            entries.len()
        }
    }

    /// The hash that lane `i` holds once the batch step is made: what the
    /// device left there, or, where the device has not run, what the portable
    /// walk makes of the lane.
    pub open spec fn lane_reached(&self, i: int) -> Seq<u8> {
        if self.advanced {
            digest(self.hashes@[i])
        } else {
            hash_n(digest(self.hashes@[i]), self.num_hashes@[i] as nat)
        }
    }

    /// Whether every compared entry stores the hash that follows from its
    /// lane and the digest kept for its transactions.
    pub open spec fn lanes_match(&self, entries: Seq<Entry>) -> bool {
        forall|i: int|
            0 <= i < self.lane_count(entries) ==> digest((#[trigger] entries[i]).hash) == finalized(
                self.lane_reached(i),
                entries[i].num_hashes,
                option_digest(self.tx_hashes@[i]),
            )
    }

    /// The number of entries that are compared.
    fn count_lanes(&self, entries: &[Entry]) -> (r: usize)
        ensures
            r == self.lane_count(entries@),
    {
        let held = if self.hashes.len() <= self.tx_hashes.len() {
            self.hashes.len()
        } else {
            self.tx_hashes.len()
        };
        let counted = if self.advanced || held <= self.num_hashes.len() {
            held
        } else {
            self.num_hashes.len()
        };
        if counted <= entries.len() {
            counted
        } else {
            entries.len()
        }
    }

    /// Makes the batch step where the device has not, then the last step of
    /// every compared entry, and compares each with the hash that the entry
    /// stores.
    pub fn check(&self, entries: &[Entry]) -> (r: bool)
        ensures
            r == self.lanes_match(entries@),
    {
        let count = self.count_lanes(entries);
        let mut i: usize = 0;
        while i < count
            invariant
                i <= count,
                count == self.lane_count(entries@),
                forall|k: int|
                    0 <= k < i ==> digest((#[trigger] entries@[k]).hash) == finalized(
                        self.lane_reached(k),
                        entries@[k].num_hashes,
                        option_digest(self.tx_hashes@[k]),
                    ),
            decreases count - i,
        {
            let mut poh = Poh::new(self.hashes[i]);
            if !self.advanced {
                poh.hash(self.num_hashes[i]);
            }
            if !compare_with_mixin(&poh.hash, &self.tx_hashes[i], &entries[i]) {
                return false;
            }
            i += 1;
        }
        true
    }
}

impl EntryVerificationState {
    /// A verification that reached its verdict on the processor.
    pub fn cpu(success: bool, poh_duration_us: u64, transaction_duration_us: u64) -> (r: EntryVerificationState)
        ensures
            r.status_spec() == (if success { EntryVerificationStatus::Success } else { EntryVerificationStatus::Failure }),
            r.poh_duration_spec() == poh_duration_us,
            r.transaction_duration_spec() == transaction_duration_us,
            r.device_spec() == DeviceVerificationData::CPU(),
    {
        EntryVerificationState {
            verification_status: if success { EntryVerificationStatus::Success } else { EntryVerificationStatus::Failure },
            poh_duration_us,
            transaction_duration_us,
            device_verification_data: DeviceVerificationData::CPU(),
        }
    }

    /// A verification that waits for the device.
    pub fn gpu(data: GpuVerificationData, poh_duration_us: u64, transaction_duration_us: u64) -> (r: EntryVerificationState)
        ensures
            r.status_spec() == EntryVerificationStatus::Pending,
            r.poh_duration_spec() == poh_duration_us,
            r.transaction_duration_spec() == transaction_duration_us,
            r.device_spec() == DeviceVerificationData::GPU(data),
    {
        EntryVerificationState {
            verification_status: EntryVerificationStatus::Pending,
            poh_duration_us,
            transaction_duration_us,
            device_verification_data: DeviceVerificationData::GPU(data),
        }
    }

    /// Whether the verification waits for its verdict on the device.
    pub open spec fn pending_on_gpu(&self) -> bool {
        self.on_gpu() && self.status_spec() == EntryVerificationStatus::Pending
    }

    /// Hands over what the device made of the lanes, and the microseconds it
    /// took. A verification that does not wait for the device, or that was
    /// handed lanes before, stays as it is.
    pub fn gpu_complete(&mut self, hashes: Vec<solana_sdk::hash::Hash>, gpu_time_us: u64)
        ensures
            final(self).status_spec() == old(self).status_spec(),
            final(self).transaction_duration_spec() == old(self).transaction_duration_spec(),
            !(old(self).pending_on_gpu() && !old(self).gpu_data().advanced) ==> *final(self) == *old(self),
            old(self).pending_on_gpu() && !old(self).gpu_data().advanced ==> {
                &&& final(self).on_gpu()
                &&& final(self).gpu_data().hashes == hashes
                &&& final(self).gpu_data().advanced
                &&& final(self).gpu_data().num_hashes == old(self).gpu_data().num_hashes
                &&& final(self).gpu_data().tx_hashes == old(self).gpu_data().tx_hashes
                &&& final(self).poh_duration_spec() == (if old(self).poh_duration_spec() + gpu_time_us > u64::MAX {
                    u64::MAX as int
                } else {
                    old(self).poh_duration_spec() + gpu_time_us
                })
            },
    {
        let pending = match self.verification_status {
            EntryVerificationStatus::Pending => true,
            _ => false,
        };
        if pending {
            match &mut self.device_verification_data {
                DeviceVerificationData::GPU(data) => {
                    if !data.advanced {
                        data.hashes = hashes;
                        data.advanced = true;
                        self.poh_duration_us = self.poh_duration_us.saturating_add(gpu_time_us);
                    }
                },
                DeviceVerificationData::CPU() => {},
            }
        }
    }

    /// Reaches the verdict. A verification that waits for the device makes
    /// the last step of every entry from the lanes and compares; any other
    /// stays as it is. Returns whether the verification succeeded.
    pub fn finish_verify(&mut self, entries: &[Entry]) -> (r: bool)
        ensures
            r == (final(self).status_spec() == EntryVerificationStatus::Success),
            final(self).transaction_duration_spec() == old(self).transaction_duration_spec(),
            final(self).device_spec() == old(self).device_spec(),
            final(self).poh_duration_spec() >= old(self).poh_duration_spec(),
            !old(self).pending_on_gpu() ==> *final(self) == *old(self),
            old(self).pending_on_gpu() ==> {
                &&& r == old(self).gpu_data().lanes_match(entries@)
                &&& !r ==> final(self).status_spec() == EntryVerificationStatus::Failure
            },
    {
        let pending = match self.verification_status {
            EntryVerificationStatus::Pending => true,
            _ => false,
        };
        if pending {
            match &self.device_verification_data {
                DeviceVerificationData::GPU(data) => {
                    let check_time = timer_start();
                    let res = data.check(entries);
                    let spent = elapsed_us(&check_time);
                    self.poh_duration_us = self.poh_duration_us.saturating_add(spent);
                    self.verification_status = if res {
                        EntryVerificationStatus::Success
                    } else {
                        EntryVerificationStatus::Failure
                    };
                    return res;
                },
                DeviceVerificationData::CPU() => {},
            }
        }
        match self.verification_status {
            EntryVerificationStatus::Success => true,
            _ => false,
        }
    }

    /// The status of the verification.
    pub closed spec fn status_spec(&self) -> EntryVerificationStatus {
        self.verification_status
    }

    /// Microseconds spent on the hash chain so far.
    pub closed spec fn poh_duration_spec(&self) -> u64 {
        self.poh_duration_us
    }

    /// Microseconds spent on the transactions' signatures.
    pub closed spec fn transaction_duration_spec(&self) -> u64 {
        self.transaction_duration_us
    }

    /// What the backend holds.
    pub closed spec fn device_spec(&self) -> DeviceVerificationData {
        self.device_verification_data
    }

    /// Whether the verification runs on the device.
    pub open spec fn on_gpu(&self) -> bool {
        self.device_spec() is GPU
    }

    /// What the device holds; meaningful where `on_gpu` holds.
    pub open spec fn gpu_data(&self) -> GpuVerificationData {
        self.device_spec()->GPU_0
    }

    /// The status of the verification.
    pub fn status(&self) -> (r: EntryVerificationStatus)
        ensures
            r == self.status_spec(),
    {
        self.verification_status
    }

    /// Microseconds spent on the hash chain so far.
    pub fn poh_duration_us(&self) -> (r: u64)
        ensures
            r == self.poh_duration_spec(),
    {
        self.poh_duration_us
    }

    /// Sets the microseconds spent on the transactions' signatures and
    /// leaves the rest as it is.
    pub fn set_transaction_duration_us(&mut self, new: u64)
        ensures
            final(self).transaction_duration_spec() == new,
            final(self).status_spec() == old(self).status_spec(),
            final(self).poh_duration_spec() == old(self).poh_duration_spec(),
            final(self).device_spec() == old(self).device_spec(),
    {
        self.transaction_duration_us = new;
    }

    /// Microseconds spent on the transactions' signatures.
    pub fn transaction_duration_us(&self) -> (r: u64)
        ensures
            r == self.transaction_duration_spec(),
    {
        self.transaction_duration_us
    }

    /// What the backend holds.
    pub fn device_verification_data(&self) -> (r: &DeviceVerificationData)
        ensures
            *r == self.device_spec(),
    {
        &self.device_verification_data
    }
}

} // verus!
