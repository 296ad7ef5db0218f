use poh_entry::entry::{create_ticks, next_entry, Entry};
use poh_entry::hash::zero_hash;
use poh_entry::lanes::{
    advance_lanes, align_up, check_lanes, compare_hashes, compare_with_mixin, prev_hash, push_lane, read_lane,
    simd_hashes, simd_num_hashes,
};
use poh_entry::poh::Poh;
use poh_entry::state::{Backends, DeviceVerificationData, EntryVerificationStatus, PohBackend};
use poh_entry::transaction::Transaction;
use poh_entry::verify::{gpu_prepare, verify_chain, EntrySlice};

type SdkHash = solana_sdk::hash::Hash;

const ONE: [u8; 32] = [
    102, 104, 122, 173, 248, 98, 189, 119, 108, 143, 193, 139, 142, 159, 142, 32, 8, 151, 20, 133, 110, 226, 51, 179,
    144, 42, 89, 29, 13, 95, 41, 37,
];
const TWO: [u8; 32] = [
    43, 50, 219, 108, 44, 10, 98, 53, 251, 19, 151, 232, 34, 94, 168, 94, 15, 14, 110, 140, 123, 18, 109, 0, 22, 204,
    189, 224, 230, 103, 21, 30,
];

fn unsigned(signatures: Vec<[u8; 64]>) -> Transaction {
    let mut tx = Transaction::default();
    tx.signatures = signatures;
    tx
}

fn mixed_chain() -> Vec<Entry> {
    let zero = zero_hash();
    let mut entries = vec![next_entry(&zero, 3, vec![])];
    entries.push(next_entry(&entries[0].hash, 1, vec![unsigned(vec![[7u8; 64]])]));
    entries.push(next_entry(&entries[1].hash, 0, vec![]));
    entries.push(next_entry(&entries[2].hash, 5, vec![unsigned(vec![[9u8; 64], [11u8; 64]])]));
    entries.push(next_entry(&entries[3].hash, 2, vec![]));
    entries
}

fn all_statuses(entries: &[Entry], start: &SdkHash) -> Vec<EntryVerificationStatus> {
    let mut gpu = gpu_prepare(entries, start);
    let device = device_walk(&gpu.hashes, &gpu.num_hashes);
    let by_portable_walk = gpu.check(entries);
    gpu.hashes = device;
    gpu.advanced = true;
    let by_device_walk = gpu.check(entries);
    vec![
        entries.verify_cpu_generic(start).status(),
        entries.verify_cpu_x86_simd(start, 8).status(),
        entries.verify_cpu_x86_simd(start, 16).status(),
        if by_portable_walk { EntryVerificationStatus::Success } else { EntryVerificationStatus::Failure },
        if by_device_walk { EntryVerificationStatus::Success } else { EntryVerificationStatus::Failure },
    ]
}

fn device_walk(hashes: &[SdkHash], num_hashes: &[u64]) -> Vec<SdkHash> {
    hashes
        .iter()
        .zip(num_hashes)
        .map(|(hash, count)| {
            let mut poh = Poh::new(*hash);
            poh.hash(*count);
            poh.hash
        })
        .collect()
}

#[test]
fn select_prefers_the_device() {
    let all = Backends { gpu: true, simd: true, avx2: true, avx512f: true };
    assert_eq!(all.select(0), PohBackend::Gpu);
    assert_eq!(all.select(1000), PohBackend::Gpu);
    let only_gpu = Backends { gpu: true, simd: false, avx2: false, avx512f: false };
    assert_eq!(only_gpu.select(1), PohBackend::Gpu);
}

#[test]
fn select_takes_sixteen_lanes_from_128_entries() {
    let backends = Backends { gpu: false, simd: true, avx2: true, avx512f: true };
    assert_eq!(backends.select(128), PohBackend::Simd16);
    assert_eq!(backends.select(127), PohBackend::Simd8);
    assert_eq!(backends.select(48), PohBackend::Simd8);
    assert_eq!(backends.select(47), PohBackend::Scalar);
    let no_avx2 = Backends { gpu: false, simd: true, avx2: false, avx512f: true };
    assert_eq!(no_avx2.select(127), PohBackend::Scalar);
    assert_eq!(no_avx2.select(128), PohBackend::Simd16);
}

#[test]
fn select_takes_eight_lanes_from_48_entries() {
    let backends = Backends { gpu: false, simd: true, avx2: true, avx512f: false };
    assert_eq!(backends.select(1000), PohBackend::Simd8);
    assert_eq!(backends.select(48), PohBackend::Simd8);
    assert_eq!(backends.select(47), PohBackend::Scalar);
}

#[test]
fn select_falls_through_to_scalar() {
    assert_eq!(Backends::none().select(1000), PohBackend::Scalar);
    let no_library = Backends { gpu: false, simd: false, avx2: true, avx512f: true };
    assert_eq!(no_library.select(1000), PohBackend::Scalar);
    let no_features = Backends { gpu: false, simd: true, avx2: false, avx512f: false };
    assert_eq!(no_features.select(1000), PohBackend::Scalar);
    assert_eq!(Backends::none(), Backends { gpu: false, simd: false, avx2: false, avx512f: false });
}

#[test]
fn align_up_rounds_to_the_width() {
    assert_eq!(align_up(0, 8), 0);
    assert_eq!(align_up(1, 8), 8);
    assert_eq!(align_up(8, 8), 8);
    assert_eq!(align_up(9, 8), 16);
    assert_eq!(align_up(9, 16), 16);
    assert_eq!(align_up(17, 16), 32);
}

#[test]
fn prev_hash_is_the_start_or_the_hash_before() {
    let entries = mixed_chain();
    let start = zero_hash();
    assert_eq!(prev_hash(&entries, &start, 0), start);
    assert_eq!(prev_hash(&entries, &start, 1), entries[0].hash);
    assert_eq!(prev_hash(&entries, &start, 5), entries[4].hash);
}

#[test]
fn simd_hashes_holds_the_previous_hashes_and_zero_padding() {
    let entries = mixed_chain();
    let start = SdkHash::new_from_array(ONE);
    let bytes = simd_hashes(&entries, &start, 8);
    assert_eq!(bytes.len(), 32 * 8);
    assert_eq!(&bytes[0..32], &ONE[..]);
    for i in 1..5 {
        assert_eq!(&bytes[32 * i..32 * i + 32], entries[i - 1].hash.as_ref());
    }
    assert!(bytes[32 * 5..].iter().all(|b| *b == 0));
    assert_eq!(simd_hashes(&entries, &start, 16).len(), 32 * 16);
    assert!(simd_hashes(&[], &start, 8).is_empty());
}

#[test]
fn simd_num_hashes_holds_all_but_the_last_step() {
    let entries = mixed_chain();
    assert_eq!(simd_num_hashes(&entries, 8), vec![2, 0, 0, 4, 1, 0, 0, 0]);
    assert_eq!(simd_num_hashes(&entries, 16).len(), 16);
    assert!(simd_num_hashes(&[], 16).is_empty());
}

#[test]
fn lanes_are_read_as_they_were_pushed() {
    let mut bytes = Vec::new();
    push_lane(&mut bytes, &SdkHash::new_from_array(ONE));
    push_lane(&mut bytes, &SdkHash::new_from_array(TWO));
    assert_eq!(bytes.len(), 64);
    assert_eq!(read_lane(&bytes, 0).to_bytes(), ONE);
    assert_eq!(read_lane(&bytes, 1).to_bytes(), TWO);
}

#[test]
fn advance_lanes_walks_each_lane_by_its_count() {
    let mut bytes = vec![0u8; 96];
    advance_lanes(&mut bytes, &vec![1, 0, 2]);
    assert_eq!(bytes.len(), 96);
    assert_eq!(&bytes[0..32], &ONE[..]);
    assert_eq!(&bytes[32..64], &[0u8; 32][..]);
    assert_eq!(&bytes[64..96], &TWO[..]);
}

#[test]
fn check_lanes_makes_the_last_step() {
    let entries = mixed_chain();
    let start = zero_hash();
    let mut bytes = simd_hashes(&entries, &start, 8);
    let counts = simd_num_hashes(&entries, 8);
    // Only the entries with at most one hash pass before the batch step.
    assert!(!check_lanes(&entries, &bytes));
    assert!(check_lanes(&entries[1..3], &bytes[32..].to_vec()));
    advance_lanes(&mut bytes, &counts);
    assert!(check_lanes(&entries, &bytes));
    bytes[32 * 4] ^= 1;
    assert!(!check_lanes(&entries, &bytes));
    assert!(check_lanes(&entries[..4], &bytes));
}

#[test]
fn compare_hashes_makes_one_step_unless_there_are_no_hashes() {
    let zero = zero_hash();
    assert!(compare_hashes(zero, &Entry::new_tick(0, &zero)));
    assert!(!compare_hashes(zero, &Entry::new_tick(0, &SdkHash::new_from_array(ONE))));
    assert!(compare_hashes(zero, &Entry::new_tick(1, &SdkHash::new_from_array(ONE))));
    assert!(compare_hashes(zero, &Entry::new_tick(9, &SdkHash::new_from_array(ONE))));
    assert!(!compare_hashes(zero, &Entry::new_tick(1, &SdkHash::new_from_array(TWO))));
    let entry = next_entry(&zero, 1, vec![unsigned(vec![[7u8; 64]])]);
    assert!(compare_hashes(zero, &entry));
    assert!(!compare_hashes(SdkHash::new_from_array(ONE), &entry));
}

#[test]
fn compare_with_mixin_folds_the_given_digest_in() {
    let zero = zero_hash();
    let tick = Entry::new_tick(1, &SdkHash::new_from_array(ONE));
    assert!(compare_with_mixin(&zero, &None, &tick));
    assert!(!compare_with_mixin(&zero, &Some(zero), &tick));
    let mut poh = Poh::new(zero);
    let mixed = Entry::new_tick(4, &poh.record(&SdkHash::new_from_array(TWO)));
    assert!(compare_with_mixin(&zero, &Some(SdkHash::new_from_array(TWO)), &mixed));
    assert!(!compare_with_mixin(&zero, &None, &mixed));
    assert!(compare_with_mixin(&zero, &Some(zero), &Entry::new_tick(0, &zero)));
}

#[test]
fn backends_agree_on_a_valid_chain() {
    let entries = mixed_chain();
    let statuses = all_statuses(&entries, &zero_hash());
    assert_eq!(statuses, vec![EntryVerificationStatus::Success; 5]);
    assert!(verify_chain(&entries, &zero_hash()));
}

#[test]
fn backends_agree_on_a_wrong_start() {
    let entries = mixed_chain();
    let statuses = all_statuses(&entries, &SdkHash::new_from_array(ONE));
    assert_eq!(statuses, vec![EntryVerificationStatus::Failure; 5]);
}

#[test]
fn backends_agree_on_every_corrupted_hash() {
    for i in 0..5 {
        let mut entries = mixed_chain();
        entries[i].hash = SdkHash::new_from_array(TWO);
        let statuses = all_statuses(&entries, &zero_hash());
        assert_eq!(statuses, vec![EntryVerificationStatus::Failure; 5]);
    }
}

#[test]
fn backends_agree_on_a_corrupted_count_or_transaction() {
    let mut entries = mixed_chain();
    entries[3].num_hashes = 6;
    assert_eq!(all_statuses(&entries, &zero_hash()), vec![EntryVerificationStatus::Failure; 5]);
    let mut entries = mixed_chain();
    entries[3].transactions[0].signatures[1] = [12u8; 64];
    assert_eq!(all_statuses(&entries, &zero_hash()), vec![EntryVerificationStatus::Failure; 5]);
    let mut entries = mixed_chain();
    entries[1].transactions.clear();
    assert_eq!(all_statuses(&entries, &zero_hash()), vec![EntryVerificationStatus::Failure; 5]);
}

#[test]
fn backends_agree_on_long_tick_chains() {
    let start = SdkHash::new_from_array(ONE);
    let mut entries = create_ticks(130, 3, start);
    assert_eq!(all_statuses(&entries, &start), vec![EntryVerificationStatus::Success; 5]);
    entries[129].hash = start;
    assert_eq!(all_statuses(&entries, &start), vec![EntryVerificationStatus::Failure; 5]);
}

#[test]
fn lanes_take_transactions_without_hashes_for_a_tick() {
    // Such an entry is not well formed; the scalar walk mixes its
    // transactions in, the walk in lanes compares the lane as it is.
    let zero = zero_hash();
    let entries = vec![Entry { num_hashes: 0, hash: zero, transactions: vec![unsigned(vec![[7u8; 64]])] }];
    assert_eq!(entries.verify_cpu_generic(&zero).status(), EntryVerificationStatus::Failure);
    assert_eq!(entries.verify_cpu_x86_simd(&zero, 8).status(), EntryVerificationStatus::Success);
}

#[test]
fn verify_cpu_gives_the_same_status_on_every_backend() {
    let start = zero_hash();
    let entries = create_ticks(130, 2, start);
    let mut bad = entries.clone();
    bad[77].hash = start;
    for avx512f in [false, true] {
        for avx2 in [false, true] {
            for simd in [false, true] {
                let backends = Backends { gpu: false, simd, avx2, avx512f };
                let state = entries.verify_cpu(&start, &backends);
                assert_eq!(state.status(), EntryVerificationStatus::Success);
                assert_eq!(state.transaction_duration_us(), 0);
                assert!(matches!(state.device_verification_data(), DeviceVerificationData::CPU()));
                assert_eq!(bad.verify_cpu(&start, &backends).status(), EntryVerificationStatus::Failure);
            }
        }
    }
}

#[test]
fn cpu_states_are_terminal() {
    let start = zero_hash();
    let entries = create_ticks(4, 2, start);
    let mut state = entries.verify_cpu_generic(&start);
    assert_eq!(state.status(), EntryVerificationStatus::Success);
    let poh_duration_us = state.poh_duration_us();
    assert!(state.finish_verify(&entries));
    assert!(state.finish_verify(&[]));
    assert_eq!(state.status(), EntryVerificationStatus::Success);
    assert_eq!(state.poh_duration_us(), poh_duration_us);

    let mut failed = entries.verify_cpu_generic(&SdkHash::new_from_array(ONE));
    assert_eq!(failed.status(), EntryVerificationStatus::Failure);
    assert!(!failed.finish_verify(&entries));
    assert_eq!(failed.status(), EntryVerificationStatus::Failure);
}

#[test]
fn set_transaction_duration_changes_only_that() {
    let start = zero_hash();
    let entries = create_ticks(2, 1, start);
    let mut state = entries.verify_cpu_generic(&start);
    let poh_duration_us = state.poh_duration_us();
    state.set_transaction_duration_us(42);
    assert_eq!(state.transaction_duration_us(), 42);
    assert_eq!(state.poh_duration_us(), poh_duration_us);
    assert_eq!(state.status(), EntryVerificationStatus::Success);
}

#[test]
fn gpu_prepare_lays_out_one_lane_for_each_entry() {
    let entries = mixed_chain();
    let start = zero_hash();
    let data = gpu_prepare(&entries, &start);
    assert!(!data.advanced);
    assert_eq!(data.num_hashes, vec![2, 0, 0, 4, 1]);
    assert_eq!(data.hashes.len(), 5);
    assert_eq!(data.hashes[0], start);
    for i in 1..5 {
        assert_eq!(data.hashes[i], entries[i - 1].hash);
    }
    assert_eq!(data.tx_hashes.len(), 5);
    assert_eq!(data.tx_hashes[0], None);
    assert_eq!(data.tx_hashes[2], None);
    assert_eq!(data.tx_hashes[4], None);
    assert_eq!(
        data.tx_hashes[1],
        Some(poh_entry::entry::hash_transactions(&entries[1].transactions))
    );
    assert!(data.tx_hashes[3].is_some());
    let empty = gpu_prepare(&[], &start);
    assert!(empty.hashes.is_empty() && empty.num_hashes.is_empty() && empty.tx_hashes.is_empty());
}

#[test]
fn start_verify_with_the_device_is_pending_until_finished() {
    let entries = mixed_chain();
    let start = zero_hash();
    let backends = Backends { gpu: true, simd: false, avx2: false, avx512f: false };
    let mut state = entries.start_verify(&start, &backends, true);
    assert_eq!(state.status(), EntryVerificationStatus::Pending);
    assert!(matches!(state.device_verification_data(), DeviceVerificationData::GPU(_)));
    assert!(state.finish_verify(&entries));
    assert_eq!(state.status(), EntryVerificationStatus::Success);
    // A second call finds the verdict and leaves it.
    assert!(state.finish_verify(&[]));
    assert_eq!(state.status(), EntryVerificationStatus::Success);
}

#[test]
fn finish_verify_uses_what_the_device_handed_over() {
    let entries = mixed_chain();
    let start = zero_hash();
    let backends = Backends { gpu: true, simd: true, avx2: true, avx512f: true };

    let mut state = entries.start_verify(&start, &backends, true);
    let walked = match state.device_verification_data() {
        DeviceVerificationData::GPU(data) => device_walk(&data.hashes, &data.num_hashes),
        DeviceVerificationData::CPU() => panic!("the device was selected"),
    };
    let before = state.poh_duration_us();
    state.gpu_complete(walked.clone(), 1000);
    assert_eq!(state.status(), EntryVerificationStatus::Pending);
    assert_eq!(state.poh_duration_us(), before + 1000);
    assert!(state.finish_verify(&entries));
    assert_eq!(state.status(), EntryVerificationStatus::Success);
    assert!(state.poh_duration_us() >= before + 1000);

    let mut state = entries.start_verify(&start, &backends, true);
    let mut wrong = walked;
    wrong[3] = start;
    state.gpu_complete(wrong, 0);
    // Lanes handed over a second time are not taken.
    state.gpu_complete(vec![], u64::MAX);
    assert!(!state.finish_verify(&entries));
    assert_eq!(state.status(), EntryVerificationStatus::Failure);
    assert!(!state.finish_verify(&entries));
}

#[test]
fn gpu_complete_leaves_other_states_alone() {
    let start = zero_hash();
    let entries = create_ticks(3, 1, start);
    let mut state = entries.start_verify(&start, &Backends::none(), true);
    let duration = state.poh_duration_us();
    state.gpu_complete(vec![start], 77);
    assert_eq!(state.poh_duration_us(), duration);
    assert_eq!(state.status(), EntryVerificationStatus::Success);
    assert!(matches!(state.device_verification_data(), DeviceVerificationData::CPU()));
}

#[test]
fn gpu_durations_saturate() {
    let start = zero_hash();
    let entries = create_ticks(3, 1, start);
    let backends = Backends { gpu: true, simd: false, avx2: false, avx512f: false };
    let mut state = entries.start_verify(&start, &backends, false);
    state.gpu_complete(device_walk(&[start, entries[0].hash, entries[1].hash], &[0, 0, 0]), u64::MAX);
    assert_eq!(state.poh_duration_us(), u64::MAX);
    assert!(state.finish_verify(&entries));
    assert_eq!(state.poh_duration_us(), u64::MAX);
}

#[test]
fn gpu_check_compares_as_many_entries_as_all_buffers_hold() {
    let entries = mixed_chain();
    let start = zero_hash();
    let mut bad = entries.clone();
    bad[4].hash = start;
    let data = gpu_prepare(&bad, &start);
    assert!(!data.check(&bad));
    assert!(data.check(&bad[..4]));
    let mut short = gpu_prepare(&bad, &start);
    short.tx_hashes.truncate(4);
    assert!(short.check(&bad));
    let mut short = gpu_prepare(&bad, &start);
    short.num_hashes.truncate(4);
    assert!(short.check(&bad));
    short.advanced = true;
    assert!(!short.check(&bad));
}

#[test]
fn tick_count_counts_entries_without_transactions() {
    assert_eq!(mixed_chain().tick_count(), 3);
    assert_eq!(Vec::<Entry>::new().tick_count(), 0);
    assert_eq!(create_ticks(7, 0, zero_hash()).tick_count(), 7);
    let only_transactions = vec![next_entry(&zero_hash(), 1, vec![unsigned(vec![])])];
    assert_eq!(only_transactions.tick_count(), 0);
}

#[test]
fn tick_hash_count_accepts_exact_runs() {
    let zero = zero_hash();
    let tx_entry = |n: u64| Entry { num_hashes: n, hash: zero, transactions: vec![unsigned(vec![])] };
    let slice = vec![tx_entry(1), Entry::new_tick(9, &zero)];
    let mut carry = 0;
    assert!(slice.verify_tick_hash_count(&mut carry, 10));
    assert_eq!(carry, 0);

    let slice = vec![Entry::new_tick(10, &zero)];
    let mut carry = 0;
    assert!(!slice.verify_tick_hash_count(&mut carry, 9));
    assert_eq!(carry, 10);
}

#[test]
fn tick_hash_count_carries_over_slices() {
    let zero = zero_hash();
    let tx_entry = |n: u64| Entry { num_hashes: n, hash: zero, transactions: vec![unsigned(vec![])] };
    let mut carry = 0;
    assert!(vec![tx_entry(3), tx_entry(4)].verify_tick_hash_count(&mut carry, 10));
    assert_eq!(carry, 7);
    assert!(vec![Entry::new_tick(3, &zero), tx_entry(2)].verify_tick_hash_count(&mut carry, 10));
    assert_eq!(carry, 2);
    // A full run that no tick closes is rejected.
    assert!(!vec![tx_entry(8)].verify_tick_hash_count(&mut carry, 10));
    assert_eq!(carry, 10);
}

#[test]
fn tick_hash_count_stops_at_the_first_bad_tick() {
    let zero = zero_hash();
    let slice = vec![Entry::new_tick(5, &zero), Entry::new_tick(4, &zero), Entry::new_tick(5, &zero)];
    let mut carry = 0;
    assert!(!slice.verify_tick_hash_count(&mut carry, 5));
    assert_eq!(carry, 4);
    let mut carry = 1;
    assert!(!slice.verify_tick_hash_count(&mut carry, 5));
    assert_eq!(carry, 6);
}

#[test]
fn tick_hash_count_disabled_leaves_the_carry() {
    let zero = zero_hash();
    let slice = vec![Entry::new_tick(5, &zero), Entry::new_tick(4, &zero)];
    let mut carry = 7;
    assert!(slice.verify_tick_hash_count(&mut carry, 0));
    assert_eq!(carry, 7);
    let mut carry = u64::MAX;
    assert!(slice.verify_tick_hash_count(&mut carry, 0));
    assert_eq!(carry, u64::MAX);
}

#[test]
fn tick_hash_count_rejects_more_hashes_than_can_be_counted() {
    let zero = zero_hash();
    let tx_entry = |n: u64| Entry { num_hashes: n, hash: zero, transactions: vec![unsigned(vec![])] };
    let mut carry = u64::MAX - 1;
    assert!(!vec![tx_entry(2), Entry::new_tick(1, &zero)].verify_tick_hash_count(&mut carry, u64::MAX));
    assert_eq!(carry, u64::MAX);
    let mut carry = u64::MAX - 1;
    assert!(!vec![Entry::new_tick(5, &zero)].verify_tick_hash_count(&mut carry, u64::MAX));
    assert_eq!(carry, u64::MAX);
    let mut carry = u64::MAX - 1;
    assert!(vec![Entry::new_tick(1, &zero)].verify_tick_hash_count(&mut carry, u64::MAX));
    assert_eq!(carry, 0);
    let mut carry = u64::MAX - 1;
    assert!(!vec![tx_entry(1)].verify_tick_hash_count(&mut carry, u64::MAX));
    assert_eq!(carry, u64::MAX);
}

#[test]
fn base_tick_verifies_only_against_its_own_hash() {
    let zero = zero_hash();
    let slice = vec![Entry { num_hashes: 0, hash: zero, transactions: vec![] }];
    assert!(slice.verify(&zero));
    assert!(!slice.verify(&SdkHash::new_from_array(ONE)));
}

#[test]
fn inductive_tick_chain_from_zero() {
    let zero = zero_hash();
    let e1 = next_entry(&zero, 1, vec![]);
    let mut e2 = next_entry(&e1.hash, 1, vec![]);
    assert_eq!(e1.hash.to_bytes(), ONE);
    assert_eq!(e2.hash.to_bytes(), TWO);
    assert!(vec![e1.clone(), e2.clone()].verify(&zero));
    e2.hash = SdkHash::new_from_array(ONE);
    assert!(!vec![e1, e2].verify(&zero));
}

#[test]
fn swapped_transactions_with_equal_signatures_still_verify() {
    // The hash binds the signatures in order, nothing else of a transaction.
    let zero = zero_hash();
    let mut a = unsigned(vec![[7u8; 64]]);
    a.message.recent_blockhash = ONE;
    let mut b = unsigned(vec![[7u8; 64]]);
    b.message.recent_blockhash = TWO;
    let mut entry = Entry::new(&zero, 0, vec![a, b]);
    assert!(entry.verify(&zero));
    entry.transactions.swap(0, 1);
    assert!(entry.verify(&zero));
}
