//! The tick protocol: how many hashes lie between two ticks, and how many
//! ticks a slice holds.
use vstd::prelude::*;
use crate::entry::Entry;

verus! {

/// The hashes accumulated since the last tick, or since the start of the
/// slice together with `carry`, before entry `i` is looked at.
pub open spec fn carry_at(entries: Seq<Entry>, carry: int, i: int) -> int
    decreases i,
{
    if i <= 0 {
        carry
    } else if entries[i - 1].is_tick_spec() {
        0
    } else {
        carry_at(entries, carry, i - 1) + entries[i - 1].num_hashes
    }
}

/// The hashes accumulated since the last tick, or since the start of the
/// slice together with `carry`, once entry `i` is counted.
pub open spec fn run_hashes(entries: Seq<Entry>, carry: int, i: int) -> int {
    carry_at(entries, carry, i) + entries[i].num_hashes
}

/// Whether every tick of the slice closes a run of exactly
/// `hashes_per_tick` hashes.
pub open spec fn ticks_exact(entries: Seq<Entry>, carry: int, hashes_per_tick: int) -> bool {
    forall|i: int|
        0 <= i < entries.len() && (#[trigger] entries[i]).is_tick_spec() ==> run_hashes(entries, carry, i)
            == hashes_per_tick
}

/// Whether the hash counts of a slice are accepted: hashing is disabled, or
/// every tick closes a run of exactly `hashes_per_tick` hashes and fewer
/// than that are left over at the end.
pub open spec fn tick_hash_count_ok(entries: Seq<Entry>, carry: int, hashes_per_tick: int) -> bool {
    hashes_per_tick == 0 || (ticks_exact(entries, carry, hashes_per_tick) && carry_at(
        entries,
        carry,
        entries.len() as int,
    ) < hashes_per_tick)
}

/// The index of the first tick that closes a run of another length than
/// `hashes_per_tick`, looking from entry `i` on; the length of the slice
/// where there is none.
pub open spec fn first_bad_tick(entries: Seq<Entry>, carry: int, hashes_per_tick: int, i: int) -> int
    decreases entries.len() - i,
{
    if i < 0 || i >= entries.len() {
        entries.len() as int
    } else if entries[i].is_tick_spec() && run_hashes(entries, carry, i) != hashes_per_tick {
        i
    } else {
        first_bad_tick(entries, carry, hashes_per_tick, i + 1)
    }
}

/// The count that the walk over a slice stops with: the run that the first
/// bad tick closes, or what is left over at the end.
pub open spec fn carry_out(entries: Seq<Entry>, carry: int, hashes_per_tick: int) -> int {
    let stop = first_bad_tick(entries, carry, hashes_per_tick, 0);
    if stop < entries.len() {
        run_hashes(entries, carry, stop)
    } else {
        carry_at(entries, carry, entries.len() as int)
    }
}

/// The number of ticks among the first `i` entries.
pub open spec fn ticks_before(entries: Seq<Entry>, i: int) -> nat
    decreases i,
{
    if i <= 0 {
        0
    } else {
        ticks_before(entries, i - 1) + if entries[i - 1].is_tick_spec() {
            1nat
        } else {
            0nat
        }
    }
}

/// The number of ticks in a slice.
pub open spec fn tick_count_spec(entries: Seq<Entry>) -> nat {
    ticks_before(entries, entries.len() as int)
}

/// Where no tick before `i` is bad, the first bad tick from the start is the
/// first bad tick from `i` on.
pub proof fn lemma_first_bad_tick_from(entries: Seq<Entry>, carry: int, hashes_per_tick: int, i: int)
    requires
        0 <= i <= entries.len(),
        forall|k: int|
            0 <= k < i && (#[trigger] entries[k]).is_tick_spec() ==> run_hashes(entries, carry, k) == hashes_per_tick,
    ensures
        first_bad_tick(entries, carry, hashes_per_tick, 0) == first_bad_tick(entries, carry, hashes_per_tick, i),
    decreases i,
{
    if i > 0 {
        lemma_first_bad_tick_from(entries, carry, hashes_per_tick, i - 1);
    }
}

/// Once more hashes than `hashes_per_tick` have accumulated before entry
/// `i`, the slice is rejected, and the walk stops with at least as many.
pub proof fn lemma_overrun_rejects(entries: Seq<Entry>, carry: int, hashes_per_tick: int, i: int)
    requires
        0 <= i <= entries.len(),
        hashes_per_tick > 0,
        carry_at(entries, carry, i) > hashes_per_tick,
        forall|k: int|
            0 <= k < i && (#[trigger] entries[k]).is_tick_spec() ==> run_hashes(entries, carry, k) == hashes_per_tick,
    ensures
        !tick_hash_count_ok(entries, carry, hashes_per_tick),
        carry_out(entries, carry, hashes_per_tick) >= carry_at(entries, carry, i),
    decreases entries.len() - i,
{
    lemma_first_bad_tick_from(entries, carry, hashes_per_tick, i);
    if i < entries.len() {
        if entries[i].is_tick_spec() {
            assert(run_hashes(entries, carry, i) != hashes_per_tick);
        } else {
            assert(carry_at(entries, carry, i + 1) == carry_at(entries, carry, i) + entries[i].num_hashes);
            lemma_overrun_rejects(entries, carry, hashes_per_tick, i + 1);
        }
    }
}

} // verus!
