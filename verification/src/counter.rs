//! The shared progress counter: workers bump one atomic 64-bit counter in
//! whole batches, and the guarantees of that discipline are stated over a
//! ledger of the flushes that reached it.

use vstd::prelude::*;
use core::sync::atomic::{AtomicU64, Ordering};

verus! {

/// The counter value after a ledger of flushes has been applied in order:
/// the sum of all flushed batches. Atomic fetch-add loses no update, so the
/// order the workers' flushes interleave in never changes the sum.
pub open spec fn ledger_total(incs: Seq<u64>) -> int
    decreases incs.len(),
{
    if incs.len() == 0 {
        0
    } else {
        ledger_total(incs.drop_last()) + incs.last()
    }
}

/// Law: the counter never decreases — extending the ledger by any further
/// flushes never lowers the total.
pub proof fn lemma_counter_monotone(done: Seq<u64>, more: Seq<u64>)
    ensures
        ledger_total(done) <= ledger_total(done + more),
    decreases more.len(),
{
    if more.len() == 0 {
        assert(done + more =~= done);
    } else {
        lemma_counter_monotone(done, more.drop_last());
        assert((done + more).drop_last() =~= done + more.drop_last());
    }
}

/// A ledger in which every flush is the same batch `b` totals exactly
/// `len * b`.
pub proof fn lemma_uniform_ledger(incs: Seq<u64>, b: u64)
    requires
        forall|i: int| 0 <= i < incs.len() ==> incs[i] == b,
    ensures
        ledger_total(incs) == incs.len() * b,
    decreases incs.len(),
{
    if incs.len() > 0 {
        lemma_uniform_ledger(incs.drop_last(), b);
        assert((incs.len() - 1) * b + b == incs.len() * b) by (nonlinear_arith);
    }
}

/// Law: no increment is lost — when `w` workers each flush the batch `b`
/// exactly `k` times, the ledger holds `w * k` flushes of `b` in whatever
/// order they interleaved, and the counter ends at exactly `w * k * b`.
pub proof fn lemma_counter_exact(incs: Seq<u64>, w: nat, k: nat, b: u64)
    requires
        incs.len() == w * k,
        forall|i: int| 0 <= i < incs.len() ==> incs[i] == b,
    ensures
        ledger_total(incs) == w * k * b,
{
    lemma_uniform_ledger(incs, b);
    assert((w * k) * b == w * k * b) by (nonlinear_arith);
}

/// One flush: atomically adds a whole batch to the shared counter. The
/// hardware addition would wrap only past 2^64 evaluated candidates, beyond
/// any feasible run.
pub fn flush_batch(counter: &AtomicU64, batch: u64) {
    counter.fetch_add(batch, Ordering::SeqCst);
}

/// The shared count as last flushed; other workers may flush concurrently,
/// so the value read is a lower bound of the candidates evaluated so far.
pub fn read_total(counter: &AtomicU64) -> u64 {
    counter.load(Ordering::SeqCst)
}

} // verus!
