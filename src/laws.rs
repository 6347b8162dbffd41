//! Properties of runs of grants, stated over the ring transitions that
//! `SRProd::start_write` and `SRCons::start_read` guarantee.
use vstd::prelude::*;

use crate::ring::{Buffer, SlotRing};

verus! {

/// `states[i + 1]` follows `states[i]` by a write grant that left `values[i]`
/// in its slot, for each `i`.
pub open spec fn write_run(states: Seq<SlotRing>, values: Seq<Buffer>) -> bool {
    &&& states.len() == values.len() + 1
    &&& forall|i: int| 0 <= i < values.len() ==> #[trigger] states[i].write_step(states[i + 1], values[i])
}

/// `states[i + 1]` follows `states[i]` by a read grant that saw `values[i]`,
/// for each `i`.
pub open spec fn read_run(states: Seq<SlotRing>, values: Seq<Buffer>) -> bool {
    &&& states.len() == values.len() + 1
    &&& forall|i: int| 0 <= i < values.len() ==> #[trigger] states[i].read_step(states[i + 1], values[i])
}

/// A ring whose cursors are both at the start.
pub open spec fn fresh(ring: SlotRing) -> bool {
    ring.written() == 0 && ring.read_count() == 0
}

/// Along a run of writes, the write cursor advances by one per grant, the
/// read cursor and the store's size stay, and the slots claimed so far hold
/// the values written, in order.
proof fn lemma_write_run_prefix(states: Seq<SlotRing>, values: Seq<Buffer>, n: int)
    requires
        write_run(states, values),
        0 <= n <= values.len(),
    ensures
        states[n].written() == states[0].written() + n,
        states[n].read_count() == states[0].read_count(),
        states[n].capacity() == states[0].capacity(),
        forall|k: int| 0 <= k < n ==> states[n].contents()[states[0].written() + k] == values[k],
        forall|k: int|
            0 <= k < states[0].capacity() && !(states[0].written() <= k < states[0].written() + n)
                ==> states[n].contents()[k] == states[0].contents()[k],
    decreases n,
{
    if n > 0 {
        lemma_write_run_prefix(states, values, n - 1);
        let i = n - 1;
        assert(states[i].write_step(states[i + 1], values[i]));
    }
}

/// Along a run of reads, the read cursor advances by one per grant, the store
/// and the write cursor stay, and the values seen are the slots in order.
proof fn lemma_read_run_prefix(states: Seq<SlotRing>, values: Seq<Buffer>, n: int)
    requires
        read_run(states, values),
        0 <= n <= values.len(),
    ensures
        states[n].read_count() == states[0].read_count() + n,
        states[n].written() == states[0].written(),
        states[n].contents() == states[0].contents(),
        forall|k: int| 0 <= k < n ==> values[k] == states[0].contents()[states[0].read_count() + k],
        n > 0 ==> states[0].read_count() + n <= states[0].written(),
    decreases n,
{
    if n > 0 {
        lemma_read_run_prefix(states, values, n - 1);
        let i = n - 1;
        assert(states[i].read_step(states[i + 1], values[i]));
    }
}

/// Reads give back what was written: on a fresh ring, after a run of writes
/// and then a run of reads, the `i`-th read sees what the `i`-th write left.
pub proof fn lemma_read_order_matches_write_order(
    writes: Seq<SlotRing>,
    written: Seq<Buffer>,
    reads: Seq<SlotRing>,
    seen: Seq<Buffer>,
)
    requires
        fresh(writes[0]),
        write_run(writes, written),
        read_run(reads, seen),
        reads[0] == writes.last(),
    ensures
        seen.len() <= written.len(),
        forall|i: int| 0 <= i < seen.len() ==> seen[i] == written[i],
{
    lemma_write_run_prefix(writes, written, written.len() as int);
    lemma_read_run_prefix(reads, seen, seen.len() as int);
    assert forall|i: int| 0 <= i < seen.len() implies seen[i] == written[i] by {
        lemma_read_run_prefix(reads, seen, i + 1);
    }
}

/// Without recycling, a ring of capacity `n` takes exactly `n` writes: after
/// `n` writes from a fresh ring the write cursor is at the end of the store, so
/// `start_write` fails with `StoreUnavailable`. Before any write there is no
/// read step at all: `start_read` fails with `StoreUnavailable`.
pub proof fn lemma_exhaustion(states: Seq<SlotRing>, values: Seq<Buffer>)
    requires
        fresh(states[0]),
        write_run(states, values),
        values.len() == states[0].capacity(),
    ensures
        states.last().written() >= states.last().capacity(),
        forall|next: SlotRing, value: Buffer| !#[trigger] states[0].read_step(next, value),
{
    lemma_write_run_prefix(states, values, values.len() as int);
}

/// Successive write grants cover distinct slots: the grant issued from
/// `states[i]` covers the slot at `states[i].written()`, and no two steps of
/// a run of writes share that position.
pub proof fn lemma_write_slots_distinct(states: Seq<SlotRing>, values: Seq<Buffer>)
    requires
        write_run(states, values),
    ensures
        forall|i: int, j: int|
            0 <= i < j < values.len() ==> states[i].written() != states[j].written(),
        forall|i: int| 0 <= i < values.len() ==> states[i].written() < states[i].capacity(),
{
    assert forall|i: int, j: int| 0 <= i < j < values.len() implies states[i].written()
        != states[j].written() by {
        lemma_write_run_prefix(states, values, i);
        lemma_write_run_prefix(states, values, j);
    }
    assert forall|i: int| 0 <= i < values.len() implies states[i].written()
        < states[i].capacity() by {
        assert(states[i].write_step(states[i + 1], values[i]));
    }
}

} // verus!
