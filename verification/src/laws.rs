//! Laws of the aggregator's model, stated and proved over the transitions
//! that the monitor's contracts are written in.

use vstd::prelude::*;
use crate::monitor::{sync_rule, MonitorView};

verus! {

/// An upsert reports a reconnect exactly when the session already exists
/// and its immediately-prior status is not Connected: the first upsert of
/// an id on a fresh registry reports none, an upsert of an
/// already-Connected session reports none, and an upsert right after
/// another upsert of the same id reports none.
pub proof fn lemma_upsert_reconnect_report(v: MonitorView, id: Seq<char>, threads: int, t: int, session: Seq<char>)
    ensures
        !MonitorView::spec_new(t).is_reconnect(id),
        !v.miners.contains_key(id) ==> !v.is_reconnect(id),
        v.miners.contains_key(id) && !(v.miners[id].status is Connected) ==> v.is_reconnect(id),
        v.miners.contains_key(id) && v.miners[id].status is Connected ==> !v.is_reconnect(id),
        !v.with_upsert(id, threads, t, session).is_reconnect(id),
{
}

/// An upsert of an existing session raises its reconnect count by exactly 1
/// when the immediately-prior status was Disconnected or Reconnecting, and
/// by 0 when it was already Connected; the session's token and
/// first-connected time never change.
pub proof fn lemma_upsert_existing(v: MonitorView, id: Seq<char>, threads: int, t: int, session: Seq<char>)
    requires
        v.wf(),
        v.miners.contains_key(id),
        v.miners[id].reconnect_count < u32::MAX,
    ensures
        ({
            let before = v.miners[id];
            let after = v.with_upsert(id, threads, t, session).miners[id];
            &&& after.reconnect_count == before.reconnect_count
                + (if before.status is Connected { 0int } else { 1int })
            &&& after.session_id == before.session_id
            &&& after.first_connected_ms == before.first_connected_ms
            &&& after.status is Connected
        }),
{
}

/// Every live session has accepted at most as many shares as it has
/// submitted.
pub proof fn lemma_shares_bounded(v: MonitorView, id: Seq<char>)
    requires
        v.wf(),
        v.miners.contains_key(id),
    ensures
        v.miners[id].shares_accepted <= v.miners[id].shares_submitted,
{
}

/// Recording a share preserves validity, and with it the bound of
/// [`lemma_shares_bounded`], for every id, known or not, accepted or not.
pub proof fn lemma_record_share_preserves_wf(v: MonitorView, id: Seq<char>, accepted: bool, t: int)
    requires
        v.wf(),
        i64::MIN <= t <= i64::MAX,
    ensures
        v.with_share(id, accepted, t).wf(),
{
    let after = v.with_share(id, accepted, t);
    assert forall|k: Seq<char>| after.miners.contains_key(k)
        implies (#[trigger] after.miners[k]).wf(k) by {
        if v.miners.contains_key(id) && k == id {
            assert(v.miners[id].wf(id));
        } else {
            assert(v.miners.contains_key(k));
            assert(v.miners[k].wf(k));
        }
    };
}

/// The state after `n` blocks-found increments in sequence.
pub open spec fn iter_blocks_found(v: MonitorView, n: nat) -> MonitorView
    decreases n,
{
    if n == 0 {
        v
    } else {
        iter_blocks_found(v, (n - 1) as nat).with_blocks_found_inc()
    }
}

/// `n` blocks-found increments, run one after another with no other
/// writer, raise the counter by exactly `n` and touch nothing else.
pub proof fn lemma_blocks_found_counts(v: MonitorView, n: nat)
    requires
        0 <= v.blocks_found,
        v.blocks_found + n <= u64::MAX,
    ensures
        iter_blocks_found(v, n) == (MonitorView { blocks_found: v.blocks_found + n, ..v }),
    decreases n,
{
    if n == 0 {
        assert(iter_blocks_found(v, 0) == v);
        assert(v == (MonitorView { blocks_found: v.blocks_found + 0, ..v }));
    } else {
        lemma_blocks_found_counts(v, (n - 1) as nat);
    }
}

/// Counters only grow for the life of the process: each counting
/// transition leaves the counter equal (only at its saturation bound) or
/// one higher, and a share record never lowers either share counter.
pub proof fn lemma_counters_monotonic(v: MonitorView, id: Seq<char>, accepted: bool, t: int, work: Seq<char>)
    requires
        v.wf(),
        0 <= v.blocks_found <= u64::MAX,
        0 <= v.blocks_accepted <= u64::MAX,
        0 <= v.work_updates <= u64::MAX,
    ensures
        v.with_blocks_found_inc().blocks_found >= v.blocks_found,
        v.with_blocks_accepted_inc().blocks_accepted >= v.blocks_accepted,
        v.with_work_id(work, t).work_updates >= v.work_updates,
        v.miners.contains_key(id) ==> v.with_share(id, accepted, t).miners[id].shares_submitted
            >= v.miners[id].shares_submitted,
        v.miners.contains_key(id) ==> v.with_share(id, accepted, t).miners[id].shares_accepted
            >= v.miners[id].shares_accepted,
{
}

/// The debounce: a rederived sync pair whose status is unchanged and whose
/// percentage moved by no more than 0.01 percent does not replace the
/// stored pair.
pub proof fn lemma_debounce_holds(v: MonitorView)
    requires
        ({
            let (code, centi) = sync_rule(v.height, v.net_height);
            &&& code == v.sync_code
            &&& -1 <= centi - v.sync_centi <= 1
        }),
    ensures
        v.recomputed() == v,
{
}

} // verus!
