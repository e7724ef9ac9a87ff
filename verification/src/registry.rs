//! The concurrent miner-session table.
//!
//! Sessions are kept in a `dashmap::DashMap`, the concurrent keyed
//! collection the surrounding server shares between its connection
//! handlers.  The map is opaque here: its contents are named by
//! [`miners_view`], and each method the registry logic calls goes through a
//! trusted wrapper whose contract states, over that name, what the call does.

use vstd::prelude::*;
use dashmap::DashMap;
use crate::miner::{MinerInfo, MinerRec};

verus! {

#[verifier::external_type_specification]
#[verifier::external_body]
#[verifier::reject_recursive_types(K)]
#[verifier::reject_recursive_types(V)]
#[verifier::reject_recursive_types(S)]
pub struct ExDashMap<K, V, S>(DashMap<K, V, S>);

/// The contents of the session table: the model record of each session,
/// keyed by miner id.
pub uninterp spec fn miners_view(m: DashMap<String, MinerInfo>) -> Map<Seq<char>, MinerRec>;

/// Relies on dashmap::DashMap::new.  The contents of the returned table are
/// not stated here; [`dm_reset`] pins them down before first use.
#[verifier::external_body]
pub(crate) fn dm_alloc() -> DashMap<String, MinerInfo> {
    DashMap::new()
}

/// Relies on dashmap::DashMap::new: drops the given table and installs a
/// freshly created, empty one.
#[verifier::external_body]
pub(crate) fn dm_reset(m: &mut DashMap<String, MinerInfo>)
    ensures
        miners_view(*final(m)).len() == 0,
        forall|k: Seq<char>| !miners_view(*final(m)).contains_key(k),
{
    *m = DashMap::new();
}

/// Relies on dashmap::DashMap::get: the value stored under the key, if any.
#[verifier::external_body]
pub(crate) fn dm_get(m: &DashMap<String, MinerInfo>, key: &str) -> (r: Option<MinerInfo>)
    ensures
        match r {
            Some(info) => miners_view(*m).contains_key(key@) && info@ == miners_view(*m)[key@],
            None => !miners_view(*m).contains_key(key@),
        },
{
    m.get(key).map(|entry| entry.value().clone())
}

/// Relies on dashmap::DashMap::insert: the value is now stored under the
/// key, replacing any earlier one; no other key changes.
#[verifier::external_body]
pub(crate) fn dm_insert(m: &mut DashMap<String, MinerInfo>, key: String, value: MinerInfo)
    ensures
        miners_view(*final(m)) == miners_view(*old(m)).insert(key@, value@),
{
    m.insert(key, value);
}

/// Relies on dashmap::DashMap::remove: the key is no longer present; no
/// other key changes.
#[verifier::external_body]
pub(crate) fn dm_remove(m: &mut DashMap<String, MinerInfo>, key: &str)
    ensures
        miners_view(*final(m)) == miners_view(*old(m)).remove(key@),
{
    m.remove(key);
}

/// Relies on dashmap::DashMap::len: the number of stored keys.
#[verifier::external_body]
pub(crate) fn dm_len(m: &DashMap<String, MinerInfo>) -> (r: usize)
    ensures
        miners_view(*m).dom().finite() ==> r as nat == miners_view(*m).len(),
{
    m.len()
}

/// Relies on dashmap::DashMap::iter: every stored entry is yielded exactly
/// once, in no particular order.
#[verifier::external_body]
pub(crate) fn dm_entries(m: &DashMap<String, MinerInfo>) -> (r: Vec<(String, MinerInfo)>)
    ensures
        forall|i: int| 0 <= i < r@.len() ==> miners_view(*m).contains_key(#[trigger] r@[i].0@)
            && r@[i].1@ == miners_view(*m)[r@[i].0@],
        forall|k: Seq<char>| miners_view(*m).contains_key(k)
            ==> exists|i: int| 0 <= i < r@.len() && #[trigger] r@[i].0@ == k,
        forall|i: int, j: int| 0 <= i < j < r@.len() ==> r@[i].0@ != r@[j].0@,
{
    m.iter().map(|entry| (entry.key().clone(), entry.value().clone())).collect()
}

/// The sum of the worker-thread counts over all sessions of `m`.
pub open spec fn sum_threads(m: Map<Seq<char>, MinerRec>) -> int
    decreases m.dom().len(),
{
    if m.dom().finite() && m.dom().len() > 0 {
        let k = m.dom().choose();
        m[k].threads + sum_threads(m.remove(k))
    } else {
        0
    }
}

/// `x` clamped into the range of a `u64`, as saturating arithmetic leaves it.
pub open spec fn clamp_u64(x: int) -> int {
    if x > u64::MAX {
        u64::MAX as int
    } else {
        x
    }
}

/// Removing any present key takes its thread count out of the sum.
pub proof fn lemma_sum_threads_remove(m: Map<Seq<char>, MinerRec>, k: Seq<char>)
    requires
        m.dom().finite(),
        m.dom().contains(k),
    ensures
        sum_threads(m) == m[k].threads + sum_threads(m.remove(k)),
    decreases m.dom().len(),
{
    let k0 = m.dom().choose();
    assert(m.dom().contains(k0));
    if k0 == k {
    } else {
        lemma_sum_threads_remove(m.remove(k0), k);
        lemma_sum_threads_remove(m.remove(k), k0);
        assert(m.remove(k0).remove(k) =~= m.remove(k).remove(k0));
    }
}

/// Inserting a fresh key adds its thread count to the sum.
pub proof fn lemma_sum_threads_insert(m: Map<Seq<char>, MinerRec>, k: Seq<char>, v: MinerRec)
    requires
        m.dom().finite(),
        !m.dom().contains(k),
    ensures
        sum_threads(m.insert(k, v)) == sum_threads(m) + v.threads,
{
    lemma_sum_threads_remove(m.insert(k, v), k);
    assert(m.insert(k, v).remove(k) =~= m);
}

/// The key-to-record map formed from the first `j` of the yielded entries.
spec fn entries_map(s: Seq<(String, MinerInfo)>, j: int) -> Map<Seq<char>, MinerRec>
    decreases j,
{
    if j <= 0 {
        Map::empty()
    } else {
        entries_map(s, j - 1).insert(s[j - 1].0@, s[j - 1].1@)
    }
}

proof fn lemma_entries_map_dom(s: Seq<(String, MinerInfo)>, j: int)
    requires
        0 <= j <= s.len(),
        forall|p: int, q: int| 0 <= p < q < s.len() ==> s[p].0@ != s[q].0@,
    ensures
        entries_map(s, j).dom().finite(),
        forall|k: Seq<char>| entries_map(s, j).contains_key(k)
            <==> exists|i: int| 0 <= i < j && #[trigger] s[i].0@ == k,
        forall|i: int| 0 <= i < j ==> entries_map(s, j).contains_key(#[trigger] s[i].0@)
            && entries_map(s, j)[s[i].0@] == s[i].1@,
    decreases j,
{
    if j > 0 {
        lemma_entries_map_dom(s, j - 1);
    }
}

/// The sum of the worker-thread counts over all sessions, saturating at
/// `u64::MAX`.
pub(crate) fn registry_total_threads(m: &DashMap<String, MinerInfo>) -> (r: u64)
    ensures
        miners_view(*m).dom().finite() ==> r as int == clamp_u64(sum_threads(miners_view(*m))),
{
    let entries = dm_entries(m);
    let ghost view = miners_view(*m);
    let n = entries.len();
    let mut acc: u64 = 0;
    let mut i: usize = 0;
    while i < n
        invariant
            n == entries@.len(),
            0 <= i <= n,
            forall|p: int| 0 <= p < entries@.len() ==> view.contains_key(#[trigger] entries@[p].0@)
                && entries@[p].1@ == view[entries@[p].0@],
            forall|k: Seq<char>| view.contains_key(k)
                ==> exists|p: int| 0 <= p < entries@.len() && #[trigger] entries@[p].0@ == k,
            forall|p: int, q: int| 0 <= p < q < entries@.len() ==> entries@[p].0@ != entries@[q].0@,
            acc as int == clamp_u64(sum_threads(entries_map(entries@, i as int))),
            sum_threads(entries_map(entries@, i as int)) >= 0,
        decreases n - i,
    {
        let threads = entries[i].1.threads;
        proof {
            lemma_entries_map_dom(entries@, i as int);
            assert(!entries_map(entries@, i as int).contains_key(entries@[i as int].0@));
            lemma_sum_threads_insert(
                entries_map(entries@, i as int),
                entries@[i as int].0@,
                entries@[i as int].1@,
            );
        }
        let t64 = threads as u64;
        if acc > u64::MAX - t64 {
            acc = u64::MAX;
        } else {
            acc = acc + t64;
        }
        i = i + 1;
    }
    proof {
        if view.dom().finite() {
            lemma_entries_map_dom(entries@, n as int);
            let g = entries_map(entries@, n as int);
            assert forall|k: Seq<char>| g.contains_key(k) implies view.contains_key(k)
                && g[k] == view[k] by {
                let i = choose|i: int| 0 <= i < n && #[trigger] entries@[i].0@ == k;
            };
            assert forall|k: Seq<char>| view.contains_key(k) implies g.contains_key(k) by {
                let i = choose|i: int| 0 <= i < entries@.len() && #[trigger] entries@[i].0@ == k;
            };
            assert(g =~= view);
        }
    }
    acc
}

} // verus!
