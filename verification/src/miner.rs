//! Per-miner session records and their connection state machine.
//!
//! A session is created on the first registry touch for a miner id and lives
//! until it is explicitly removed.  Its `session_id` is assigned once at
//! creation and never reassigned, its `first_connected_at` timestamp is set
//! once, and its share counters only grow, with accepted shares never
//! exceeding submitted ones.

use vstd::prelude::*;

verus! {

/// Connection state of one miner session.
#[derive(Clone, Copy, Debug, PartialEq, Eq, Structural)]
pub enum MinerConnectionStatus {
    Connected,
    Disconnected,
    Reconnecting,
}

impl MinerConnectionStatus {
    /// Stable machine-readable label for this status, for display surfaces.
    pub fn as_str(&self) -> (r: &'static str)
        ensures
            *self is Connected ==> r@ == "connected"@,
            *self is Disconnected ==> r@ == "disconnected"@,
            *self is Reconnecting ==> r@ == "reconnecting"@,
    {
        match self {
            Self::Connected => "connected",
            Self::Disconnected => "disconnected",
            Self::Reconnecting => "reconnecting",
        }
    }
}

/// One miner's session record.  Timestamps are milliseconds since the Unix
/// epoch, as reported by the caller's clock.
#[derive(Clone, Debug)]
pub struct MinerInfo {
    /// Unique key of the session; immutable.
    pub miner_id: String,
    /// Last reported worker-thread count.
    pub threads: usize,
    /// Updated on every registry touch.
    pub last_seen_ms: i64,
    /// Shares submitted so far; only grows.
    pub shares_submitted: u64,
    /// Shares accepted so far; only grows, never exceeds `shares_submitted`.
    pub shares_accepted: u64,
    /// Opaque token assigned once at creation; immutable.
    pub session_id: String,
    /// Current connection state.
    pub connection_status: MinerConnectionStatus,
    /// Number of transitions into Connected from a non-Connected state.
    pub reconnect_count: u32,
    /// Set once at creation; immutable.
    pub first_connected_ms: i64,
}

/// The mathematical model of a [`MinerInfo`].
pub ghost struct MinerRec {
    pub id: Seq<char>,
    pub threads: int,
    pub last_seen_ms: int,
    pub shares_submitted: int,
    pub shares_accepted: int,
    pub session_id: Seq<char>,
    pub status: MinerConnectionStatus,
    pub reconnect_count: int,
    pub first_connected_ms: int,
}

impl View for MinerInfo {
    type V = MinerRec;

    open spec fn view(&self) -> MinerRec {
        MinerRec {
            id: self.miner_id@,
            threads: self.threads as int,
            last_seen_ms: self.last_seen_ms as int,
            shares_submitted: self.shares_submitted as int,
            shares_accepted: self.shares_accepted as int,
            session_id: self.session_id@,
            status: self.connection_status,
            reconnect_count: self.reconnect_count as int,
            first_connected_ms: self.first_connected_ms as int,
        }
    }
}

impl MinerRec {
    /// Validity of a record stored under key `key`: the record knows its own
    /// key, its fields fit their machine types, and accepted shares never
    /// exceed submitted ones.
    pub open spec fn wf(self, key: Seq<char>) -> bool {
        &&& self.id == key
        &&& 0 <= self.threads <= usize::MAX
        &&& i64::MIN <= self.last_seen_ms <= i64::MAX
        &&& 0 <= self.shares_accepted <= self.shares_submitted <= u64::MAX
        &&& 0 <= self.reconnect_count <= u32::MAX
        &&& i64::MIN <= self.first_connected_ms <= i64::MAX
    }

    /// The freshly created record for a miner first seen at `now_ms` with
    /// session token `session`.
    pub open spec fn fresh(id: Seq<char>, threads: int, now_ms: int, session: Seq<char>) -> MinerRec {
        MinerRec {
            id: id,
            threads: threads,
            last_seen_ms: now_ms,
            shares_submitted: 0,
            shares_accepted: 0,
            session_id: session,
            status: MinerConnectionStatus::Connected,
            reconnect_count: 0,
            first_connected_ms: now_ms,
        }
    }
}

} // verus!
