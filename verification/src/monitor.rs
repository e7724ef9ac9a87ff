//! The live-status aggregator: miner registry, sync tracking, pool-wide
//! counters and the on-demand statistics snapshot.
//!
//! The monitor is a single long-lived value, constructed once at process
//! start and shared by the surrounding server.  Timestamps are milliseconds
//! since the Unix epoch from the process clock; nothing is promised of a
//! clock reading, so every contract that involves one states what holds
//! whatever the clock returned.  Percentages are kept in hundredths of a
//! percent (0 to 10000), which also carries the 0.01-percent debounce of
//! the derived sync status.

use vstd::prelude::*;
use dashmap::DashMap;
use crate::miner::{MinerConnectionStatus, MinerInfo, MinerRec};
use crate::registry::{
    clamp_u64, dm_alloc, dm_get, dm_insert, dm_len, dm_remove, dm_reset, miners_view,
    registry_total_threads, sum_threads,
};

verus! {

/// Estimated hashes per second contributed by one worker thread.
pub const PER_THREAD_HASHRATE: u64 = 2_000_000;

/// Placeholder CPU usage stored when the resource probe is unavailable,
/// hundredths of a percent.
pub const FALLBACK_CPU_CENTI_PERCENT: u64 = 3000;

/// Placeholder memory usage stored when the resource probe is unavailable,
/// megabytes.
pub const FALLBACK_MEMORY_MB: u64 = 500;

/// Derived blockchain-sync status, decoupled from any display string.
#[derive(Clone, Copy, Debug, PartialEq, Eq, Structural)]
pub enum SyncStatusCode {
    /// No network height is known and nothing is synced yet, or the network
    /// reports height zero.
    Waiting,
    /// Blocks are present locally but no network height is known.
    PartiallySynced,
    /// The local height trails a known, positive network height.
    Syncing,
    /// The local height has reached the network height.
    Synced,
}

impl SyncStatusCode {
    /// Stable machine-readable label for this status, for display surfaces.
    pub fn label(&self) -> (r: &'static str)
        ensures
            *self is Waiting ==> r@ == "waiting"@,
            *self is PartiallySynced ==> r@ == "partially synced"@,
            *self is Syncing ==> r@ == "syncing"@,
            *self is Synced ==> r@ == "synced"@,
    {
        match self {
            Self::Waiting => "waiting",
            Self::PartiallySynced => "partially synced",
            Self::Syncing => "syncing",
            Self::Synced => "synced",
        }
    }
}

/// One best-effort reading of the resource-usage probe.
#[derive(Clone, Copy, Debug, PartialEq, Eq, Structural)]
pub struct ResourceSample {
    /// CPU usage, hundredths of a percent.
    pub cpu_centi_percent: u64,
    /// Memory usage, megabytes.
    pub memory_mb: u64,
}

/// A point-in-time assembly of all tracked statistics.
///
/// The snapshot is assembled without a lock across the whole read: in the
/// concurrent setting different fields may reflect different instants.
/// That is the intended trade-off; no field is ever blocked on another.
#[derive(Clone, Debug)]
pub struct PoolStatistics {
    pub server_start_ms: i64,
    pub uptime_seconds: u64,
    pub current_block_height: u64,
    pub last_block_time_ms: Option<i64>,
    pub latest_block_hash: String,
    pub sync_status: SyncStatusCode,
    pub sync_percentage_centi: u64,
    pub network_latest_block_height: Option<u64>,
    pub connected_miners: usize,
    pub total_threads: u64,
    pub estimated_hashrate: u64,
    pub blocks_found: u64,
    pub blocks_accepted: u64,
    pub current_difficulty: String,
    pub current_work_id: String,
    pub work_updates_count: u64,
    pub work_last_update_ms: i64,
    pub cpu_usage_centi_percent: u64,
    pub memory_usage_mb: u64,
}

/// The mathematical model of the whole monitor.
pub ghost struct MonitorView {
    pub start_ms: int,
    pub height: int,
    pub last_block_ms: Option<int>,
    pub block_hash: Seq<char>,
    pub sync_code: SyncStatusCode,
    pub sync_centi: int,
    pub net_height: Option<int>,
    pub miners: Map<Seq<char>, MinerRec>,
    pub blocks_found: int,
    pub blocks_accepted: int,
    pub difficulty: Seq<char>,
    pub work_id: Seq<char>,
    pub work_updates: int,
    pub work_last_ms: int,
    pub last_check_ms: int,
    pub hashrate: int,
    pub cpu_centi: int,
    pub memory_mb: int,
}

/// `x + 1`, saturating at `u64::MAX`.
pub open spec fn sat_inc_u64(x: int) -> int {
    if x < u64::MAX {
        x + 1
    } else {
        u64::MAX as int
    }
}

/// `x + 1`, saturating at `u32::MAX`.
pub open spec fn sat_inc_u32(x: int) -> int {
    if x < u32::MAX {
        x + 1
    } else {
        u32::MAX as int
    }
}

/// The sync rule table: the status and percentage (hundredths of a percent)
/// derived from the local height and the optionally known network height.
pub open spec fn sync_rule(local: int, net: Option<int>) -> (SyncStatusCode, int) {
    match net {
        Some(n) => if n <= 0 {
            (SyncStatusCode::Waiting, 0)
        } else if local >= n {
            (SyncStatusCode::Synced, 10000)
        } else {
            (SyncStatusCode::Syncing, local * 10000 / n)
        },
        None => if local > 0 {
            (SyncStatusCode::PartiallySynced, 0)
        } else {
            (SyncStatusCode::Waiting, 0)
        },
    }
}

impl MonitorView {
    /// Validity: the stored percentage is a percentage, and every session
    /// record is well formed under its key.
    pub open spec fn wf(self) -> bool {
        &&& 0 <= self.sync_centi <= 10000
        &&& self.miners.dom().finite()
        &&& forall|k: Seq<char>| self.miners.contains_key(k) ==> (#[trigger] self.miners[k]).wf(k)
    }

    /// The state of a monitor freshly constructed at time `t`.
    pub open spec fn spec_new(t: int) -> MonitorView {
        MonitorView {
            start_ms: t,
            height: 0,
            last_block_ms: None,
            block_hash: "unknown"@,
            sync_code: SyncStatusCode::Waiting,
            sync_centi: 0,
            net_height: None,
            miners: Map::empty(),
            blocks_found: 0,
            blocks_accepted: 0,
            difficulty: "unknown"@,
            work_id: "unknown"@,
            work_updates: 0,
            work_last_ms: t,
            last_check_ms: t,
            hashrate: 0,
            cpu_centi: 0,
            memory_mb: 0,
        }
    }

    /// The freshly derived sync pair, stored only if the status changed or
    /// the percentage moved by more than 0.01 percent (the debounce).
    pub open spec fn recomputed(self) -> MonitorView {
        let (code, centi) = sync_rule(self.height, self.net_height);
        let moved = if centi >= self.sync_centi {
            centi - self.sync_centi
        } else {
            self.sync_centi - centi
        };
        if code != self.sync_code || moved > 1 {
            MonitorView { sync_code: code, sync_centi: centi, ..self }
        } else {
            self
        }
    }

    /// Effect of recording local height `h` at time `t`: on a change, the
    /// last-block time is set and the sync pair rederived.
    pub open spec fn with_block_height(self, h: int, t: int) -> MonitorView {
        if self.height == h {
            self
        } else {
            MonitorView { height: h, last_block_ms: Some(t), ..self }.recomputed()
        }
    }

    /// Effect of recording the network height: on a change, the sync pair
    /// is rederived.
    pub open spec fn with_network_height(self, nh: Option<int>) -> MonitorView {
        if self.net_height == nh {
            self
        } else {
            MonitorView { net_height: nh, ..self }.recomputed()
        }
    }

    /// Effect of recording the latest block hash.
    pub open spec fn with_block_hash(self, h: Seq<char>) -> MonitorView {
        MonitorView { block_hash: h, ..self }
    }

    /// Effect of overriding the sync status label; the stored percentage is
    /// untouched.
    pub open spec fn with_sync_code(self, c: SyncStatusCode) -> MonitorView {
        MonitorView { sync_code: c, ..self }
    }

    /// Effect of recording the current difficulty label.
    pub open spec fn with_difficulty(self, d: Seq<char>) -> MonitorView {
        MonitorView { difficulty: d, ..self }
    }

    /// Effect of replacing the current work id at time `t`.
    pub open spec fn with_work_id(self, id: Seq<char>, t: int) -> MonitorView {
        MonitorView {
            work_id: id,
            work_updates: sat_inc_u64(self.work_updates),
            work_last_ms: t,
            ..self
        }
    }

    /// Whether an upsert of `id` now reports a reconnect: the session
    /// already exists and its immediately-prior status is not Connected.
    pub open spec fn is_reconnect(self, id: Seq<char>) -> bool {
        self.miners.contains_key(id) && !(self.miners[id].status is Connected)
    }

    /// Effect of an upsert of `id` at time `t`.  A known session keeps its
    /// identity (session token, first-connected time, share counters),
    /// updates its thread count and last-seen time, moves to Connected,
    /// and counts a reconnect exactly when it was not Connected; an unknown
    /// id gets a fresh record under session token `session`.
    pub open spec fn with_upsert(self, id: Seq<char>, threads: int, t: int, session: Seq<char>) -> MonitorView {
        if self.miners.contains_key(id) {
            let r = self.miners[id];
            let bumped = if r.status is Connected {
                r.reconnect_count
            } else {
                sat_inc_u32(r.reconnect_count)
            };
            let r2 = MinerRec {
                threads: threads,
                last_seen_ms: t,
                status: MinerConnectionStatus::Connected,
                reconnect_count: bumped,
                ..r
            };
            MonitorView { miners: self.miners.insert(id, r2), ..self }
        } else {
            MonitorView {
                miners: self.miners.insert(id, MinerRec::fresh(id, threads, t, session)),
                ..self
            }
        }
    }

    /// Effect of an explicit status transition for `id` at time `t`; a no-op
    /// for an unknown id.
    pub open spec fn with_status(self, id: Seq<char>, status: MinerConnectionStatus, t: int) -> MonitorView {
        if self.miners.contains_key(id) {
            MonitorView {
                miners: self.miners.insert(id, MinerRec {
                    status: status,
                    last_seen_ms: t,
                    ..self.miners[id]
                }),
                ..self
            }
        } else {
            self
        }
    }

    /// Effect of recording a share for `id` at time `t`: submitted always
    /// grows, accepted only when the share was accepted; a no-op for an
    /// unknown id.
    pub open spec fn with_share(self, id: Seq<char>, accepted: bool, t: int) -> MonitorView {
        if self.miners.contains_key(id) {
            let r = self.miners[id];
            MonitorView {
                miners: self.miners.insert(id, MinerRec {
                    shares_submitted: sat_inc_u64(r.shares_submitted),
                    shares_accepted: if accepted { sat_inc_u64(r.shares_accepted) } else { r.shares_accepted },
                    last_seen_ms: t,
                    ..r
                }),
                ..self
            }
        } else {
            self
        }
    }

    /// Effect of removing `id`; idempotent.
    pub open spec fn with_removed(self, id: Seq<char>) -> MonitorView {
        MonitorView { miners: self.miners.remove(id), ..self }
    }

    /// Effect of counting one found block.
    pub open spec fn with_blocks_found_inc(self) -> MonitorView {
        MonitorView { blocks_found: sat_inc_u64(self.blocks_found), ..self }
    }

    /// Effect of counting one accepted block.
    pub open spec fn with_blocks_accepted_inc(self) -> MonitorView {
        MonitorView { blocks_accepted: sat_inc_u64(self.blocks_accepted), ..self }
    }

    /// Effect of storing a probe sample, or the fixed placeholder where the
    /// probe was unavailable.
    pub open spec fn with_resources(self, sample: Option<ResourceSample>) -> MonitorView {
        match sample {
            Some(s) => MonitorView {
                cpu_centi: s.cpu_centi_percent as int,
                memory_mb: s.memory_mb as int,
                ..self
            },
            None => MonitorView {
                cpu_centi: FALLBACK_CPU_CENTI_PERCENT as int,
                memory_mb: FALLBACK_MEMORY_MB as int,
                ..self
            },
        }
    }

    /// The hashrate estimate: total worker threads times the per-thread
    /// rate, saturating at `u64::MAX`.
    pub open spec fn estimated_hashrate(self) -> int {
        clamp_u64(sum_threads(self.miners) * PER_THREAD_HASHRATE)
    }

    /// Effect of re-estimating the hashrate at time `t`: the estimate is
    /// cached and the pacing timestamp updated.
    pub open spec fn with_estimate(self, t: int) -> MonitorView {
        MonitorView {
            hashrate: self.estimated_hashrate(),
            last_check_ms: t,
            ..self
        }
    }
}

/// Uptime in whole seconds at time `t` for a process started at `start`;
/// zero where the clock reads before the start.
pub open spec fn spec_uptime(start: int, t: int) -> int {
    if t >= start {
        (t - start) / 1000
    } else {
        0
    }
}

/// Relies on chrono::Utc::now, read as milliseconds since the Unix epoch:
/// a clock reading, of which nothing is promised.
#[verifier::external_body]
fn now_millis() -> i64 {
    chrono::Utc::now().timestamp_millis()
}

/// Relies on uuid::Uuid::new_v4, printed in its hyphenated form: a freshly
/// drawn random token, always 36 characters long.
#[verifier::external_body]
fn new_session_id() -> (r: String)
    ensures
        r@.len() == 36,
{
    uuid::Uuid::new_v4().to_string()
}

/// The live-status aggregator.
///
/// Constructed once at process start; every operation is a single-field (or
/// single-session) update, and [`StatusMonitor::get_statistics`] assembles
/// the full snapshot from the current values.
pub struct StatusMonitor {
    server_start_ms: i64,
    current_block_height: u64,
    last_block_time_ms: Option<i64>,
    latest_block_hash: String,
    sync_code: SyncStatusCode,
    sync_percent_centi: u64,
    network_block_height: Option<u64>,
    miners: DashMap<String, MinerInfo>,
    blocks_found: u64,
    blocks_accepted: u64,
    current_difficulty: String,
    current_work_id: String,
    work_updates_count: u64,
    work_last_update_ms: i64,
    last_check_ms: i64,
    last_hashrate_estimate: u64,
    cpu_usage_centi: u64,
    memory_usage_mb: u64,
}

impl View for StatusMonitor {
    type V = MonitorView;

    closed spec fn view(&self) -> MonitorView {
        MonitorView {
            start_ms: self.server_start_ms as int,
            height: self.current_block_height as int,
            last_block_ms: match self.last_block_time_ms {
                Some(t) => Some(t as int),
                None => None,
            },
            block_hash: self.latest_block_hash@,
            sync_code: self.sync_code,
            sync_centi: self.sync_percent_centi as int,
            net_height: match self.network_block_height {
                Some(h) => Some(h as int),
                None => None,
            },
            miners: miners_view(self.miners),
            blocks_found: self.blocks_found as int,
            blocks_accepted: self.blocks_accepted as int,
            difficulty: self.current_difficulty@,
            work_id: self.current_work_id@,
            work_updates: self.work_updates_count as int,
            work_last_ms: self.work_last_update_ms as int,
            last_check_ms: self.last_check_ms as int,
            hashrate: self.last_hashrate_estimate as int,
            cpu_centi: self.cpu_usage_centi as int,
            memory_mb: self.memory_usage_mb as int,
        }
    }
}

impl StatusMonitor {
    /// Validity of the monitor's model.
    pub open spec fn wf(&self) -> bool {
        self@.wf()
    }

    /// A fresh monitor: zero heights and counters, an empty session table,
    /// and the sync status the rule table derives for "nothing known yet".
    pub fn new() -> (r: StatusMonitor)
        ensures
            r.wf(),
            exists|t: i64| r@ == MonitorView::spec_new(t as int),
    {
        let t = now_millis();
        let mut miners = dm_alloc();
        dm_reset(&mut miners);
        let r = StatusMonitor {
            server_start_ms: t,
            current_block_height: 0,
            last_block_time_ms: None,
            latest_block_hash: "unknown".to_owned(),
            sync_code: SyncStatusCode::Waiting,
            sync_percent_centi: 0,
            network_block_height: None,
            miners,
            blocks_found: 0,
            blocks_accepted: 0,
            current_difficulty: "unknown".to_owned(),
            current_work_id: "unknown".to_owned(),
            work_updates_count: 0,
            work_last_update_ms: t,
            last_check_ms: t,
            last_hashrate_estimate: 0,
            cpu_usage_centi: 0,
            memory_usage_mb: 0,
        };
        proof {
            assert(miners_view(r.miners) =~= Map::<Seq<char>, MinerRec>::empty());
            assert(r@ == MonitorView::spec_new(t as int));
        }
        r
    }

    /// Rederives the sync pair from the current heights and stores it,
    /// unless the debounce suppresses the update.
    fn update_sync_status(&mut self)
        requires
            old(self).wf(),
        ensures
            final(self).wf(),
            final(self)@ == old(self)@.recomputed(),
    {
        let (code, centi): (SyncStatusCode, u64) = match self.network_block_height {
            Some(n) => {
                if n == 0 {
                    (SyncStatusCode::Waiting, 0)
                } else if self.current_block_height >= n {
                    (SyncStatusCode::Synced, 10000)
                } else {
                    let c128 = (self.current_block_height as u128) * 10000 / (n as u128);
                    proof {
                        assert((self.current_block_height as int) * 10000 / (n as int) < 10000)
                            by (nonlinear_arith)
                            requires
                                0 < n,
                                self.current_block_height < n,
                        ;
                        assert((self.current_block_height as int) * 10000 / (n as int) >= 0)
                            by (nonlinear_arith)
                            requires
                                0 < n,
                                0 <= self.current_block_height,
                        ;
                    }
                    (SyncStatusCode::Syncing, c128 as u64)
                }
            },
            None => {
                if self.current_block_height > 0 {
                    (SyncStatusCode::PartiallySynced, 0)
                } else {
                    (SyncStatusCode::Waiting, 0)
                }
            },
        };
        let moved = if centi >= self.sync_percent_centi {
            centi - self.sync_percent_centi
        } else {
            self.sync_percent_centi - centi
        };
        if code != self.sync_code || moved > 1 {
            self.sync_code = code;
            self.sync_percent_centi = centi;
        }
    }

    /// Records a new local block height; on a change, notes the block time
    /// and rederives the sync status.
    pub fn update_block_height(&mut self, height: u64)
        requires
            old(self).wf(),
        ensures
            final(self).wf(),
            exists|t: i64| final(self)@ == old(self)@.with_block_height(height as int, t as int),
    {
        let old_height = self.current_block_height;
        self.current_block_height = height;
        if old_height != height {
            let t = now_millis();
            self.last_block_time_ms = Some(t);
            self.update_sync_status();
            proof {
                assert(self@ == old(self)@.with_block_height(height as int, t as int));
            }
        } else {
            proof {
                let t: i64 = 0;
                assert(self@ == old(self)@.with_block_height(height as int, t as int));
            }
        }
    }

    /// Records the latest block hash.
    pub fn update_block_hash(&mut self, hash: String)
        requires
            old(self).wf(),
        ensures
            final(self).wf(),
            final(self)@ == old(self)@.with_block_hash(hash@),
    {
        self.latest_block_hash = hash;
    }

    /// Records the network's latest block height, or that it is unknown;
    /// on a change, rederives the sync status.
    pub fn update_network_block_height(&mut self, height: Option<u64>)
        requires
            old(self).wf(),
        ensures
            final(self).wf(),
            final(self)@ == old(self)@.with_network_height(match height {
                Some(h) => Some(h as int),
                None => None,
            }),
    {
        let same = match (&self.network_block_height, &height) {
            (None, None) => true,
            (Some(a), Some(b)) => *a == *b,
            _ => false,
        };
        if !same {
            self.network_block_height = height;
            self.update_sync_status();
        }
    }

    /// Overrides the sync status label; the stored percentage is untouched.
    pub fn set_sync_status(&mut self, status: SyncStatusCode)
        requires
            old(self).wf(),
        ensures
            final(self).wf(),
            final(self)@ == old(self)@.with_sync_code(status),
    {
        self.sync_code = status;
    }

    /// Records the current difficulty label.
    pub fn update_difficulty(&mut self, difficulty: String)
        requires
            old(self).wf(),
        ensures
            final(self).wf(),
            final(self)@ == old(self)@.with_difficulty(difficulty@),
    {
        self.current_difficulty = difficulty;
    }

    /// Replaces the current work id, counts the update and notes its time.
    pub fn update_work_id(&mut self, work_id: String)
        requires
            old(self).wf(),
        ensures
            final(self).wf(),
            exists|t: i64| final(self)@ == old(self)@.with_work_id(work_id@, t as int),
    {
        let t = now_millis();
        self.current_work_id = work_id;
        self.work_updates_count = if self.work_updates_count < u64::MAX {
            self.work_updates_count + 1
        } else {
            u64::MAX
        };
        self.work_last_update_ms = t;
        proof {
            assert(self@ == old(self)@.with_work_id(self.current_work_id@, t as int));
        }
    }

    /// Creates or refreshes the session of `miner_id`, moving it to
    /// Connected.  Returns true exactly when the session existed and its
    /// immediately-prior status was not Connected; a fresh session and an
    /// already-Connected one report false.
    pub fn update_miner(&mut self, miner_id: String, threads: usize) -> (is_reconnect: bool)
        requires
            old(self).wf(),
        ensures
            final(self).wf(),
            is_reconnect == old(self)@.is_reconnect(miner_id@),
            exists|t: i64, session: Seq<char>|
                final(self)@ == old(self)@.with_upsert(miner_id@, threads as int, t as int, session),
    {
        let ghost id_view = miner_id@;
        let t = now_millis();
        match dm_get(&self.miners, miner_id.as_str()) {
            Some(mut info) => {
                let was_connected = info.connection_status == MinerConnectionStatus::Connected;
                info.threads = threads;
                info.last_seen_ms = t;
                if !was_connected {
                    info.reconnect_count = if info.reconnect_count < u32::MAX {
                        info.reconnect_count + 1
                    } else {
                        u32::MAX
                    };
                }
                info.connection_status = MinerConnectionStatus::Connected;
                dm_insert(&mut self.miners, miner_id, info);
                proof {
                    let session: Seq<char> = Seq::empty();
                    assert(self@ == old(self)@.with_upsert(id_view, threads as int, t as int, session));
                }
                !was_connected
            },
            None => {
                let session = new_session_id();
                let ghost session_view = session@;
                let info = MinerInfo {
                    miner_id: miner_id.clone(),
                    threads,
                    last_seen_ms: t,
                    shares_submitted: 0,
                    shares_accepted: 0,
                    session_id: session,
                    connection_status: MinerConnectionStatus::Connected,
                    reconnect_count: 0,
                    first_connected_ms: t,
                };
                dm_insert(&mut self.miners, miner_id, info);
                proof {
                    assert(self@ == old(self)@.with_upsert(id_view, threads as int, t as int, session_view));
                }
                false
            },
        }
    }

    /// Sets the connection status of `miner_id` and touches its last-seen
    /// time; a silent no-op for an unknown id.
    pub fn update_miner_connection_status(&mut self, miner_id: &str, status: MinerConnectionStatus)
        requires
            old(self).wf(),
        ensures
            final(self).wf(),
            exists|t: i64| final(self)@ == old(self)@.with_status(miner_id@, status, t as int),
    {
        match dm_get(&self.miners, miner_id) {
            Some(mut info) => {
                let t = now_millis();
                info.connection_status = status;
                info.last_seen_ms = t;
                dm_insert(&mut self.miners, miner_id.to_owned(), info);
                proof {
                    assert(self@ == old(self)@.with_status(miner_id@, status, t as int));
                }
            },
            None => {
                proof {
                    let t: i64 = 0;
                    assert(self@ == old(self)@.with_status(miner_id@, status, t as int));
                }
            },
        }
    }

    /// Marks `miner_id` Disconnected; a silent no-op for an unknown id.
    pub fn set_miner_disconnected(&mut self, miner_id: &str)
        requires
            old(self).wf(),
        ensures
            final(self).wf(),
            exists|t: i64|
                final(self)@ == old(self)@.with_status(miner_id@, MinerConnectionStatus::Disconnected, t as int),
    {
        self.update_miner_connection_status(miner_id, MinerConnectionStatus::Disconnected);
    }

    /// Marks `miner_id` Reconnecting; a silent no-op for an unknown id.
    pub fn set_miner_reconnecting(&mut self, miner_id: &str)
        requires
            old(self).wf(),
        ensures
            final(self).wf(),
            exists|t: i64|
                final(self)@ == old(self)@.with_status(miner_id@, MinerConnectionStatus::Reconnecting, t as int),
    {
        self.update_miner_connection_status(miner_id, MinerConnectionStatus::Reconnecting);
    }

    /// The session token of `miner_id`, if the session exists.
    pub fn get_miner_session_id(&self, miner_id: &str) -> (r: Option<String>)
        ensures
            match r {
                Some(s) => self@.miners.contains_key(miner_id@) && s@ == self@.miners[miner_id@].session_id,
                None => !self@.miners.contains_key(miner_id@),
            },
    {
        match dm_get(&self.miners, miner_id) {
            Some(info) => Some(info.session_id),
            None => None,
        }
    }

    /// The connection status of `miner_id`, if the session exists.
    pub fn get_miner_connection_status(&self, miner_id: &str) -> (r: Option<MinerConnectionStatus>)
        ensures
            match r {
                Some(s) => self@.miners.contains_key(miner_id@) && s == self@.miners[miner_id@].status,
                None => !self@.miners.contains_key(miner_id@),
            },
    {
        match dm_get(&self.miners, miner_id) {
            Some(info) => Some(info.connection_status),
            None => None,
        }
    }

    /// The reconnect count and first-connected time of `miner_id`, if the
    /// session exists.
    pub fn get_miner_reconnect_stats(&self, miner_id: &str) -> (r: Option<(u32, i64)>)
        ensures
            match r {
                Some(p) => self@.miners.contains_key(miner_id@)
                    && p.0 as int == self@.miners[miner_id@].reconnect_count
                    && p.1 as int == self@.miners[miner_id@].first_connected_ms,
                None => !self@.miners.contains_key(miner_id@),
            },
    {
        match dm_get(&self.miners, miner_id) {
            Some(info) => Some((info.reconnect_count, info.first_connected_ms)),
            None => None,
        }
    }

    /// The submitted and accepted share counts of `miner_id`, if the
    /// session exists.
    pub fn get_miner_shares(&self, miner_id: &str) -> (r: Option<(u64, u64)>)
        ensures
            match r {
                Some(p) => self@.miners.contains_key(miner_id@)
                    && p.0 as int == self@.miners[miner_id@].shares_submitted
                    && p.1 as int == self@.miners[miner_id@].shares_accepted,
                None => !self@.miners.contains_key(miner_id@),
            },
    {
        match dm_get(&self.miners, miner_id) {
            Some(info) => Some((info.shares_submitted, info.shares_accepted)),
            None => None,
        }
    }

    /// Counts a submitted share for `miner_id`, and an accepted one when
    /// `accepted` holds; a silent no-op for an unknown id.
    pub fn increment_miner_share(&mut self, miner_id: &str, accepted: bool)
        requires
            old(self).wf(),
        ensures
            final(self).wf(),
            exists|t: i64| final(self)@ == old(self)@.with_share(miner_id@, accepted, t as int),
    {
        match dm_get(&self.miners, miner_id) {
            Some(mut info) => {
                let t = now_millis();
                info.shares_submitted = if info.shares_submitted < u64::MAX {
                    info.shares_submitted + 1
                } else {
                    u64::MAX
                };
                if accepted {
                    info.shares_accepted = if info.shares_accepted < u64::MAX {
                        info.shares_accepted + 1
                    } else {
                        u64::MAX
                    };
                }
                info.last_seen_ms = t;
                dm_insert(&mut self.miners, miner_id.to_owned(), info);
                proof {
                    assert(self@ == old(self)@.with_share(miner_id@, accepted, t as int));
                }
            },
            None => {
                proof {
                    let t: i64 = 0;
                    assert(self@ == old(self)@.with_share(miner_id@, accepted, t as int));
                }
            },
        }
    }

    /// Removes the session of `miner_id`; idempotent.
    pub fn remove_miner(&mut self, miner_id: &str)
        requires
            old(self).wf(),
        ensures
            final(self).wf(),
            final(self)@ == old(self)@.with_removed(miner_id@),
    {
        dm_remove(&mut self.miners, miner_id);
    }

    /// Counts one found block; the counter only grows.
    pub fn increment_blocks_found(&mut self)
        requires
            old(self).wf(),
        ensures
            final(self).wf(),
            final(self)@ == old(self)@.with_blocks_found_inc(),
    {
        self.blocks_found = if self.blocks_found < u64::MAX {
            self.blocks_found + 1
        } else {
            u64::MAX
        };
    }

    /// Counts one accepted block; the counter only grows.
    pub fn increment_blocks_accepted(&mut self)
        requires
            old(self).wf(),
        ensures
            final(self).wf(),
            final(self)@ == old(self)@.with_blocks_accepted_inc(),
    {
        self.blocks_accepted = if self.blocks_accepted < u64::MAX {
            self.blocks_accepted + 1
        } else {
            u64::MAX
        };
    }

    /// Stores a probe sample, or the fixed placeholder where the probe was
    /// unavailable (`None`).
    pub fn update_system_resources(&mut self, sample: Option<ResourceSample>)
        requires
            old(self).wf(),
        ensures
            final(self).wf(),
            final(self)@ == old(self)@.with_resources(sample),
    {
        match sample {
            Some(s) => {
                self.cpu_usage_centi = s.cpu_centi_percent;
                self.memory_usage_mb = s.memory_mb;
            },
            None => {
                self.cpu_usage_centi = FALLBACK_CPU_CENTI_PERCENT;
                self.memory_usage_mb = FALLBACK_MEMORY_MB;
            },
        }
    }

    /// The sum of all sessions' thread counts, saturating at `u64::MAX`.
    pub fn total_threads(&self) -> (r: u64)
        requires
            self.wf(),
        ensures
            r as int == clamp_u64(sum_threads(self@.miners)),
    {
        registry_total_threads(&self.miners)
    }

    /// The number of live sessions.
    pub fn miner_count(&self) -> (r: usize)
        requires
            self.wf(),
        ensures
            r as nat == self@.miners.len(),
    {
        dm_len(&self.miners)
    }

    /// Re-estimates the pool hashrate as total threads times the fixed
    /// per-thread rate (an admitted approximation, not a measurement),
    /// caches it for later snapshots, and notes the time for pacing.
    pub fn estimate_hashrate(&mut self) -> (r: u64)
        requires
            old(self).wf(),
        ensures
            final(self).wf(),
            r as int == old(self)@.estimated_hashrate(),
            exists|t: i64| final(self)@ == old(self)@.with_estimate(t as int),
    {
        let t = now_millis();
        let total = registry_total_threads(&self.miners);
        proof {
            assert forall|k: Seq<char>| self@.miners.contains_key(k)
                implies (#[trigger] self@.miners[k]).threads >= 0 by {
                assert(self@.miners[k].wf(k));
            };
            lemma_sum_threads_nonneg(self@.miners);
            lemma_clamp_mul(sum_threads(self@.miners), total as int);
        }
        let estimate = match total.checked_mul(PER_THREAD_HASHRATE) {
            Some(v) => v,
            None => u64::MAX,
        };
        self.last_hashrate_estimate = estimate;
        self.last_check_ms = t;
        proof {
            assert(self@ == old(self)@.with_estimate(t as int));
        }
        estimate
    }

    /// Assembles the full statistics snapshot from the current values.
    /// Each field reflects this monitor's state at the time of the call;
    /// in the concurrent setting the assembly takes no lock across fields.
    pub fn get_statistics(&self) -> (r: PoolStatistics)
        requires
            self.wf(),
        ensures
            r.server_start_ms as int == self@.start_ms,
            exists|t: i64| r.uptime_seconds as int == spec_uptime(self@.start_ms, t as int),
            r.current_block_height as int == self@.height,
            match r.last_block_time_ms {
                Some(t) => self@.last_block_ms == Some(t as int),
                None => self@.last_block_ms is None,
            },
            r.latest_block_hash@ == self@.block_hash,
            r.sync_status == self@.sync_code,
            r.sync_percentage_centi as int == self@.sync_centi,
            match r.network_latest_block_height {
                Some(h) => self@.net_height == Some(h as int),
                None => self@.net_height is None,
            },
            r.connected_miners as nat == self@.miners.len(),
            r.total_threads as int == clamp_u64(sum_threads(self@.miners)),
            r.estimated_hashrate as int == self@.hashrate,
            r.blocks_found as int == self@.blocks_found,
            r.blocks_accepted as int == self@.blocks_accepted,
            r.current_difficulty@ == self@.difficulty,
            r.current_work_id@ == self@.work_id,
            r.work_updates_count as int == self@.work_updates,
            r.work_last_update_ms as int == self@.work_last_ms,
            r.cpu_usage_centi_percent as int == self@.cpu_centi,
            r.memory_usage_mb as int == self@.memory_mb,
    {
        let now = now_millis();
        let uptime_seconds: u64 = if now >= self.server_start_ms {
            let diff = (now as i128) - (self.server_start_ms as i128);
            ((diff as u128) / 1000) as u64
        } else {
            0
        };
        let total_threads = registry_total_threads(&self.miners);
        let connected_miners = dm_len(&self.miners);
        let r = PoolStatistics {
            server_start_ms: self.server_start_ms,
            uptime_seconds,
            current_block_height: self.current_block_height,
            last_block_time_ms: self.last_block_time_ms,
            latest_block_hash: self.latest_block_hash.clone(),
            sync_status: self.sync_code,
            sync_percentage_centi: self.sync_percent_centi,
            network_latest_block_height: self.network_block_height,
            connected_miners,
            total_threads,
            estimated_hashrate: self.last_hashrate_estimate,
            blocks_found: self.blocks_found,
            blocks_accepted: self.blocks_accepted,
            current_difficulty: self.current_difficulty.clone(),
            current_work_id: self.current_work_id.clone(),
            work_updates_count: self.work_updates_count,
            work_last_update_ms: self.work_last_update_ms,
            cpu_usage_centi_percent: self.cpu_usage_centi,
            memory_usage_mb: self.memory_usage_mb,
        };
        proof {
            assert(r.uptime_seconds as int == spec_uptime(self@.start_ms, now as int));
        }
        r
    }
}

/// With every record well formed, the thread sum is non-negative.
pub proof fn lemma_sum_threads_nonneg(m: Map<Seq<char>, MinerRec>)
    requires
        m.dom().finite(),
        forall|k: Seq<char>| m.contains_key(k) ==> (#[trigger] m[k]).threads >= 0,
    ensures
        sum_threads(m) >= 0,
    decreases m.dom().len(),
{
    if m.dom().len() > 0 {
        let k = m.dom().choose();
        assert(m.dom().contains(k));
        lemma_sum_threads_nonneg(m.remove(k));
    }
}

proof fn lemma_clamp_mul(s: int, total: int)
    requires
        s >= 0,
        total == clamp_u64(s),
    ensures
        clamp_u64(total * PER_THREAD_HASHRATE) == clamp_u64(s * PER_THREAD_HASHRATE),
{
    if s > u64::MAX {
        assert(s * PER_THREAD_HASHRATE >= s) by (nonlinear_arith)
            requires s >= 0,
        ;
        assert(u64::MAX as int * PER_THREAD_HASHRATE as int > u64::MAX as int);
    }
}

} // verus!
