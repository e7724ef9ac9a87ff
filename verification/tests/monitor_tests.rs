use pool_status::{MinerConnectionStatus, ResourceSample, StatusMonitor, SyncStatusCode};

#[test]
fn fresh_monitor_statistics() {
    let m = StatusMonitor::new();
    let s = m.get_statistics();
    assert_eq!(s.current_block_height, 0);
    assert_eq!(s.sync_status, SyncStatusCode::Waiting);
    assert_eq!(s.sync_percentage_centi, 0);
    assert_eq!(s.network_latest_block_height, None);
    assert_eq!(s.last_block_time_ms, None);
    assert_eq!(s.connected_miners, 0);
    assert_eq!(s.total_threads, 0);
    assert_eq!(s.estimated_hashrate, 0);
    assert_eq!(s.blocks_found, 0);
    assert_eq!(s.blocks_accepted, 0);
    assert_eq!(s.latest_block_hash, "unknown");
    assert_eq!(s.current_difficulty, "unknown");
    assert_eq!(s.current_work_id, "unknown");
    assert_eq!(s.work_updates_count, 0);
}

#[test]
fn first_upsert_is_not_a_reconnect() {
    let mut m = StatusMonitor::new();
    assert!(!m.update_miner("alice".to_string(), 4));
    // already Connected: still no reconnect
    assert!(!m.update_miner("alice".to_string(), 4));
    // from Disconnected: a reconnect
    m.set_miner_disconnected("alice");
    assert!(m.update_miner("alice".to_string(), 4));
    // from Reconnecting: a reconnect
    m.set_miner_reconnecting("alice");
    assert!(m.update_miner("alice".to_string(), 4));
}

#[test]
fn reconnect_count_increments_per_transition() {
    let mut m = StatusMonitor::new();
    m.update_miner("bob".to_string(), 2);
    let (count, first_seen) = m.get_miner_reconnect_stats("bob").unwrap();
    assert_eq!(count, 0);
    m.set_miner_disconnected("bob");
    m.update_miner("bob".to_string(), 2);
    assert_eq!(m.get_miner_reconnect_stats("bob").unwrap().0, 1);
    // repeated Connected -> Connected upserts leave the count alone
    m.update_miner("bob".to_string(), 2);
    m.update_miner("bob".to_string(), 2);
    assert_eq!(m.get_miner_reconnect_stats("bob").unwrap().0, 1);
    m.set_miner_reconnecting("bob");
    m.update_miner("bob".to_string(), 2);
    let (count2, first_seen2) = m.get_miner_reconnect_stats("bob").unwrap();
    assert_eq!(count2, 2);
    // the first-connected time is set once and kept
    assert_eq!(first_seen, first_seen2);
}

#[test]
fn session_id_is_stable_and_36_characters() {
    let mut m = StatusMonitor::new();
    m.update_miner("carol".to_string(), 1);
    let id1 = m.get_miner_session_id("carol").unwrap();
    assert_eq!(id1.len(), 36);
    m.set_miner_disconnected("carol");
    m.update_miner("carol".to_string(), 1);
    // a reconnect keeps the session token
    assert_eq!(m.get_miner_session_id("carol").unwrap(), id1);
    // removal and re-creation draws a fresh one
    m.remove_miner("carol");
    assert_eq!(m.get_miner_session_id("carol"), None);
    m.update_miner("carol".to_string(), 1);
    let id2 = m.get_miner_session_id("carol").unwrap();
    assert_eq!(id2.len(), 36);
    assert_ne!(id1, id2);
}

#[test]
fn shares_accepted_never_exceed_submitted() {
    let mut m = StatusMonitor::new();
    m.update_miner("dave".to_string(), 2);
    m.increment_miner_share("dave", true);
    m.increment_miner_share("dave", false);
    m.increment_miner_share("dave", true);
    let (submitted, accepted) = m.get_miner_shares("dave").unwrap();
    assert_eq!(submitted, 3);
    assert_eq!(accepted, 2);
    assert!(accepted <= submitted);
}

#[test]
fn unknown_miner_mutations_are_silent_noops() {
    let mut m = StatusMonitor::new();
    m.increment_miner_share("nobody", true);
    m.set_miner_disconnected("nobody");
    m.set_miner_reconnecting("nobody");
    m.remove_miner("nobody");
    assert_eq!(m.get_miner_shares("nobody"), None);
    assert_eq!(m.get_miner_session_id("nobody"), None);
    assert_eq!(m.get_miner_connection_status("nobody"), None);
    assert_eq!(m.get_miner_reconnect_stats("nobody"), None);
    assert_eq!(m.miner_count(), 0);
}

#[test]
fn connection_status_transitions_and_labels() {
    let mut m = StatusMonitor::new();
    m.update_miner("erin".to_string(), 1);
    assert_eq!(m.get_miner_connection_status("erin"), Some(MinerConnectionStatus::Connected));
    m.set_miner_disconnected("erin");
    assert_eq!(m.get_miner_connection_status("erin"), Some(MinerConnectionStatus::Disconnected));
    m.set_miner_reconnecting("erin");
    assert_eq!(m.get_miner_connection_status("erin"), Some(MinerConnectionStatus::Reconnecting));
    assert_eq!(MinerConnectionStatus::Connected.as_str(), "connected");
    assert_eq!(MinerConnectionStatus::Disconnected.as_str(), "disconnected");
    assert_eq!(MinerConnectionStatus::Reconnecting.as_str(), "reconnecting");
}

#[test]
fn sync_rule_table_literals() {
    // local 50, network 100: syncing at 50.00 percent
    let mut m = StatusMonitor::new();
    m.update_block_height(50);
    m.update_network_block_height(Some(100));
    let s = m.get_statistics();
    assert_eq!(s.sync_status, SyncStatusCode::Syncing);
    assert_eq!(s.sync_status.label(), "syncing");
    assert_eq!(s.sync_percentage_centi, 5000);
    assert_eq!(s.sync_percentage_centi as f64 / 100.0, 50.0);

    // local 100, network 100: synced at 100.00 percent
    let mut m = StatusMonitor::new();
    m.update_block_height(100);
    m.update_network_block_height(Some(100));
    let s = m.get_statistics();
    assert_eq!(s.sync_status, SyncStatusCode::Synced);
    assert_eq!(s.sync_status.label(), "synced");
    assert_eq!(s.sync_percentage_centi, 10000);

    // local 5, network unknown: partially synced at 0
    let mut m = StatusMonitor::new();
    m.update_block_height(5);
    let s = m.get_statistics();
    assert_eq!(s.sync_status, SyncStatusCode::PartiallySynced);
    assert_eq!(s.sync_status.label(), "partially synced");
    assert_eq!(s.sync_percentage_centi, 0);

    // local 0, network unknown: waiting at 0
    let m = StatusMonitor::new();
    let s = m.get_statistics();
    assert_eq!(s.sync_status, SyncStatusCode::Waiting);
    assert_eq!(s.sync_status.label(), "waiting");
    assert_eq!(s.sync_percentage_centi, 0);

    // local 7, network reports 0: waiting at 0
    let mut m = StatusMonitor::new();
    m.update_block_height(7);
    m.update_network_block_height(Some(0));
    let s = m.get_statistics();
    assert_eq!(s.sync_status, SyncStatusCode::Waiting);
    assert_eq!(s.sync_percentage_centi, 0);
}

#[test]
fn sync_debounce_suppresses_tiny_moves() {
    let mut m = StatusMonitor::new();
    m.update_network_block_height(Some(10000));
    m.update_block_height(5000);
    assert_eq!(m.get_statistics().sync_percentage_centi, 5000);
    // a move of exactly 0.01 percent with an unchanged label is suppressed
    m.update_block_height(5001);
    let s = m.get_statistics();
    assert_eq!(s.sync_status, SyncStatusCode::Syncing);
    assert_eq!(s.sync_percentage_centi, 5000);
    // a move of 0.02 percent goes through
    m.update_block_height(5002);
    assert_eq!(m.get_statistics().sync_percentage_centi, 5002);
}

#[test]
fn hashrate_estimate_three_miners() {
    let mut m = StatusMonitor::new();
    m.update_miner("m1".to_string(), 2);
    m.update_miner("m2".to_string(), 4);
    m.update_miner("m3".to_string(), 6);
    assert_eq!(m.miner_count(), 3);
    assert_eq!(m.total_threads(), 12);
    assert_eq!(m.estimate_hashrate(), 24_000_000);
    let s = m.get_statistics();
    assert_eq!(s.connected_miners, 3);
    assert_eq!(s.total_threads, 12);
    assert_eq!(s.estimated_hashrate, 24_000_000);
}

#[test]
fn estimate_is_cached_until_reestimated() {
    let mut m = StatusMonitor::new();
    m.update_miner("m1".to_string(), 3);
    m.estimate_hashrate();
    m.update_miner("m1".to_string(), 5);
    let s = m.get_statistics();
    // the snapshot folds threads at read time but reports the cached estimate
    assert_eq!(s.total_threads, 5);
    assert_eq!(s.estimated_hashrate, 6_000_000);
    assert_eq!(m.estimate_hashrate(), 10_000_000);
}

#[test]
fn blocks_found_counts_every_increment() {
    let mut m = StatusMonitor::new();
    for _ in 0..100 {
        m.increment_blocks_found();
    }
    for _ in 0..40 {
        m.increment_blocks_accepted();
    }
    let s = m.get_statistics();
    assert_eq!(s.blocks_found, 100);
    assert_eq!(s.blocks_accepted, 40);
}

#[test]
fn work_id_updates_are_counted() {
    let mut m = StatusMonitor::new();
    m.update_work_id("job-1".to_string());
    m.update_work_id("job-2".to_string());
    let s = m.get_statistics();
    assert_eq!(s.current_work_id, "job-2");
    assert_eq!(s.work_updates_count, 2);
}

#[test]
fn difficulty_and_block_hash_are_stored() {
    let mut m = StatusMonitor::new();
    m.update_difficulty("high".to_string());
    m.update_block_hash("0xabc".to_string());
    let s = m.get_statistics();
    assert_eq!(s.current_difficulty, "high");
    assert_eq!(s.latest_block_hash, "0xabc");
}

#[test]
fn set_sync_status_overrides_label_only() {
    let mut m = StatusMonitor::new();
    m.update_network_block_height(Some(100));
    m.update_block_height(50);
    m.set_sync_status(SyncStatusCode::Synced);
    let s = m.get_statistics();
    assert_eq!(s.sync_status, SyncStatusCode::Synced);
    // the stored percentage is untouched by the override
    assert_eq!(s.sync_percentage_centi, 5000);
}

#[test]
fn block_height_change_notes_block_time() {
    let mut m = StatusMonitor::new();
    m.update_block_height(1);
    let s = m.get_statistics();
    assert_eq!(s.current_block_height, 1);
    assert!(s.last_block_time_ms.is_some());
}

#[test]
fn resource_samples_and_placeholder() {
    let mut m = StatusMonitor::new();
    m.update_system_resources(Some(ResourceSample { cpu_centi_percent: 1234, memory_mb: 256 }));
    let s = m.get_statistics();
    assert_eq!(s.cpu_usage_centi_percent, 1234);
    assert_eq!(s.memory_usage_mb, 256);
    // an unavailable probe stores the fixed placeholder
    m.update_system_resources(None);
    let s = m.get_statistics();
    assert_eq!(s.cpu_usage_centi_percent, 3000);
    assert_eq!(s.memory_usage_mb, 500);
}

#[test]
fn remove_miner_is_idempotent() {
    let mut m = StatusMonitor::new();
    m.update_miner("frank".to_string(), 2);
    assert_eq!(m.miner_count(), 1);
    m.remove_miner("frank");
    m.remove_miner("frank");
    assert_eq!(m.miner_count(), 0);
    assert_eq!(m.get_miner_session_id("frank"), None);
}

#[test]
fn upsert_updates_thread_count() {
    let mut m = StatusMonitor::new();
    m.update_miner("grace".to_string(), 2);
    assert_eq!(m.total_threads(), 2);
    m.update_miner("grace".to_string(), 9);
    assert_eq!(m.total_threads(), 9);
    assert_eq!(m.miner_count(), 1);
}
