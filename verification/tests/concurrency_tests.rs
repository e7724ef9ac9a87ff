use std::sync::Arc;

use pool_status::StatusMonitor;
use tokio::sync::RwLock;

#[test]
fn concurrent_blocks_found_increments_are_not_lost() {
    let rt = tokio::runtime::Builder::new_current_thread()
        .enable_all()
        .build()
        .unwrap();
    let monitor = Arc::new(RwLock::new(StatusMonitor::new()));
    rt.block_on(async {
        let mut handles = Vec::new();
        for _ in 0..8 {
            let m = monitor.clone();
            handles.push(tokio::spawn(async move {
                for _ in 0..50 {
                    m.write().await.increment_blocks_found();
                    tokio::task::yield_now().await;
                }
            }));
        }
        for h in handles {
            h.await.unwrap();
        }
    });
    let s = rt.block_on(async { monitor.read().await.get_statistics() });
    assert_eq!(s.blocks_found, 400);
}

#[test]
fn concurrent_share_records_keep_the_bound() {
    let rt = tokio::runtime::Builder::new_current_thread()
        .enable_all()
        .build()
        .unwrap();
    let monitor = Arc::new(RwLock::new(StatusMonitor::new()));
    rt.block_on(async {
        monitor.write().await.update_miner("worker".to_string(), 2);
        let mut handles = Vec::new();
        for task in 0..4 {
            let m = monitor.clone();
            handles.push(tokio::spawn(async move {
                for round in 0..25 {
                    m.write().await.increment_miner_share("worker", (task + round) % 2 == 0);
                    tokio::task::yield_now().await;
                }
            }));
        }
        for h in handles {
            h.await.unwrap();
        }
    });
    let (submitted, accepted) = rt
        .block_on(async { monitor.read().await.get_miner_shares("worker") })
        .unwrap();
    assert_eq!(submitted, 100);
    assert!(accepted <= submitted);
}
