//! Live-status aggregation for a mining pool server: per-miner session
//! records with a connection state machine and share counters, blockchain
//! sync-progress tracking with a debounced derived status, pool-wide
//! monotonic counters, and an on-demand statistics snapshot.

pub mod config;
pub mod laws;
pub mod miner;
pub mod monitor;
pub mod registry;

pub use config::{ConfigError, EnvTunables, LibP2PConfig};
pub use miner::{MinerConnectionStatus, MinerInfo};
pub use monitor::{PoolStatistics, ResourceSample, StatusMonitor, SyncStatusCode};
