use pool_status::{ConfigError, EnvTunables, LibP2PConfig};
use pool_status::config::{
    default_failed_pings_before_close, default_kademlia_bootstrap_interval_secs,
    default_min_peers, default_peer_store_record_capacity,
};

#[test]
fn default_values() {
    let c = LibP2PConfig::default();
    assert_eq!(c.kademlia_bootstrap_interval_secs, 300);
    assert_eq!(c.force_peer_dial_interval_secs, 600);
    assert_eq!(c.swarm_idle_timeout_secs, 60);
    assert_eq!(c.initial_peer_retries, 5);
    assert_eq!(c.keep_alive_interval_secs, 10);
    assert_eq!(c.handshake_timeout_secs, 15);
    assert_eq!(c.identify_interval_secs, 60);
    assert_eq!(c.max_established_incoming_connections, 256);
    assert_eq!(c.max_established_outgoing_connections, 32);
    assert_eq!(c.max_established_connections, 290);
    assert_eq!(c.max_established_connections_per_peer, 2);
    assert_eq!(c.max_pending_incoming_connections, 64);
    assert_eq!(c.max_pending_outgoing_connections, 32);
    assert_eq!(c.min_peers, 8);
    assert_eq!(c.request_response_timeout_secs, 30);
    assert_eq!(c.request_high_threshold, 60);
    assert_eq!(c.request_high_reset_secs, 60);
    assert_eq!(c.peer_store_record_capacity, 1024);
    assert_eq!(c.peer_status_interval_secs, 300);
    assert_eq!(c.elders_debounce_reset_secs, 60);
    assert_eq!(c.seen_tx_clear_interval, 1);
    assert_eq!(c.poke_timeout_secs, 60);
    assert_eq!(c.failed_pings_before_close, 4);
}

#[test]
fn default_functions_match_constants() {
    assert_eq!(default_kademlia_bootstrap_interval_secs(), 300);
    assert_eq!(default_min_peers(), 8);
    assert_eq!(default_peer_store_record_capacity(), 1024);
    assert_eq!(default_failed_pings_before_close(), 4);
}

#[test]
fn duration_getters() {
    let c = LibP2PConfig::default();
    assert_eq!(c.kademlia_bootstrap_interval().as_secs(), 300);
    assert_eq!(c.force_peer_dial_interval().as_secs(), 600);
    assert_eq!(c.swarm_idle_timeout().as_secs(), 60);
    assert_eq!(c.keep_alive_interval().as_secs(), 10);
    assert_eq!(c.handshake_timeout().as_secs(), 15);
    assert_eq!(c.identify_interval().as_secs(), 60);
    assert_eq!(c.request_response_timeout().as_secs(), 30);
    assert_eq!(c.request_high_reset().as_secs(), 60);
    assert_eq!(c.connection_timeout().as_secs(), 60);
    assert_eq!(c.peer_status_interval_secs().as_secs(), 300);
    assert_eq!(c.elders_debounce_reset().as_secs(), 60);
    assert_eq!(c.poke_timeout().as_secs(), 60);
}

#[test]
fn plain_getters() {
    let c = LibP2PConfig::default();
    assert_eq!(c.seen_tx_clear_interval(), 1);
    assert_eq!(c.min_peers(), 8);
    assert_eq!(c.poke_timeout_secs(), 60);
    assert_eq!(c.failed_pings_before_close(), 4);
    assert_eq!(c.max_idle_timeout_millisecs(), 60_000);
    assert_eq!(c.request_response_max_concurrent_streams(), 580);
}

#[test]
fn protocol_versions_are_distinct() {
    let kad = LibP2PConfig::kad_protocol_version();
    let req = LibP2PConfig::req_res_protocol_version();
    let idf = LibP2PConfig::identify_protocol_version();
    assert_eq!(kad, "/nockchain-1-kad");
    assert_eq!(req, "/nockchain-1-req-res");
    assert_eq!(idf, "/nockchain-1-identify");
    assert_ne!(kad, req);
    assert_ne!(kad, idf);
    assert_ne!(req, idf);
}

#[test]
fn env_overrides_applied() {
    let env = EnvTunables {
        kademlia_bootstrap_interval_secs: Some("60".to_string()),
        min_peers: Some("12".to_string()),
        initial_peer_retries: Some("7".to_string()),
        ..EnvTunables::empty()
    };
    let c = LibP2PConfig::from_env(&env).unwrap();
    assert_eq!(c.kademlia_bootstrap_interval_secs, 60);
    assert_eq!(c.min_peers, 12);
    assert_eq!(c.initial_peer_retries, 7);
    // untouched tunables keep their defaults
    assert_eq!(c.swarm_idle_timeout_secs, 60);
    assert_eq!(c.peer_store_record_capacity, 1024);
}

#[test]
fn env_parse_failure_gives_error() {
    let env = EnvTunables {
        poke_timeout_secs: Some("12x".to_string()),
        ..EnvTunables::empty()
    };
    assert_eq!(LibP2PConfig::from_env(&env), Err(ConfigError::Parse));
}

#[test]
fn env_rejects_empty_sign_and_whitespace() {
    for bad in ["", "+5", " 5", "5 ", "-3"] {
        let env = EnvTunables {
            keep_alive_interval_secs: Some(bad.to_string()),
            ..EnvTunables::empty()
        };
        assert_eq!(LibP2PConfig::from_env(&env), Err(ConfigError::Parse), "input {bad:?}");
    }
}

#[test]
fn env_rejects_out_of_range() {
    // one past u32::MAX for a u32 tunable
    let env = EnvTunables {
        initial_peer_retries: Some("4294967296".to_string()),
        ..EnvTunables::empty()
    };
    assert_eq!(LibP2PConfig::from_env(&env), Err(ConfigError::Parse));
    // one past u64::MAX anywhere
    let env = EnvTunables {
        poke_timeout_secs: Some("18446744073709551616".to_string()),
        ..EnvTunables::empty()
    };
    assert_eq!(LibP2PConfig::from_env(&env), Err(ConfigError::Parse));
}

#[test]
fn env_accepts_u64_max() {
    let env = EnvTunables {
        poke_timeout_secs: Some("18446744073709551615".to_string()),
        ..EnvTunables::empty()
    };
    let c = LibP2PConfig::from_env(&env).unwrap();
    assert_eq!(c.poke_timeout_secs, u64::MAX);
}

#[test]
fn zero_peer_store_capacity_rejected() {
    let env = EnvTunables {
        peer_store_record_capacity: Some("0".to_string()),
        ..EnvTunables::empty()
    };
    assert_eq!(LibP2PConfig::from_env(&env), Err(ConfigError::Parse));
}

#[test]
fn from_env_or_default_falls_back_on_error() {
    let env = EnvTunables {
        peer_store_record_capacity: Some("0".to_string()),
        swarm_idle_timeout_secs: Some("90".to_string()),
        ..EnvTunables::empty()
    };
    // one bad override degrades the whole load to the defaults
    let c = LibP2PConfig::from_env_or_default(&env);
    assert_eq!(c, LibP2PConfig::default());
}

#[test]
fn from_env_or_default_applies_good_overrides() {
    let env = EnvTunables {
        swarm_idle_timeout_secs: Some("90".to_string()),
        ..EnvTunables::empty()
    };
    let c = LibP2PConfig::from_env_or_default(&env);
    assert_eq!(c.swarm_idle_timeout_secs, 90);
    assert_eq!(c.connection_timeout().as_secs(), 90);
    assert_eq!(c.max_idle_timeout_millisecs(), 90_000);
}
