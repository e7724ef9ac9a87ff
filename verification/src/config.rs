//! Named network tunables with compiled-in defaults.
//!
//! Every tunable can be overridden from the environment: the caller collects
//! the raw override strings (one optional string per tunable) into
//! [`EnvTunables`] and hands them to [`LibP2PConfig::from_env`], which parses
//! each override as a decimal number and falls back to the compiled-in
//! default where no override is present.  Any override that does not parse,
//! or that violates a tunable's own constraint (the peer-store capacity must
//! be non-zero), makes the whole load fail; [`LibP2PConfig::from_env_or_default`]
//! then degrades silently to the full default configuration.

use vstd::prelude::*;
use core::time::Duration;

verus! {

/// Kademlia bootstrap period, seconds.
pub const KADEMLIA_BOOTSTRAP_INTERVAL_SECS: u64 = 300;

/// Forced dial period for peers given on the command line, seconds.
pub const FORCE_PEER_DIAL_INTERVAL_SECS: u64 = 600;

/// How long a peer connection is kept alive with no traffic, seconds.
pub const SWARM_IDLE_TIMEOUT_SECS: u64 = 60;

/// How many times dialing the initial peers is retried.
pub const INITIAL_PEER_RETRIES: u32 = 5;

/// Keep-alive message period, seconds.
pub const KEEP_ALIVE_INTERVAL_SECS: u64 = 10;

/// Handshake timeout, seconds.
pub const HANDSHAKE_TIMEOUT_SECS: u64 = 15;

/// Identify message period, seconds.
pub const IDENTIFY_INTERVAL_SECS: u64 = 60;

/// Maximum number of established incoming connections.
pub const MAX_ESTABLISHED_INCOMING_CONNECTIONS: u32 = 256;

/// Maximum number of established outgoing connections.
pub const MAX_ESTABLISHED_OUTGOING_CONNECTIONS: u32 = 32;

/// Maximum number of established connections.
pub const MAX_ESTABLISHED_CONNECTIONS: u32 = 290;

/// Maximum number of established connections with a single peer.
pub const MAX_ESTABLISHED_CONNECTIONS_PER_PEER: u32 = 2;

/// Maximum pending incoming connections.
pub const MAX_PENDING_INCOMING_CONNECTIONS: u32 = 64;

/// Maximum pending outgoing connections.
pub const MAX_PENDING_OUTGOING_CONNECTIONS: u32 = 32;

/// Minimum number of peers.
pub const MIN_PEERS: usize = 8;

/// Request/response timeout, seconds.
pub const REQUEST_RESPONSE_TIMEOUT_SECS: u64 = 30;

/// Threshold of outstanding requests considered "high".
pub const REQUEST_HIGH_THRESHOLD: u64 = 60;

/// Reset window for the request-high threshold, seconds.
pub const REQUEST_HIGH_RESET_SECS: u64 = 60;

/// Reset period for the elders debounce, seconds.
pub const ELDERS_DEBOUNCE_RESET_SECS: u64 = 60;

/// The seen-transaction cache clears after this many new heaviest-chain blocks.
pub const SEEN_TX_CLEAR_INTERVAL: u64 = 1;

/// Maximum number of records in the peer store; must stay non-zero.
pub const PEER_STORE_RECORD_CAPACITY: usize = 1024;

/// Period for logging peer status, seconds.
pub const PEER_STATUS_INTERVAL_SECS: u64 = 300;

/// Timeout for network-originating pokes, seconds.
pub const POKE_TIMEOUT_SECS: u64 = 60;

/// Number of failed pings before a connection is closed.
pub const FAILED_PINGS_BEFORE_CLOSE: u64 = 4;

pub fn default_kademlia_bootstrap_interval_secs() -> (r: u64)
    ensures r == KADEMLIA_BOOTSTRAP_INTERVAL_SECS,
{
    KADEMLIA_BOOTSTRAP_INTERVAL_SECS
}

pub fn default_force_peer_dial_interval_secs() -> (r: u64)
    ensures r == FORCE_PEER_DIAL_INTERVAL_SECS,
{
    FORCE_PEER_DIAL_INTERVAL_SECS
}

pub fn default_swarm_idle_timeout_secs() -> (r: u64)
    ensures r == SWARM_IDLE_TIMEOUT_SECS,
{
    SWARM_IDLE_TIMEOUT_SECS
}

pub fn default_initial_peer_retries() -> (r: u32)
    ensures r == INITIAL_PEER_RETRIES,
{
    INITIAL_PEER_RETRIES
}

pub fn default_keep_alive_interval_secs() -> (r: u64)
    ensures r == KEEP_ALIVE_INTERVAL_SECS,
{
    KEEP_ALIVE_INTERVAL_SECS
}

pub fn default_handshake_timeout_secs() -> (r: u64)
    ensures r == HANDSHAKE_TIMEOUT_SECS,
{
    HANDSHAKE_TIMEOUT_SECS
}

pub fn default_identify_interval_secs() -> (r: u64)
    ensures r == IDENTIFY_INTERVAL_SECS,
{
    IDENTIFY_INTERVAL_SECS
}

pub fn default_max_established_incoming_connections() -> (r: u32)
    ensures r == MAX_ESTABLISHED_INCOMING_CONNECTIONS,
{
    MAX_ESTABLISHED_INCOMING_CONNECTIONS
}

pub fn default_max_established_outgoing_connections() -> (r: u32)
    ensures r == MAX_ESTABLISHED_OUTGOING_CONNECTIONS,
{
    MAX_ESTABLISHED_OUTGOING_CONNECTIONS
}

pub fn default_max_established_connections() -> (r: u32)
    ensures r == MAX_ESTABLISHED_CONNECTIONS,
{
    MAX_ESTABLISHED_CONNECTIONS
}

pub fn default_max_established_connections_per_peer() -> (r: u32)
    ensures r == MAX_ESTABLISHED_CONNECTIONS_PER_PEER,
{
    MAX_ESTABLISHED_CONNECTIONS_PER_PEER
}

pub fn default_max_pending_incoming_connections() -> (r: u32)
    ensures r == MAX_PENDING_INCOMING_CONNECTIONS,
{
    MAX_PENDING_INCOMING_CONNECTIONS
}

pub fn default_max_pending_outgoing_connections() -> (r: u32)
    ensures r == MAX_PENDING_OUTGOING_CONNECTIONS,
{
    MAX_PENDING_OUTGOING_CONNECTIONS
}

pub fn default_min_peers() -> (r: usize)
    ensures r == MIN_PEERS,
{
    MIN_PEERS
}

pub fn default_request_response_timeout_secs() -> (r: u64)
    ensures r == REQUEST_RESPONSE_TIMEOUT_SECS,
{
    REQUEST_RESPONSE_TIMEOUT_SECS
}

pub fn default_request_high_threshold() -> (r: u64)
    ensures r == REQUEST_HIGH_THRESHOLD,
{
    REQUEST_HIGH_THRESHOLD
}

pub fn default_request_high_reset_secs() -> (r: u64)
    ensures r == REQUEST_HIGH_RESET_SECS,
{
    REQUEST_HIGH_RESET_SECS
}

pub fn default_peer_store_record_capacity() -> (r: usize)
    ensures r == PEER_STORE_RECORD_CAPACITY, r > 0,
{
    PEER_STORE_RECORD_CAPACITY
}

pub fn default_peer_status_interval_secs() -> (r: u64)
    ensures r == PEER_STATUS_INTERVAL_SECS,
{
    PEER_STATUS_INTERVAL_SECS
}

pub fn default_elders_debounce_reset_secs() -> (r: u64)
    ensures r == ELDERS_DEBOUNCE_RESET_SECS,
{
    ELDERS_DEBOUNCE_RESET_SECS
}

pub fn default_seen_tx_clear_interval() -> (r: u64)
    ensures r == SEEN_TX_CLEAR_INTERVAL,
{
    SEEN_TX_CLEAR_INTERVAL
}

pub fn default_poke_timeout_secs() -> (r: u64)
    ensures r == POKE_TIMEOUT_SECS,
{
    POKE_TIMEOUT_SECS
}

pub fn default_failed_pings_before_close() -> (r: u64)
    ensures r == FAILED_PINGS_BEFORE_CLOSE,
{
    FAILED_PINGS_BEFORE_CLOSE
}

/// Time span of a [`Duration`], in whole milliseconds.
pub uninterp spec fn duration_millis(d: Duration) -> int;

/// Relies on core::time::Duration::from_secs: a duration of exactly the
/// given number of seconds, with no fractional part.
pub assume_specification[ Duration::from_secs ](secs: u64) -> (r: Duration)
    ensures
        duration_millis(r) == secs * 1000,
;

/// Relies on core::time::Duration::as_millis: the whole milliseconds of the
/// duration.
pub assume_specification[ Duration::as_millis ](d: &Duration) -> (r: u128)
    ensures
        r as int == duration_millis(*d),
;

/// The error of a failed configuration load.
#[derive(Clone, Copy, Debug, PartialEq, Eq, Structural)]
pub enum ConfigError {
    /// An override was present but was not a decimal number in range, or
    /// violated a tunable's own constraint.
    Parse,
}

/// The raw environment overrides, one optional string per tunable, already
/// read from the process environment by the caller.
#[derive(Clone, Debug)]
pub struct EnvTunables {
    pub kademlia_bootstrap_interval_secs: Option<String>,
    pub force_peer_dial_interval_secs: Option<String>,
    pub swarm_idle_timeout_secs: Option<String>,
    pub initial_peer_retries: Option<String>,
    pub keep_alive_interval_secs: Option<String>,
    pub handshake_timeout_secs: Option<String>,
    pub identify_interval_secs: Option<String>,
    pub max_established_incoming_connections: Option<String>,
    pub max_established_outgoing_connections: Option<String>,
    pub max_established_connections: Option<String>,
    pub max_established_connections_per_peer: Option<String>,
    pub max_pending_incoming_connections: Option<String>,
    pub max_pending_outgoing_connections: Option<String>,
    pub min_peers: Option<String>,
    pub request_response_timeout_secs: Option<String>,
    pub request_high_threshold: Option<String>,
    pub request_high_reset_secs: Option<String>,
    pub peer_store_record_capacity: Option<String>,
    pub peer_status_interval_secs: Option<String>,
    pub elders_debounce_reset_secs: Option<String>,
    pub seen_tx_clear_interval: Option<String>,
    pub poke_timeout_secs: Option<String>,
    pub failed_pings_before_close: Option<String>,
}

impl EnvTunables {
    /// No overrides at all: every tunable keeps its default.
    pub fn empty() -> (r: EnvTunables)
        ensures r == EnvTunables::spec_empty(),
    {
        EnvTunables {
            kademlia_bootstrap_interval_secs: None,
            force_peer_dial_interval_secs: None,
            swarm_idle_timeout_secs: None,
            initial_peer_retries: None,
            keep_alive_interval_secs: None,
            handshake_timeout_secs: None,
            identify_interval_secs: None,
            max_established_incoming_connections: None,
            max_established_outgoing_connections: None,
            max_established_connections: None,
            max_established_connections_per_peer: None,
            max_pending_incoming_connections: None,
            max_pending_outgoing_connections: None,
            min_peers: None,
            request_response_timeout_secs: None,
            request_high_threshold: None,
            request_high_reset_secs: None,
            peer_store_record_capacity: None,
            peer_status_interval_secs: None,
            elders_debounce_reset_secs: None,
            seen_tx_clear_interval: None,
            poke_timeout_secs: None,
            failed_pings_before_close: None,
        }
    }

    pub open spec fn spec_empty() -> EnvTunables {
        EnvTunables {
            kademlia_bootstrap_interval_secs: None,
            force_peer_dial_interval_secs: None,
            swarm_idle_timeout_secs: None,
            initial_peer_retries: None,
            keep_alive_interval_secs: None,
            handshake_timeout_secs: None,
            identify_interval_secs: None,
            max_established_incoming_connections: None,
            max_established_outgoing_connections: None,
            max_established_connections: None,
            max_established_connections_per_peer: None,
            max_pending_incoming_connections: None,
            max_pending_outgoing_connections: None,
            min_peers: None,
            request_response_timeout_secs: None,
            request_high_threshold: None,
            request_high_reset_secs: None,
            peer_store_record_capacity: None,
            peer_status_interval_secs: None,
            elders_debounce_reset_secs: None,
            seen_tx_clear_interval: None,
            poke_timeout_secs: None,
            failed_pings_before_close: None,
        }
    }
}

/// Whether `c` is an ASCII decimal digit.
pub open spec fn is_dec_digit(c: char) -> bool {
    48 <= c as u32 <= 57
}

/// Whether `s` is a non-empty string of ASCII decimal digits.
pub open spec fn is_digits(s: Seq<char>) -> bool {
    s.len() > 0 && forall|i: int| 0 <= i < s.len() ==> is_dec_digit(#[trigger] s[i])
}

/// The number denoted by a digit string, most significant digit first.
pub open spec fn digits_val(s: Seq<char>) -> int
    decreases s.len(),
{
    if s.len() == 0 {
        0
    } else {
        digits_val(s.drop_last()) * 10 + (s.last() as u32 - 48)
    }
}

/// The number denoted by `s`, if `s` is a digit string whose value fits in
/// a `u64`; `None` otherwise.
pub open spec fn parse_u64_spec(s: Seq<char>) -> Option<u64> {
    if is_digits(s) && digits_val(s) <= u64::MAX {
        Some(digits_val(s) as u64)
    } else {
        None
    }
}

proof fn lemma_digits_val_nonneg(s: Seq<char>)
    requires
        forall|i: int| 0 <= i < s.len() ==> is_dec_digit(#[trigger] s[i]),
    ensures
        digits_val(s) >= 0,
    decreases s.len(),
{
    if s.len() > 0 {
        lemma_digits_val_nonneg(s.drop_last());
    }
}

proof fn lemma_digits_val_prefix_le(s: Seq<char>, j: int)
    requires
        forall|i: int| 0 <= i < s.len() ==> is_dec_digit(#[trigger] s[i]),
        0 <= j <= s.len(),
    ensures
        digits_val(s.take(j)) <= digits_val(s),
    decreases s.len(),
{
    if j == s.len() {
        assert(s.take(j) =~= s);
    } else {
        assert(s.drop_last().take(j) =~= s.take(j));
        lemma_digits_val_prefix_le(s.drop_last(), j);
        lemma_digits_val_nonneg(s.drop_last());
    }
}

/// Parses a non-empty all-digit decimal string into a `u64`; rejects
/// anything else, including values above `u64::MAX`.
pub fn parse_u64(s: &str) -> (r: Option<u64>)
    ensures
        r == parse_u64_spec(s@),
{
    let n = s.unicode_len();
    if n == 0 {
        return None;
    }
    let mut val: u64 = 0;
    let mut i: usize = 0;
    while i < n
        invariant
            0 < n,
            n as nat == s@.len(),
            0 <= i <= n,
            forall|j: int| 0 <= j < i ==> is_dec_digit(#[trigger] s@[j]),
            val == digits_val(s@.take(i as int)),
        decreases n - i,
    {
        let c = s.get_char(i);
        let d = c as u32;
        if d < 48 || d > 57 {
            return None;
        }
        let digit = (d - 48) as u64;
        proof {
            assert(s@.take(i + 1).drop_last() =~= s@.take(i as int));
            assert(s@.take(i + 1).last() == s@[i as int]);
        }
        if val > (u64::MAX - digit) / 10 {
            proof {
                assert(digits_val(s@.take(i + 1)) > u64::MAX);
                if is_digits(s@) {
                    lemma_digits_val_prefix_le(s@, i + 1);
                }
            }
            return None;
        }
        val = val * 10 + digit;
        i = i + 1;
    }
    proof {
        assert(s@.take(n as int) =~= s@);
    }
    Some(val)
}

/// The resolved value of one `u64` tunable: the default when no override is
/// present, the parsed override otherwise, `None` on a parse failure.
pub open spec fn spec_resolve_u64(o: Option<String>, d: u64) -> Option<u64> {
    match o {
        None => Some(d),
        Some(s) => parse_u64_spec(s@),
    }
}

/// As [`spec_resolve_u64`], further rejecting values above `u32::MAX`.
pub open spec fn spec_resolve_u32(o: Option<String>, d: u32) -> Option<u32> {
    match spec_resolve_u64(o, d as u64) {
        None => None,
        Some(v) => if v <= u32::MAX { Some(v as u32) } else { None },
    }
}

/// As [`spec_resolve_u64`], further rejecting values above `usize::MAX`.
pub open spec fn spec_resolve_usize(o: Option<String>, d: usize) -> Option<usize> {
    match spec_resolve_u64(o, d as u64) {
        None => None,
        Some(v) => if v <= usize::MAX { Some(v as usize) } else { None },
    }
}

fn resolve_u64(o: &Option<String>, d: u64) -> (r: Option<u64>)
    ensures
        r == spec_resolve_u64(*o, d),
{
    match o {
        None => Some(d),
        Some(s) => parse_u64(s.as_str()),
    }
}

fn resolve_u32(o: &Option<String>, d: u32) -> (r: Option<u32>)
    ensures
        r == spec_resolve_u32(*o, d),
{
    match resolve_u64(o, d as u64) {
        None => None,
        Some(v) => if v <= u32::MAX as u64 { Some(v as u32) } else { None },
    }
}

fn resolve_usize(o: &Option<String>, d: usize) -> (r: Option<usize>)
    ensures
        r == spec_resolve_usize(*o, d),
{
    match resolve_u64(o, d as u64) {
        None => None,
        Some(v) => if v <= usize::MAX as u64 { Some(v as usize) } else { None },
    }
}

/// Network tunables, with compiled-in defaults overridable from the
/// environment.  The peer-store record capacity must stay non-zero:
/// [`LibP2PConfig::wf`].
#[derive(Clone, Debug, PartialEq, Eq, Structural)]
pub struct LibP2PConfig {
    /// Kademlia bootstrap period, seconds.
    pub kademlia_bootstrap_interval_secs: u64,
    /// Forced dial period for forced peers, seconds.
    pub force_peer_dial_interval_secs: u64,
    /// Idle timeout of a peer connection, seconds.
    pub swarm_idle_timeout_secs: u64,
    /// Retries of the initial peer dial.
    pub initial_peer_retries: u32,
    /// Keep-alive message period, seconds.
    pub keep_alive_interval_secs: u64,
    /// Handshake timeout, seconds.
    pub handshake_timeout_secs: u64,
    /// Identify message period, seconds.
    pub identify_interval_secs: u64,
    /// Maximum established incoming connections.
    pub max_established_incoming_connections: u32,
    /// Maximum established outgoing connections.
    pub max_established_outgoing_connections: u32,
    /// Maximum established connections.
    pub max_established_connections: u32,
    /// Maximum established connections with a single peer.
    pub max_established_connections_per_peer: u32,
    /// Maximum pending incoming connections.
    pub max_pending_incoming_connections: u32,
    /// Maximum pending outgoing connections.
    pub max_pending_outgoing_connections: u32,
    /// Minimum number of peers.
    pub min_peers: usize,
    /// Request/response timeout, seconds.
    pub request_response_timeout_secs: u64,
    /// Threshold of outstanding requests considered "high".
    pub request_high_threshold: u64,
    /// Reset window for the request-high threshold, seconds.
    pub request_high_reset_secs: u64,
    /// Maximum number of records in the peer store; never zero.
    pub peer_store_record_capacity: usize,
    /// Period for logging peer status, seconds.
    pub peer_status_interval_secs: u64,
    /// Reset period for the elders debounce, seconds.
    pub elders_debounce_reset_secs: u64,
    /// The seen-transaction cache clears after this many new blocks.
    pub seen_tx_clear_interval: u64,
    /// Timeout for pokes, seconds.
    pub poke_timeout_secs: u64,
    /// Failed pings before a connection is closed.
    pub failed_pings_before_close: u64,
}

impl LibP2PConfig {
    /// The one constraint a configuration must keep.
    pub open spec fn wf(&self) -> bool {
        self.peer_store_record_capacity > 0
    }

    /// The compiled-in default configuration.
    pub open spec fn spec_default() -> LibP2PConfig {
        LibP2PConfig {
            kademlia_bootstrap_interval_secs: KADEMLIA_BOOTSTRAP_INTERVAL_SECS,
            force_peer_dial_interval_secs: FORCE_PEER_DIAL_INTERVAL_SECS,
            swarm_idle_timeout_secs: SWARM_IDLE_TIMEOUT_SECS,
            initial_peer_retries: INITIAL_PEER_RETRIES,
            keep_alive_interval_secs: KEEP_ALIVE_INTERVAL_SECS,
            handshake_timeout_secs: HANDSHAKE_TIMEOUT_SECS,
            identify_interval_secs: IDENTIFY_INTERVAL_SECS,
            max_established_incoming_connections: MAX_ESTABLISHED_INCOMING_CONNECTIONS,
            max_established_outgoing_connections: MAX_ESTABLISHED_OUTGOING_CONNECTIONS,
            max_established_connections: MAX_ESTABLISHED_CONNECTIONS,
            max_established_connections_per_peer: MAX_ESTABLISHED_CONNECTIONS_PER_PEER,
            max_pending_incoming_connections: MAX_PENDING_INCOMING_CONNECTIONS,
            max_pending_outgoing_connections: MAX_PENDING_OUTGOING_CONNECTIONS,
            min_peers: MIN_PEERS,
            request_response_timeout_secs: REQUEST_RESPONSE_TIMEOUT_SECS,
            request_high_threshold: REQUEST_HIGH_THRESHOLD,
            request_high_reset_secs: REQUEST_HIGH_RESET_SECS,
            peer_store_record_capacity: PEER_STORE_RECORD_CAPACITY,
            peer_status_interval_secs: PEER_STATUS_INTERVAL_SECS,
            elders_debounce_reset_secs: ELDERS_DEBOUNCE_RESET_SECS,
            seen_tx_clear_interval: SEEN_TX_CLEAR_INTERVAL,
            poke_timeout_secs: POKE_TIMEOUT_SECS,
            failed_pings_before_close: FAILED_PINGS_BEFORE_CLOSE,
        }
    }

    /// Whether every override present in `e` resolves.
    pub open spec fn env_ok(e: EnvTunables) -> bool {
        &&& spec_resolve_u64(e.kademlia_bootstrap_interval_secs, KADEMLIA_BOOTSTRAP_INTERVAL_SECS) is Some
        &&& spec_resolve_u64(e.force_peer_dial_interval_secs, FORCE_PEER_DIAL_INTERVAL_SECS) is Some
        &&& spec_resolve_u64(e.swarm_idle_timeout_secs, SWARM_IDLE_TIMEOUT_SECS) is Some
        &&& spec_resolve_u32(e.initial_peer_retries, INITIAL_PEER_RETRIES) is Some
        &&& spec_resolve_u64(e.keep_alive_interval_secs, KEEP_ALIVE_INTERVAL_SECS) is Some
        &&& spec_resolve_u64(e.handshake_timeout_secs, HANDSHAKE_TIMEOUT_SECS) is Some
        &&& spec_resolve_u64(e.identify_interval_secs, IDENTIFY_INTERVAL_SECS) is Some
        &&& spec_resolve_u32(e.max_established_incoming_connections, MAX_ESTABLISHED_INCOMING_CONNECTIONS) is Some
        &&& spec_resolve_u32(e.max_established_outgoing_connections, MAX_ESTABLISHED_OUTGOING_CONNECTIONS) is Some
        &&& spec_resolve_u32(e.max_established_connections, MAX_ESTABLISHED_CONNECTIONS) is Some
        &&& spec_resolve_u32(e.max_established_connections_per_peer, MAX_ESTABLISHED_CONNECTIONS_PER_PEER) is Some
        &&& spec_resolve_u32(e.max_pending_incoming_connections, MAX_PENDING_INCOMING_CONNECTIONS) is Some
        &&& spec_resolve_u32(e.max_pending_outgoing_connections, MAX_PENDING_OUTGOING_CONNECTIONS) is Some
        &&& spec_resolve_usize(e.min_peers, MIN_PEERS) is Some
        &&& spec_resolve_u64(e.request_response_timeout_secs, REQUEST_RESPONSE_TIMEOUT_SECS) is Some
        &&& spec_resolve_u64(e.request_high_threshold, REQUEST_HIGH_THRESHOLD) is Some
        &&& spec_resolve_u64(e.request_high_reset_secs, REQUEST_HIGH_RESET_SECS) is Some
        &&& {
            let cap = spec_resolve_usize(e.peer_store_record_capacity, PEER_STORE_RECORD_CAPACITY);
            cap is Some && cap->0 > 0
        }
        &&& spec_resolve_u64(e.peer_status_interval_secs, PEER_STATUS_INTERVAL_SECS) is Some
        &&& spec_resolve_u64(e.elders_debounce_reset_secs, ELDERS_DEBOUNCE_RESET_SECS) is Some
        &&& spec_resolve_u64(e.seen_tx_clear_interval, SEEN_TX_CLEAR_INTERVAL) is Some
        &&& spec_resolve_u64(e.poke_timeout_secs, POKE_TIMEOUT_SECS) is Some
        &&& spec_resolve_u64(e.failed_pings_before_close, FAILED_PINGS_BEFORE_CLOSE) is Some
    }

    /// The configuration that `e` resolves to, when [`LibP2PConfig::env_ok`]
    /// holds of `e`.
    pub open spec fn spec_from_env(e: EnvTunables) -> LibP2PConfig {
        LibP2PConfig {
            kademlia_bootstrap_interval_secs: spec_resolve_u64(e.kademlia_bootstrap_interval_secs, KADEMLIA_BOOTSTRAP_INTERVAL_SECS)->0,
            force_peer_dial_interval_secs: spec_resolve_u64(e.force_peer_dial_interval_secs, FORCE_PEER_DIAL_INTERVAL_SECS)->0,
            swarm_idle_timeout_secs: spec_resolve_u64(e.swarm_idle_timeout_secs, SWARM_IDLE_TIMEOUT_SECS)->0,
            initial_peer_retries: spec_resolve_u32(e.initial_peer_retries, INITIAL_PEER_RETRIES)->0,
            keep_alive_interval_secs: spec_resolve_u64(e.keep_alive_interval_secs, KEEP_ALIVE_INTERVAL_SECS)->0,
            handshake_timeout_secs: spec_resolve_u64(e.handshake_timeout_secs, HANDSHAKE_TIMEOUT_SECS)->0,
            identify_interval_secs: spec_resolve_u64(e.identify_interval_secs, IDENTIFY_INTERVAL_SECS)->0,
            max_established_incoming_connections: spec_resolve_u32(e.max_established_incoming_connections, MAX_ESTABLISHED_INCOMING_CONNECTIONS)->0,
            max_established_outgoing_connections: spec_resolve_u32(e.max_established_outgoing_connections, MAX_ESTABLISHED_OUTGOING_CONNECTIONS)->0,
            max_established_connections: spec_resolve_u32(e.max_established_connections, MAX_ESTABLISHED_CONNECTIONS)->0,
            max_established_connections_per_peer: spec_resolve_u32(e.max_established_connections_per_peer, MAX_ESTABLISHED_CONNECTIONS_PER_PEER)->0,
            max_pending_incoming_connections: spec_resolve_u32(e.max_pending_incoming_connections, MAX_PENDING_INCOMING_CONNECTIONS)->0,
            max_pending_outgoing_connections: spec_resolve_u32(e.max_pending_outgoing_connections, MAX_PENDING_OUTGOING_CONNECTIONS)->0,
            min_peers: spec_resolve_usize(e.min_peers, MIN_PEERS)->0,
            request_response_timeout_secs: spec_resolve_u64(e.request_response_timeout_secs, REQUEST_RESPONSE_TIMEOUT_SECS)->0,
            request_high_threshold: spec_resolve_u64(e.request_high_threshold, REQUEST_HIGH_THRESHOLD)->0,
            request_high_reset_secs: spec_resolve_u64(e.request_high_reset_secs, REQUEST_HIGH_RESET_SECS)->0,
            peer_store_record_capacity: spec_resolve_usize(e.peer_store_record_capacity, PEER_STORE_RECORD_CAPACITY)->0,
            peer_status_interval_secs: spec_resolve_u64(e.peer_status_interval_secs, PEER_STATUS_INTERVAL_SECS)->0,
            elders_debounce_reset_secs: spec_resolve_u64(e.elders_debounce_reset_secs, ELDERS_DEBOUNCE_RESET_SECS)->0,
            seen_tx_clear_interval: spec_resolve_u64(e.seen_tx_clear_interval, SEEN_TX_CLEAR_INTERVAL)->0,
            poke_timeout_secs: spec_resolve_u64(e.poke_timeout_secs, POKE_TIMEOUT_SECS)->0,
            failed_pings_before_close: spec_resolve_u64(e.failed_pings_before_close, FAILED_PINGS_BEFORE_CLOSE)->0,
        }
    }

    /// Loads the configuration from the collected environment overrides.
    /// Fails if and only if some override does not resolve.
    pub fn from_env(env: &EnvTunables) -> (r: Result<LibP2PConfig, ConfigError>)
        ensures
            LibP2PConfig::env_ok(*env) ==> r == Result::<LibP2PConfig, ConfigError>::Ok(LibP2PConfig::spec_from_env(*env)),
            !LibP2PConfig::env_ok(*env) ==> r == Result::<LibP2PConfig, ConfigError>::Err(ConfigError::Parse),
            r matches Ok(c) ==> c.wf(),
    {
        let kademlia_bootstrap_interval_secs = match resolve_u64(&env.kademlia_bootstrap_interval_secs, KADEMLIA_BOOTSTRAP_INTERVAL_SECS) {
            Some(v) => v,
            None => return Err(ConfigError::Parse),
        };
        let force_peer_dial_interval_secs = match resolve_u64(&env.force_peer_dial_interval_secs, FORCE_PEER_DIAL_INTERVAL_SECS) {
            Some(v) => v,
            None => return Err(ConfigError::Parse),
        };
        let swarm_idle_timeout_secs = match resolve_u64(&env.swarm_idle_timeout_secs, SWARM_IDLE_TIMEOUT_SECS) {
            Some(v) => v,
            None => return Err(ConfigError::Parse),
        };
        let initial_peer_retries = match resolve_u32(&env.initial_peer_retries, INITIAL_PEER_RETRIES) {
            Some(v) => v,
            None => return Err(ConfigError::Parse),
        };
        let keep_alive_interval_secs = match resolve_u64(&env.keep_alive_interval_secs, KEEP_ALIVE_INTERVAL_SECS) {
            Some(v) => v,
            None => return Err(ConfigError::Parse),
        };
        let handshake_timeout_secs = match resolve_u64(&env.handshake_timeout_secs, HANDSHAKE_TIMEOUT_SECS) {
            Some(v) => v,
            None => return Err(ConfigError::Parse),
        };
        let identify_interval_secs = match resolve_u64(&env.identify_interval_secs, IDENTIFY_INTERVAL_SECS) {
            Some(v) => v,
            None => return Err(ConfigError::Parse),
        };
        let max_established_incoming_connections = match resolve_u32(&env.max_established_incoming_connections, MAX_ESTABLISHED_INCOMING_CONNECTIONS) {
            Some(v) => v,
            None => return Err(ConfigError::Parse),
        };
        let max_established_outgoing_connections = match resolve_u32(&env.max_established_outgoing_connections, MAX_ESTABLISHED_OUTGOING_CONNECTIONS) {
            Some(v) => v,
            None => return Err(ConfigError::Parse),
        };
        let max_established_connections = match resolve_u32(&env.max_established_connections, MAX_ESTABLISHED_CONNECTIONS) {
            Some(v) => v,
            None => return Err(ConfigError::Parse),
        };
        let max_established_connections_per_peer = match resolve_u32(&env.max_established_connections_per_peer, MAX_ESTABLISHED_CONNECTIONS_PER_PEER) {
            Some(v) => v,
            None => return Err(ConfigError::Parse),
        };
        let max_pending_incoming_connections = match resolve_u32(&env.max_pending_incoming_connections, MAX_PENDING_INCOMING_CONNECTIONS) {
            Some(v) => v,
            None => return Err(ConfigError::Parse),
        };
        let max_pending_outgoing_connections = match resolve_u32(&env.max_pending_outgoing_connections, MAX_PENDING_OUTGOING_CONNECTIONS) {
            Some(v) => v,
            None => return Err(ConfigError::Parse),
        };
        let min_peers = match resolve_usize(&env.min_peers, MIN_PEERS) {
            Some(v) => v,
            None => return Err(ConfigError::Parse),
        };
        let request_response_timeout_secs = match resolve_u64(&env.request_response_timeout_secs, REQUEST_RESPONSE_TIMEOUT_SECS) {
            Some(v) => v,
            None => return Err(ConfigError::Parse),
        };
        let request_high_threshold = match resolve_u64(&env.request_high_threshold, REQUEST_HIGH_THRESHOLD) {
            Some(v) => v,
            None => return Err(ConfigError::Parse),
        };
        let request_high_reset_secs = match resolve_u64(&env.request_high_reset_secs, REQUEST_HIGH_RESET_SECS) {
            Some(v) => v,
            None => return Err(ConfigError::Parse),
        };
        let peer_store_record_capacity = match resolve_usize(&env.peer_store_record_capacity, PEER_STORE_RECORD_CAPACITY) {
            Some(v) => if v > 0 { v } else { return Err(ConfigError::Parse) },
            None => return Err(ConfigError::Parse),
        };
        let peer_status_interval_secs = match resolve_u64(&env.peer_status_interval_secs, PEER_STATUS_INTERVAL_SECS) {
            Some(v) => v,
            None => return Err(ConfigError::Parse),
        };
        let elders_debounce_reset_secs = match resolve_u64(&env.elders_debounce_reset_secs, ELDERS_DEBOUNCE_RESET_SECS) {
            Some(v) => v,
            None => return Err(ConfigError::Parse),
        };
        let seen_tx_clear_interval = match resolve_u64(&env.seen_tx_clear_interval, SEEN_TX_CLEAR_INTERVAL) {
            Some(v) => v,
            None => return Err(ConfigError::Parse),
        };
        let poke_timeout_secs = match resolve_u64(&env.poke_timeout_secs, POKE_TIMEOUT_SECS) {
            Some(v) => v,
            None => return Err(ConfigError::Parse),
        };
        let failed_pings_before_close = match resolve_u64(&env.failed_pings_before_close, FAILED_PINGS_BEFORE_CLOSE) {
            Some(v) => v,
            None => return Err(ConfigError::Parse),
        };
        Ok(LibP2PConfig {
            kademlia_bootstrap_interval_secs,
            force_peer_dial_interval_secs,
            swarm_idle_timeout_secs,
            initial_peer_retries,
            keep_alive_interval_secs,
            handshake_timeout_secs,
            identify_interval_secs,
            max_established_incoming_connections,
            max_established_outgoing_connections,
            max_established_connections,
            max_established_connections_per_peer,
            max_pending_incoming_connections,
            max_pending_outgoing_connections,
            min_peers,
            request_response_timeout_secs,
            request_high_threshold,
            request_high_reset_secs,
            peer_store_record_capacity,
            peer_status_interval_secs,
            elders_debounce_reset_secs,
            seen_tx_clear_interval,
            poke_timeout_secs,
            failed_pings_before_close,
        })
    }

    /// Loads the configuration from the collected environment overrides,
    /// degrading silently to the full default configuration on any failure.
    pub fn from_env_or_default(env: &EnvTunables) -> (r: LibP2PConfig)
        ensures
            LibP2PConfig::env_ok(*env) ==> r == LibP2PConfig::spec_from_env(*env),
            !LibP2PConfig::env_ok(*env) ==> r == LibP2PConfig::spec_default(),
            r.wf(),
    {
        match LibP2PConfig::from_env(env) {
            Ok(c) => c,
            Err(_) => LibP2PConfig::default(),
        }
    }

    /// Kademlia protocol version; must be unique among protocols.
    pub fn kad_protocol_version() -> (r: &'static str)
        ensures r@ == "/nockchain-1-kad"@,
    {
        "/nockchain-1-kad"
    }

    /// Request/response protocol version; must be unique among protocols.
    pub fn req_res_protocol_version() -> (r: &'static str)
        ensures r@ == "/nockchain-1-req-res"@,
    {
        "/nockchain-1-req-res"
    }

    /// Identify protocol version; must be unique among protocols.
    pub fn identify_protocol_version() -> (r: &'static str)
        ensures r@ == "/nockchain-1-identify"@,
    {
        "/nockchain-1-identify"
    }

    /// Kademlia bootstrap period as a [`Duration`].
    pub fn kademlia_bootstrap_interval(&self) -> (r: Duration)
        ensures duration_millis(r) == self.kademlia_bootstrap_interval_secs * 1000,
    {
        Duration::from_secs(self.kademlia_bootstrap_interval_secs)
    }

    /// Forced peer dial period as a [`Duration`].
    pub fn force_peer_dial_interval(&self) -> (r: Duration)
        ensures duration_millis(r) == self.force_peer_dial_interval_secs * 1000,
    {
        Duration::from_secs(self.force_peer_dial_interval_secs)
    }

    /// Swarm idle timeout as a [`Duration`].
    pub fn swarm_idle_timeout(&self) -> (r: Duration)
        ensures duration_millis(r) == self.swarm_idle_timeout_secs * 1000,
    {
        Duration::from_secs(self.swarm_idle_timeout_secs)
    }

    /// Keep-alive period as a [`Duration`].
    pub fn keep_alive_interval(&self) -> (r: Duration)
        ensures duration_millis(r) == self.keep_alive_interval_secs * 1000,
    {
        Duration::from_secs(self.keep_alive_interval_secs)
    }

    /// Handshake timeout as a [`Duration`].
    pub fn handshake_timeout(&self) -> (r: Duration)
        ensures duration_millis(r) == self.handshake_timeout_secs * 1000,
    {
        Duration::from_secs(self.handshake_timeout_secs)
    }

    /// Identify period as a [`Duration`].
    pub fn identify_interval(&self) -> (r: Duration)
        ensures duration_millis(r) == self.identify_interval_secs * 1000,
    {
        Duration::from_secs(self.identify_interval_secs)
    }

    /// Request/response timeout as a [`Duration`].
    pub fn request_response_timeout(&self) -> (r: Duration)
        ensures duration_millis(r) == self.request_response_timeout_secs * 1000,
    {
        Duration::from_secs(self.request_response_timeout_secs)
    }

    /// Request-high reset window as a [`Duration`].
    pub fn request_high_reset(&self) -> (r: Duration)
        ensures duration_millis(r) == self.request_high_reset_secs * 1000,
    {
        Duration::from_secs(self.request_high_reset_secs)
    }

    /// Connection timeout: the same as the swarm idle timeout.
    pub fn connection_timeout(&self) -> (r: Duration)
        ensures duration_millis(r) == self.swarm_idle_timeout_secs * 1000,
    {
        self.swarm_idle_timeout()
    }

    /// Maximum idle timeout in milliseconds, truncated to `u32`.
    pub fn max_idle_timeout_millisecs(&self) -> (r: u32)
        ensures r as int == (self.swarm_idle_timeout_secs * 1000) % 0x1_0000_0000,
    {
        let millis = self.connection_timeout().as_millis();
        (millis % 0x1_0000_0000) as u32
    }

    /// Maximum concurrent request/response streams: twice the connection
    /// limit, capped at `usize::MAX`.
    pub fn request_response_max_concurrent_streams(&self) -> (r: usize)
        ensures
            r as int == if 2 * self.max_established_connections <= usize::MAX {
                2 * self.max_established_connections as int
            } else {
                usize::MAX as int
            },
    {
        let doubled = self.max_established_connections as u64 * 2;
        if doubled <= usize::MAX as u64 {
            doubled as usize
        } else {
            usize::MAX
        }
    }

    /// Peer-status logging period as a [`Duration`].
    pub fn peer_status_interval_secs(&self) -> (r: Duration)
        ensures duration_millis(r) == self.peer_status_interval_secs * 1000,
    {
        Duration::from_secs(self.peer_status_interval_secs)
    }

    /// Elders debounce reset period as a [`Duration`].
    pub fn elders_debounce_reset(&self) -> (r: Duration)
        ensures duration_millis(r) == self.elders_debounce_reset_secs * 1000,
    {
        Duration::from_secs(self.elders_debounce_reset_secs)
    }

    /// Block count after which the seen-transaction cache clears.
    pub fn seen_tx_clear_interval(&self) -> (r: u64)
        ensures r == self.seen_tx_clear_interval,
    {
        self.seen_tx_clear_interval
    }

    /// Minimum number of peers.
    pub fn min_peers(&self) -> (r: usize)
        ensures r == self.min_peers,
    {
        self.min_peers
    }

    /// Poke timeout, seconds.
    pub fn poke_timeout_secs(&self) -> (r: u64)
        ensures r == self.poke_timeout_secs,
    {
        self.poke_timeout_secs
    }

    /// Poke timeout as a [`Duration`].
    pub fn poke_timeout(&self) -> (r: Duration)
        ensures duration_millis(r) == self.poke_timeout_secs * 1000,
    {
        Duration::from_secs(self.poke_timeout_secs)
    }

    /// Failed pings before a connection is closed.
    pub fn failed_pings_before_close(&self) -> (r: u64)
        ensures r == self.failed_pings_before_close,
    {
        self.failed_pings_before_close
    }
}

impl Default for LibP2PConfig {
    /// The compiled-in defaults, with no look at the environment.
    fn default() -> (r: Self)
        ensures
            r == LibP2PConfig::spec_default(),
            r.wf(),
    {
        LibP2PConfig {
            kademlia_bootstrap_interval_secs: default_kademlia_bootstrap_interval_secs(),
            force_peer_dial_interval_secs: default_force_peer_dial_interval_secs(),
            swarm_idle_timeout_secs: default_swarm_idle_timeout_secs(),
            initial_peer_retries: default_initial_peer_retries(),
            keep_alive_interval_secs: default_keep_alive_interval_secs(),
            handshake_timeout_secs: default_handshake_timeout_secs(),
            identify_interval_secs: default_identify_interval_secs(),
            max_established_incoming_connections: default_max_established_incoming_connections(),
            max_established_outgoing_connections: default_max_established_outgoing_connections(),
            max_established_connections: default_max_established_connections(),
            max_established_connections_per_peer: default_max_established_connections_per_peer(),
            max_pending_incoming_connections: default_max_pending_incoming_connections(),
            max_pending_outgoing_connections: default_max_pending_outgoing_connections(),
            min_peers: default_min_peers(),
            request_response_timeout_secs: default_request_response_timeout_secs(),
            request_high_threshold: default_request_high_threshold(),
            request_high_reset_secs: default_request_high_reset_secs(),
            peer_store_record_capacity: default_peer_store_record_capacity(),
            peer_status_interval_secs: default_peer_status_interval_secs(),
            elders_debounce_reset_secs: default_elders_debounce_reset_secs(),
            seen_tx_clear_interval: default_seen_tx_clear_interval(),
            poke_timeout_secs: default_poke_timeout_secs(),
            failed_pings_before_close: default_failed_pings_before_close(),
        }
    }
}

} // verus!
