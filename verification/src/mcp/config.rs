//! Server, cluster and load-balancer configuration with its defaults and validation.

use crate::error::NexaError;
use crate::text::{count_char, lowercase};
use vstd::prelude::*;

verus! {

/// Cluster configuration.
#[derive(Debug)]
pub struct ClusterConfig {
    pub enabled: bool,
    pub node_id: String,
    pub peers: Vec<String>,
    pub heartbeat_interval_ms: u64,
    pub election_timeout_ms: u64,
    pub quorum_size: usize,
}

/// A copy of a list of strings.
pub fn clone_strings(v: &Vec<String>) -> (r: Vec<String>)
    ensures
        r@ == v@,
{
    let mut r: Vec<String> = Vec::new();
    let mut i: usize = 0;
    while i < v.len()
        invariant
            i <= v.len(),
            r@ == v@.take(i as int),
        decreases v.len() - i,
    {
        proof {
            assert(v@.take(i as int + 1) =~= v@.take(i as int).push(v@[i as int]));
        }
        r.push(v[i].clone());
        i = i + 1;
    }
    assert(v@.take(v.len() as int) =~= v@);
    r
}

impl ClusterConfig {
    /// Same settings, field by field (the peer list by its contents).
    pub open spec fn same_as(&self, other: &Self) -> bool {
        &&& self.enabled == other.enabled
        &&& self.node_id@ == other.node_id@
        &&& self.peers@ == other.peers@
        &&& self.heartbeat_interval_ms == other.heartbeat_interval_ms
        &&& self.election_timeout_ms == other.election_timeout_ms
        &&& self.quorum_size == other.quorum_size
    }
}

impl Clone for ClusterConfig {
    fn clone(&self) -> (r: Self)
        ensures
            r.same_as(self),
    {
        ClusterConfig {
            enabled: self.enabled,
            node_id: self.node_id.clone(),
            peers: clone_strings(&self.peers),
            heartbeat_interval_ms: self.heartbeat_interval_ms,
            election_timeout_ms: self.election_timeout_ms,
            quorum_size: self.quorum_size,
        }
    }
}

impl ClusterConfig {
    /// The configuration used when none is given: disabled, a fresh node id, no peers,
    /// heartbeat every 1000 ms, election timeout 5000 ms, quorum of 2.
    pub fn new_default() -> (c: Self)
        ensures
            !c.enabled,
            crate::ids::hyphenated_shape(c.node_id@),
            c.peers@.len() == 0,
            c.heartbeat_interval_ms == 1000,
            c.election_timeout_ms == 5000,
            c.quorum_size == 2,
    {
        ClusterConfig {
            enabled: false,
            node_id: crate::ids::new_id_string(),
            peers: Vec::new(),
            heartbeat_interval_ms: 1000,
            election_timeout_ms: 5000,
            quorum_size: 2,
        }
    }
}

/// Load balancer configuration.
#[derive(Debug, Clone, Copy)]
pub struct LoadBalancerConfig {
    pub max_pool_size: usize,
    pub min_pool_size: usize,
    pub connection_timeout_ms: u64,
    pub max_retries: usize,
    pub retry_delay_ms: u64,
    pub health_check_interval_ms: u64,
    pub max_connection_lifetime_secs: u64,
}

impl Default for LoadBalancerConfig {
    fn default() -> (c: Self)
        ensures
            c.max_retries == 3,
            c.retry_delay_ms == 100,
            c.health_check_interval_ms == 1000,
            c.connection_timeout_ms == 5000,
            c.max_connection_lifetime_secs == 3600,
            c.max_pool_size == 100,
            c.min_pool_size == 10,
    {
        LoadBalancerConfig {
            max_retries: 3,
            retry_delay_ms: 100,
            health_check_interval_ms: 1000,
            connection_timeout_ms: 5000,
            max_connection_lifetime_secs: 3600,
            max_pool_size: 100,
            min_pool_size: 10,
        }
    }
}

/// Server configuration. The runtime directory is held as its path text.
#[derive(Debug, Clone)]
pub struct ServerConfig {
    pub bind_addr: String,
    pub max_connections: u32,
    pub connection_timeout_secs: u64,
    pub health_check_interval_secs: u64,
    pub shutdown_timeout_secs: u64,
    pub runtime_dir: String,
    pub log_level: String,
    pub enable_metrics: bool,
    pub cluster: ClusterConfig,
    pub load_balancer: LoadBalancerConfig,
}

pub fn default_bind_addr() -> (s: String)
    ensures
        s@ == "127.0.0.1:0"@,
{
    crate::text::owned("127.0.0.1:0")
}

pub fn default_max_connections() -> (n: u32)
    ensures
        n == 1000,
{
    1000
}

pub fn default_connection_timeout_secs() -> (n: u64)
    ensures
        n == 30,
{
    30
}

pub fn default_health_check_interval_secs() -> (n: u64)
    ensures
        n == 30,
{
    30
}

pub fn default_shutdown_timeout_secs() -> (n: u64)
    ensures
        n == 5,
{
    5
}

pub fn default_log_level() -> (s: String)
    ensures
        s@ == "info"@,
{
    crate::text::owned("info")
}

pub fn default_enable_metrics() -> (b: bool)
    ensures
        b,
{
    true
}

pub fn default_cluster_enabled() -> (b: bool)
    ensures
        !b,
{
    false
}

/// A fresh random node id.
pub fn default_node_id() -> (s: String)
    ensures
        crate::ids::hyphenated_shape(s@),
{
    crate::ids::new_id_string()
}

pub fn default_peers() -> (v: Vec<String>)
    ensures
        v@.len() == 0,
{
    Vec::new()
}

pub fn default_heartbeat_interval_ms() -> (n: u64)
    ensures
        n == 500,
{
    500
}

pub fn default_election_timeout_ms() -> (n: u64)
    ensures
        n == 2000,
{
    2000
}

pub fn default_quorum_size() -> (n: usize)
    ensures
        n == 2,
{
    2
}

pub fn default_max_pool_size() -> (n: usize)
    ensures
        n == 100,
{
    100
}

pub fn default_min_pool_size() -> (n: usize)
    ensures
        n == 10,
{
    10
}

pub fn default_connection_timeout_ms() -> (n: u64)
    ensures
        n == 5000,
{
    5000
}

pub fn default_max_retries() -> (n: usize)
    ensures
        n == 3,
{
    3
}

pub fn default_retry_delay_ms() -> (n: u64)
    ensures
        n == 100,
{
    100
}

pub fn default_health_check_interval_ms() -> (n: u64)
    ensures
        n == 5000,
{
    5000
}

pub fn default_max_connection_lifetime_secs() -> (n: u64)
    ensures
        n == 300,
{
    300
}

/// The log levels a configuration may name (after lower-casing).
pub open spec fn known_log_level(l: Seq<char>) -> bool {
    l == "error"@ || l == "warn"@ || l == "info"@ || l == "debug"@ || l == "trace"@
}

/// The first rule that `c` breaks, as the message of the error it yields, or `None`
/// when `c` is valid; `dir_exists` tells whether the runtime directory exists.
pub open spec fn validation_error(c: ServerConfig, dir_exists: bool) -> Option<Seq<char>> {
    if count_char(c.bind_addr@, ':') + 1 != 2 {
        Some("Invalid bind address format"@)
    } else if c.connection_timeout_secs == 0 {
        Some("Connection timeout cannot be zero"@)
    } else if c.health_check_interval_secs == 0 {
        Some("Health check interval cannot be zero"@)
    } else if c.shutdown_timeout_secs == 0 {
        Some("Shutdown timeout cannot be zero"@)
    } else if c.max_connections == 0 {
        Some("Max connections cannot be zero"@)
    } else if !known_log_level(lowercase(c.log_level@)) {
        Some("Invalid log level"@)
    } else if !dir_exists {
        Some("Runtime directory does not exist"@)
    } else if c.cluster.enabled && c.cluster.heartbeat_interval_ms == 0 {
        Some("Cluster heartbeat interval cannot be zero"@)
    } else if c.cluster.enabled && c.cluster.election_timeout_ms <= c.cluster.heartbeat_interval_ms {
        Some("Election timeout must be greater than heartbeat interval"@)
    } else if c.cluster.enabled && c.cluster.quorum_size < 2 {
        Some("Quorum size must be at least 2"@)
    } else if c.load_balancer.min_pool_size > c.load_balancer.max_pool_size {
        Some("Min pool size cannot be greater than max pool size"@)
    } else if c.load_balancer.connection_timeout_ms == 0 {
        Some("Load balancer connection timeout cannot be zero"@)
    } else if c.load_balancer.max_connection_lifetime_secs == 0 {
        Some("Max connection lifetime cannot be zero"@)
    } else {
        None
    }
}

fn is_known_log_level(l: &str) -> (r: bool)
    ensures
        r == known_log_level(l@),
{
    crate::text::str_eq(l, "error") || crate::text::str_eq(l, "warn") || crate::text::str_eq(
        l,
        "info",
    ) || crate::text::str_eq(l, "debug") || crate::text::str_eq(l, "trace")
}

impl ServerConfig {
    /// The default configuration; the runtime directory is given by the caller
    /// (the system's temporary directory).
    pub fn default_with_runtime_dir(runtime_dir: String) -> (c: Self)
        ensures
            c.bind_addr@ == "127.0.0.1:0"@,
            c.max_connections == 1000,
            c.connection_timeout_secs == 30,
            c.health_check_interval_secs == 30,
            c.shutdown_timeout_secs == 5,
            c.runtime_dir == runtime_dir,
            c.log_level@ == "info"@,
            c.enable_metrics,
            !c.cluster.enabled,
            crate::ids::hyphenated_shape(c.cluster.node_id@),
            c.cluster.peers@.len() == 0,
            c.cluster.heartbeat_interval_ms == 500,
            c.cluster.election_timeout_ms == 2000,
            c.cluster.quorum_size == 2,
            c.load_balancer.max_pool_size == 100,
            c.load_balancer.min_pool_size == 10,
            c.load_balancer.connection_timeout_ms == 5000,
            c.load_balancer.max_retries == 3,
            c.load_balancer.retry_delay_ms == 100,
            c.load_balancer.health_check_interval_ms == 5000,
            c.load_balancer.max_connection_lifetime_secs == 300,
    {
        ServerConfig {
            bind_addr: default_bind_addr(),
            max_connections: default_max_connections(),
            connection_timeout_secs: default_connection_timeout_secs(),
            health_check_interval_secs: default_health_check_interval_secs(),
            shutdown_timeout_secs: default_shutdown_timeout_secs(),
            runtime_dir,
            log_level: default_log_level(),
            enable_metrics: default_enable_metrics(),
            cluster: ClusterConfig {
                enabled: default_cluster_enabled(),
                node_id: default_node_id(),
                peers: default_peers(),
                heartbeat_interval_ms: default_heartbeat_interval_ms(),
                election_timeout_ms: default_election_timeout_ms(),
                quorum_size: default_quorum_size(),
            },
            load_balancer: LoadBalancerConfig {
                max_pool_size: default_max_pool_size(),
                min_pool_size: default_min_pool_size(),
                connection_timeout_ms: default_connection_timeout_ms(),
                max_retries: default_max_retries(),
                retry_delay_ms: default_retry_delay_ms(),
                health_check_interval_ms: default_health_check_interval_ms(),
                max_connection_lifetime_secs: default_max_connection_lifetime_secs(),
            },
        }
    }

    /// Check the configuration: the bind address holds exactly one colon, timeouts,
    /// intervals and the connection limit are not zero, the log level is known, the
    /// runtime directory exists (`runtime_dir_exists`), cluster timings and quorum are
    /// sound when clustering is enabled, and the pool bounds and load-balancer timings
    /// are sound. The first broken rule gives the error.
    pub fn validate(&self, runtime_dir_exists: bool) -> (r: Result<(), NexaError>)
        ensures
            r is Ok <==> validation_error(*self, runtime_dir_exists) is None,
            r matches Err(e) ==> (e matches NexaError::System(m) && Some(m@) == validation_error(
                *self,
                runtime_dir_exists,
            )),
    {
        let colons = crate::text::count_occurrences(self.bind_addr.as_str(), ':');
        if colons != 1 {
            return Err(crate::error::system_error("Invalid bind address format"));
        }
        if self.connection_timeout_secs == 0 {
            return Err(crate::error::system_error("Connection timeout cannot be zero"));
        }
        if self.health_check_interval_secs == 0 {
            return Err(crate::error::system_error("Health check interval cannot be zero"));
        }
        if self.shutdown_timeout_secs == 0 {
            return Err(crate::error::system_error("Shutdown timeout cannot be zero"));
        }
        if self.max_connections == 0 {
            return Err(crate::error::system_error("Max connections cannot be zero"));
        }
        let level = crate::text::to_lowercase(self.log_level.as_str());
        if !is_known_log_level(level.as_str()) {
            return Err(crate::error::system_error("Invalid log level"));
        }
        if !runtime_dir_exists {
            return Err(crate::error::system_error("Runtime directory does not exist"));
        }
        if self.cluster.enabled {
            if self.cluster.heartbeat_interval_ms == 0 {
                return Err(crate::error::system_error("Cluster heartbeat interval cannot be zero"));
            }
            if self.cluster.election_timeout_ms <= self.cluster.heartbeat_interval_ms {
                return Err(
                    crate::error::system_error(
                        "Election timeout must be greater than heartbeat interval",
                    ),
                );
            }
            if self.cluster.quorum_size < 2 {
                return Err(crate::error::system_error("Quorum size must be at least 2"));
            }
        }
        if self.load_balancer.min_pool_size > self.load_balancer.max_pool_size {
            return Err(
                crate::error::system_error("Min pool size cannot be greater than max pool size"),
            );
        }
        if self.load_balancer.connection_timeout_ms == 0 {
            return Err(crate::error::system_error("Load balancer connection timeout cannot be zero"));
        }
        if self.load_balancer.max_connection_lifetime_secs == 0 {
            return Err(crate::error::system_error("Max connection lifetime cannot be zero"));
        }
        Ok(())
    }

    /// The cluster configuration, when clustering is enabled.
    pub fn to_cluster_config(&self) -> (r: Result<ClusterConfig, NexaError>)
        ensures
            self.cluster.enabled ==> (r matches Ok(c) && c.same_as(&self.cluster)),
            !self.cluster.enabled ==> (r matches Err(NexaError::System(m)) && m@ == "Clustering is not enabled"@),
    {
        if !self.cluster.enabled {
            return Err(crate::error::system_error("Clustering is not enabled"));
        }
        Ok(self.cluster.clone())
    }

    /// The load balancer configuration.
    pub fn to_load_balancer_config(&self) -> (r: LoadBalancerConfig)
        ensures
            r == self.load_balancer,
    {
        self.load_balancer.clone()
    }

    /// Connection timeout in seconds.
    pub fn connection_timeout(&self) -> (s: u64)
        ensures
            s == self.connection_timeout_secs,
    {
        self.connection_timeout_secs
    }

    /// Health check interval in seconds.
    pub fn health_check_interval(&self) -> (s: u64)
        ensures
            s == self.health_check_interval_secs,
    {
        self.health_check_interval_secs
    }

    /// Shutdown timeout in seconds.
    pub fn shutdown_timeout(&self) -> (s: u64)
        ensures
            s == self.shutdown_timeout_secs,
    {
        self.shutdown_timeout_secs
    }
}

} // verus!
