//! Settings of the WebSocket server, with a builder. Durations are in milliseconds.

use crate::text::owned;
use vstd::prelude::*;

verus! {

/// Settings of the WebSocket server.
#[derive(Debug, Clone)]
pub struct ServerConfig {
    /// Server bind address.
    pub bind_addr: String,
    /// Maximum number of connections.
    pub max_connections: u32,
    /// Connection timeout.
    pub connection_timeout_ms: u64,
    /// Health check interval.
    pub health_check_interval_ms: u64,
    /// Shutdown timeout.
    pub shutdown_timeout_ms: u64,
    /// Runtime directory; `None` stands for the system's temporary directory.
    pub runtime_dir: Option<String>,
    /// Log level.
    pub log_level: String,
    /// Whether metrics are collected.
    pub enable_metrics: bool,
}

impl Default for ServerConfig {
    /// Bound to an ephemeral local port, 1000 connections, 30 second connection timeout
    /// and health check interval, 5 second shutdown timeout, the temporary directory,
    /// `info` logging and metrics on.
    fn default() -> (c: Self)
        ensures
            c.bind_addr@ == "127.0.0.1:0"@,
            c.max_connections == 1000,
            c.connection_timeout_ms == 30000,
            c.health_check_interval_ms == 30000,
            c.shutdown_timeout_ms == 5000,
            c.runtime_dir is None,
            c.log_level@ == "info"@,
            c.enable_metrics,
    {
        ServerConfig {
            bind_addr: owned("127.0.0.1:0"),
            max_connections: 1000,
            connection_timeout_ms: 30000,
            health_check_interval_ms: 30000,
            shutdown_timeout_ms: 5000,
            runtime_dir: None,
            log_level: owned("info"),
            enable_metrics: true,
        }
    }
}

impl ServerConfig {
    /// The default settings.
    pub fn new() -> (c: Self)
        ensures
            c.bind_addr@ == "127.0.0.1:0"@,
            c.max_connections == 1000,
            c.connection_timeout_ms == 30000,
            c.health_check_interval_ms == 30000,
            c.shutdown_timeout_ms == 5000,
            c.runtime_dir is None,
            c.log_level@ == "info"@,
            c.enable_metrics,
    {
        Self::default()
    }

    /// The settings with the given bind address.
    pub fn with_bind_addr(self, addr: String) -> (c: Self)
        ensures
            c == (ServerConfig { bind_addr: addr, ..self }),
    {
        ServerConfig { bind_addr: addr, ..self }
    }

    /// The settings with the given connection limit.
    pub fn with_max_connections(self, max: u32) -> (c: Self)
        ensures
            c == (ServerConfig { max_connections: max, ..self }),
    {
        ServerConfig { max_connections: max, ..self }
    }

    /// The settings with the given connection timeout.
    pub fn with_connection_timeout(self, timeout_ms: u64) -> (c: Self)
        ensures
            c == (ServerConfig { connection_timeout_ms: timeout_ms, ..self }),
    {
        ServerConfig { connection_timeout_ms: timeout_ms, ..self }
    }

    /// The settings with the given health check interval.
    pub fn with_health_check_interval(self, interval_ms: u64) -> (c: Self)
        ensures
            c == (ServerConfig { health_check_interval_ms: interval_ms, ..self }),
    {
        ServerConfig { health_check_interval_ms: interval_ms, ..self }
    }

    /// The settings with the given shutdown timeout.
    pub fn with_shutdown_timeout(self, timeout_ms: u64) -> (c: Self)
        ensures
            c == (ServerConfig { shutdown_timeout_ms: timeout_ms, ..self }),
    {
        ServerConfig { shutdown_timeout_ms: timeout_ms, ..self }
    }

    /// The settings with the given runtime directory.
    pub fn with_runtime_dir(self, dir: String) -> (c: Self)
        ensures
            c == (ServerConfig { runtime_dir: Some(dir), ..self }),
    {
        ServerConfig { runtime_dir: Some(dir), ..self }
    }

    /// The settings with the given log level.
    pub fn with_log_level(self, level: String) -> (c: Self)
        ensures
            c == (ServerConfig { log_level: level, ..self }),
    {
        ServerConfig { log_level: level, ..self }
    }

    /// The settings with metrics collection switched on or off.
    pub fn with_metrics_enabled(self, enabled: bool) -> (c: Self)
        ensures
            c == (ServerConfig { enable_metrics: enabled, ..self }),
    {
        ServerConfig { enable_metrics: enabled, ..self }
    }
}

} // verus!
