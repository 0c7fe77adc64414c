//! The layered configuration of the command-line tools: each section with the values
//! it takes when the file leaves it out.

use crate::text::owned;
use vstd::prelude::*;

verus! {

/// Where the server listens; the timeout is in seconds.
#[derive(Debug, Clone)]
pub struct ServerConfig {
    pub host: String,
    pub port: u16,
    pub max_connections: u32,
    pub connection_timeout: u64,
}

/// When to worry about the machine. The thresholds are percentages held as
/// double-precision bit patterns; the interval is in seconds.
#[derive(Debug, Clone, Copy)]
pub struct MonitoringConfig {
    pub cpu_threshold_bits: u64,
    pub memory_threshold_bits: u64,
    pub health_check_interval: u64,
    pub detailed_metrics: bool,
}

/// Where the logs go and how much of them is kept; the size is in megabytes.
#[derive(Debug, Clone)]
pub struct LoggingConfig {
    pub level: String,
    pub file: String,
    pub max_size: u64,
    pub files_to_keep: u32,
}

/// The whole configuration.
#[derive(Debug, Clone)]
pub struct Config {
    pub server: ServerConfig,
    pub monitoring: MonitoringConfig,
    pub logging: LoggingConfig,
}

impl Default for ServerConfig {
    /// Local port 8080, 1000 connections, a 30 second timeout.
    fn default() -> (c: Self)
        ensures
            c.host@ == "127.0.0.1"@,
            c.port == 8080,
            c.max_connections == 1000,
            c.connection_timeout == 30,
    {
        ServerConfig { host: owned("127.0.0.1"), port: 8080, max_connections: 1000, connection_timeout: 30 }
    }
}

impl Default for MonitoringConfig {
    /// Worried at 80% CPU and 90% memory, checked every 30 seconds, without details.
    fn default() -> (c: Self)
        ensures
            c.cpu_threshold_bits == super::EIGHTY_PERCENT_BITS,
            c.memory_threshold_bits == super::NINETY_PERCENT_BITS,
            c.health_check_interval == 30,
            !c.detailed_metrics,
    {
        MonitoringConfig {
            cpu_threshold_bits: super::EIGHTY_PERCENT_BITS,
            memory_threshold_bits: super::NINETY_PERCENT_BITS,
            health_check_interval: 30,
            detailed_metrics: false,
        }
    }
}

impl Default for LoggingConfig {
    /// `info` to `nexa.log`, files of at most 100 MB, five kept.
    fn default() -> (c: Self)
        ensures
            c.level@ == "info"@,
            c.file@ == "nexa.log"@,
            c.max_size == 100,
            c.files_to_keep == 5,
    {
        LoggingConfig { level: owned("info"), file: owned("nexa.log"), max_size: 100, files_to_keep: 5 }
    }
}

impl Default for Config {
    /// Every section at its default.
    fn default() -> (c: Self)
        ensures
            c.server.host@ == "127.0.0.1"@,
            c.server.port == 8080,
            c.server.max_connections == 1000,
            c.server.connection_timeout == 30,
            c.monitoring.cpu_threshold_bits == super::EIGHTY_PERCENT_BITS,
            c.monitoring.memory_threshold_bits == super::NINETY_PERCENT_BITS,
            c.monitoring.health_check_interval == 30,
            !c.monitoring.detailed_metrics,
            c.logging.level@ == "info"@,
            c.logging.file@ == "nexa.log"@,
            c.logging.max_size == 100,
            c.logging.files_to_keep == 5,
    {
        Config {
            server: ServerConfig::default(),
            monitoring: MonitoringConfig::default(),
            logging: LoggingConfig::default(),
        }
    }
}

impl Config {
    /// The configuration reset to its defaults.
    pub fn reset() -> (c: Self)
        ensures
            c.server.port == 8080,
            c.server.max_connections == 1000,
            c.logging.level@ == "info"@,
            c.logging.files_to_keep == 5,
    {
        Self::default()
    }
}

} // verus!
