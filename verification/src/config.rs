//! The server's configuration file: its sections, their defaults and the checks a
//! configuration must pass. Reading and writing the file is the caller's part.
//! Thresholds that are fractional numbers are held as the bit patterns of their
//! double-precision values.

use crate::error::NexaError;
use crate::mcp::config::clone_strings;
use crate::text::owned;
use vstd::prelude::*;

pub mod defaults;

verus! {

/// Where and how the server listens. The timeout is in seconds.
#[derive(Debug, Clone)]
pub struct ServerSettings {
    pub host: String,
    pub port: u16,
    pub max_connections: usize,
    pub connection_timeout: u64,
}

/// The API endpoints watched, with the timeout in seconds and the retries allowed.
#[derive(Debug)]
pub struct ApiConfig {
    pub endpoints: Vec<String>,
    pub timeout: u64,
    pub retry_attempts: u32,
}

/// The LLM used by default, the providers known, the timeout in seconds and the most
/// tokens per request.
#[derive(Debug)]
pub struct LLMConfig {
    pub default_model: String,
    pub providers: Vec<String>,
    pub timeout: u64,
    pub max_tokens: usize,
}

/// Where and how much is logged.
#[derive(Debug, Clone)]
pub struct LoggingConfig {
    pub level: String,
    pub file: String,
    pub console: bool,
}

/// What is monitored and when to worry. Intervals are in seconds; the thresholds are
/// percentages, held as double-precision bit patterns.
#[derive(Debug, Clone, Copy)]
pub struct MonitoringConfig {
    pub enabled: bool,
    pub detailed_metrics: bool,
    pub metrics_interval: u64,
    pub history_size: usize,
    pub health_check_interval: u64,
    pub cpu_threshold_bits: u64,
    pub memory_threshold_bits: u64,
}

/// The whole configuration.
#[derive(Debug)]
pub struct ServerConfig {
    pub server: ServerSettings,
    pub monitoring: MonitoringConfig,
    pub logging: LoggingConfig,
    pub llm: LLMConfig,
    pub api: ApiConfig,
}

/// The bit pattern of the double 80.0.
pub const EIGHTY_PERCENT_BITS: u64 = 0x4054000000000000;

/// The bit pattern of the double 90.0.
pub const NINETY_PERCENT_BITS: u64 = 0x4056800000000000;

impl Default for LoggingConfig {
    /// `info` to `/var/log/nexa/server.log` and the console.
    fn default() -> (c: Self)
        ensures
            c.level@ == "info"@,
            c.file@ == "/var/log/nexa/server.log"@,
            c.console,
    {
        LoggingConfig { level: owned("info"), file: owned("/var/log/nexa/server.log"), console: true }
    }
}

impl Default for MonitoringConfig {
    /// Enabled with details, samples every minute, 1000 kept, health every 30 seconds,
    /// worried at 80% CPU and 90% memory.
    fn default() -> (c: Self)
        ensures
            c.enabled && c.detailed_metrics,
            c.metrics_interval == 60,
            c.history_size == 1000,
            c.health_check_interval == 30,
            c.cpu_threshold_bits == EIGHTY_PERCENT_BITS,
            c.memory_threshold_bits == NINETY_PERCENT_BITS,
    {
        MonitoringConfig {
            enabled: true,
            detailed_metrics: true,
            metrics_interval: 60,
            history_size: 1000,
            health_check_interval: 30,
            cpu_threshold_bits: EIGHTY_PERCENT_BITS,
            memory_threshold_bits: NINETY_PERCENT_BITS,
        }
    }
}

impl Default for LLMConfig {
    /// `gpt-3.5-turbo` from `openai`, 30 second timeout, 2048 tokens.
    fn default() -> (c: Self)
        ensures
            c.default_model@ == "gpt-3.5-turbo"@,
            c.providers@.len() == 1 && c.providers@[0]@ == "openai"@,
            c.timeout == 30,
            c.max_tokens == 2048,
    {
        LLMConfig {
            default_model: owned("gpt-3.5-turbo"),
            providers: vec![owned("openai")],
            timeout: 30,
            max_tokens: 2048,
        }
    }
}

impl Default for ServerConfig {
    /// Local port 8080 with 1000 connections and a 30 second timeout, the default
    /// monitoring, logging and LLM sections, and the health and metrics endpoints
    /// watched with a 30 second timeout and 3 retries.
    fn default() -> (c: Self)
        ensures
            c.server.host@ == "127.0.0.1"@,
            c.server.port == 8080,
            c.server.max_connections == 1000,
            c.server.connection_timeout == 30,
            c.monitoring.metrics_interval == 60,
            c.logging.level@ == "info"@,
            c.llm.default_model@ == "gpt-3.5-turbo"@,
            c.llm.providers@.len() == 1,
            c.llm.timeout == 30,
            c.llm.max_tokens == 2048,
            c.api.endpoints@.len() == 2,
            c.api.endpoints@[0]@ == "http://localhost:8080/health"@,
            c.api.endpoints@[1]@ == "http://localhost:8080/metrics"@,
            c.api.timeout == 30,
            c.api.retry_attempts == 3,
    {
        ServerConfig {
            server: ServerSettings {
                host: owned("127.0.0.1"),
                port: 8080,
                max_connections: 1000,
                connection_timeout: 30,
            },
            monitoring: MonitoringConfig::default(),
            logging: LoggingConfig::default(),
            llm: LLMConfig::default(),
            api: ApiConfig {
                endpoints: vec![
                    owned("http://localhost:8080/health"),
                    owned("http://localhost:8080/metrics"),
                ],
                timeout: 30,
                retry_attempts: 3,
            },
        }
    }
}

/// The first problem found in a configuration, in the order the checks are made.
pub open spec fn config_problem(c: ServerConfig) -> Option<Seq<char>> {
    if c.server.port == 0 {
        Some("Invalid server port"@)
    } else if c.server.max_connections == 0 {
        Some("Invalid max connections"@)
    } else if c.server.connection_timeout == 0 {
        Some("Invalid connection timeout"@)
    } else if c.monitoring.metrics_interval == 0 {
        Some("Invalid metrics interval"@)
    } else if c.logging.level@.len() == 0 {
        Some("Invalid log level"@)
    } else if c.llm.default_model@.len() == 0 {
        Some("Invalid default model"@)
    } else if c.llm.providers@.len() == 0 {
        Some("No LLM providers configured"@)
    } else if c.llm.timeout == 0 {
        Some("Invalid LLM timeout"@)
    } else if c.llm.max_tokens == 0 {
        Some("Invalid max tokens"@)
    } else if c.api.timeout == 0 {
        Some("Invalid API timeout"@)
    } else if c.api.retry_attempts == 0 {
        Some("Invalid retry attempts"@)
    } else {
        None
    }
}

impl ServerConfig {
    /// Check the configuration: the first problem found is reported as a configuration error.
    pub fn validate(&self) -> (r: Result<(), NexaError>)
        ensures
            r is Ok <==> config_problem(*self) is None,
            r matches Err(e) ==> (e matches NexaError::Config(m) && Some(m@) == config_problem(*self)),
    {
        if self.server.port == 0 {
            return Err(NexaError::Config(owned("Invalid server port")));
        }
        if self.server.max_connections == 0 {
            return Err(NexaError::Config(owned("Invalid max connections")));
        }
        if self.server.connection_timeout == 0 {
            return Err(NexaError::Config(owned("Invalid connection timeout")));
        }
        if self.monitoring.metrics_interval == 0 {
            return Err(NexaError::Config(owned("Invalid metrics interval")));
        }
        if self.logging.level.as_str().is_empty() {
            return Err(NexaError::Config(owned("Invalid log level")));
        }
        if self.llm.default_model.as_str().is_empty() {
            return Err(NexaError::Config(owned("Invalid default model")));
        }
        if self.llm.providers.len() == 0 {
            return Err(NexaError::Config(owned("No LLM providers configured")));
        }
        if self.llm.timeout == 0 {
            return Err(NexaError::Config(owned("Invalid LLM timeout")));
        }
        if self.llm.max_tokens == 0 {
            return Err(NexaError::Config(owned("Invalid max tokens")));
        }
        if self.api.timeout == 0 {
            return Err(NexaError::Config(owned("Invalid API timeout")));
        }
        if self.api.retry_attempts == 0 {
            return Err(NexaError::Config(owned("Invalid retry attempts")));
        }
        Ok(())
    }

    /// A copy of the API endpoints watched.
    pub fn get_api_endpoints(&self) -> (r: Vec<String>)
        ensures
            r@ == self.api.endpoints@,
    {
        clone_strings(&self.api.endpoints)
    }
}

/// The default configuration passes its own checks.
pub proof fn law_default_is_valid(c: ServerConfig)
    requires
        c.server.port == 8080,
        c.server.max_connections == 1000,
        c.server.connection_timeout == 30,
        c.monitoring.metrics_interval == 60,
        c.logging.level@ == "info"@,
        c.llm.default_model@ == "gpt-3.5-turbo"@,
        c.llm.providers@.len() == 1,
        c.llm.timeout == 30,
        c.llm.max_tokens == 2048,
        c.api.timeout == 30,
        c.api.retry_attempts == 3,
    ensures
        config_problem(c) is None,
{
    reveal_strlit("info");
    reveal_strlit("gpt-3.5-turbo");
}

} // verus!
