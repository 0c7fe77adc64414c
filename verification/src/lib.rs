//! Core logic of the Nexa multi-agent control platform: message buffering and
//! processing, cluster election, agent registry, memory accounting, configuration
//! validation and the state machines that drive the server and its dashboard.

pub mod agent;
pub mod agent_types;
pub mod api;
pub mod cli;
pub mod config;
pub mod context;
pub mod error;
pub mod gui;
pub mod ids;
pub mod llm;
pub mod logging;
pub mod mcp;
pub mod models;
pub mod memory;
pub mod monitoring;
pub mod pipeline;
pub mod server;
pub mod store;
pub mod text;
pub mod workflow;
