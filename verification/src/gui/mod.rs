//! The dashboard: what it shows, the text it writes, and the state machine that turns
//! each event of the window into its next state and the work to start.

pub mod components;
pub mod dashboard;
pub mod format;
pub mod summary;
pub mod types;

use vstd::prelude::*;

verus! {

/// The page the dashboard shows.
#[derive(Debug, Clone, Copy, PartialEq, Eq, Structural)]
pub enum View {
    Overview,
    Agents,
    Tasks,
    Connections,
    Settings,
    LLMServers,
}

} // verus!
