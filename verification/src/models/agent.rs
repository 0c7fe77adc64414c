//! How an agent and its tasks are described to the outside.

use crate::text::owned;
use vstd::prelude::*;

verus! {

/// Whether an agent is working.
#[derive(Debug, Clone, Copy, PartialEq, Eq, Structural)]
pub enum ModelAgentStatus {
    Active,
    Idle,
}

/// The lower-case word for an agent's status.
pub open spec fn status_word(s: ModelAgentStatus) -> Seq<char> {
    match s {
        ModelAgentStatus::Active => "active"@,
        ModelAgentStatus::Idle => "idle"@,
    }
}

impl ModelAgentStatus {
    /// The word for the status, as [`status_word`] gives it.
    pub fn word(&self) -> (r: String)
        ensures
            r@ == status_word(*self),
    {
        match self {
            ModelAgentStatus::Active => owned("active"),
            ModelAgentStatus::Idle => owned("idle"),
        }
    }
}

/// Status of a task.
#[derive(Debug, Clone, Copy, PartialEq, Eq, Structural)]
pub enum TaskStatus {
    Pending,
    InProgress,
    Completed,
    Failed,
}

/// Priority of a task.
#[derive(Debug, Clone, Copy, PartialEq, Eq, Structural)]
pub enum TaskPriority {
    Low,
    Medium,
    High,
    Critical,
}

} // verus!
