//! Agents: their capabilities, their tasks, and the status words agents and their
//! tasks report.

use crate::error::NexaError;
use crate::text::{owned, str_eq};
use std::collections::HashMap;
use vstd::prelude::*;

verus! {

/// Status of an agent.
#[derive(Debug, Clone, Copy, PartialEq, Eq, Structural)]
pub enum AgentStatus {
    Idle,
    Busy,
    Running,
    Error,
    Offline,
}

/// Status of an agent's task.
#[derive(Debug, Clone, Copy, PartialEq, Eq, Structural)]
pub enum TaskStatus {
    Pending,
    InProgress,
    Completed,
    Failed,
    Cancelled,
}

/// A capability an agent declares: its type, its parameters and the resources it needs.
#[derive(Debug)]
pub struct AgentCapability {
    pub capability_type: String,
    pub parameters: HashMap<String, String>,
    pub required_resources: Vec<String>,
}

impl AgentCapability {
    /// Whether the capability is of the given type, compared exactly.
    pub fn matches_type(&self, capability_type: &str) -> (r: bool)
        ensures
            r == (self.capability_type@ == capability_type@),
    {
        str_eq(self.capability_type.as_str(), capability_type)
    }
}

/// A task held by an agent. Its data is kept as JSON text and its deadline, if any, in
/// milliseconds since the Unix epoch.
#[derive(Debug, Clone)]
pub struct Task {
    pub id: String,
    pub task_type: String,
    pub status: TaskStatus,
    pub data: String,
    pub deadline_ms: Option<i64>,
}

/// An agent: who it is, what it can do, how it is and what it is working on.
#[derive(Debug)]
pub struct Agent {
    pub id: String,
    pub name: String,
    pub capabilities: Vec<AgentCapability>,
    pub status: AgentStatus,
    pub current_tasks: Vec<Task>,
}

/// The status an agent is stopped into: refused with an agent error when it is already
/// offline.
pub fn stop_agent_status(status: AgentStatus) -> (r: Result<AgentStatus, NexaError>)
    ensures
        r is Err <==> status == AgentStatus::Offline,
        r matches Ok(s) ==> s == AgentStatus::Offline,
        r matches Err(e) ==> (e matches NexaError::Agent(m) && m@ == "Agent is already stopped"@),
{
    if status == AgentStatus::Offline {
        return Err(NexaError::Agent(owned("Agent is already stopped")));
    }
    Ok(AgentStatus::Offline)
}

/// A parent's children once the stopped agent `id` has left them, the others in order.
pub fn without_child(children: &Vec<String>, id: &str) -> (r: Vec<String>)
    ensures
        r@.map_values(|c: String| c@) == children@.map_values(|c: String| c@).filter(
            |c: Seq<char>| c != id@,
        ),
{
    let mut r: Vec<String> = Vec::new();
    let mut i: usize = 0;
    while i < children.len()
        invariant
            i <= children@.len(),
            r@.map_values(|c: String| c@) == children@.take(i as int).map_values(|c: String| c@).filter(
                |c: Seq<char>| c != id@,
            ),
        decreases children@.len() - i,
    {
        proof {
            let t = children@.take(i as int + 1).map_values(|c: String| c@);
            assert(t.drop_last() =~= children@.take(i as int).map_values(|c: String| c@));
            assert(t.last() == children@[i as int]@);
            reveal_with_fuel(Seq::filter, 1);
        }
        if !str_eq(children[i].as_str(), id) {
            let ghost before = r@;
            r.push(children[i].clone());
            assert(r@.map_values(|c: String| c@) =~= before.map_values(|c: String| c@).push(children@[i as int]@));
        }
        i = i + 1;
    }
    assert(children@.take(children@.len() as int) =~= children@);
    r
}

} // verus!
