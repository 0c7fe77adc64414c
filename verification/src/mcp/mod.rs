//! Multi-agent control protocol: message buffering and processing, cluster
//! coordination, agent registry, configuration and server state.

pub mod buffer;
pub mod cluster;
pub mod cluster_processor;
pub mod config;
pub mod loadbalancer;
pub mod metrics;
pub mod processor;
pub mod protocol;
pub mod registry;
pub mod server;
pub mod tokens;

use crate::mcp::buffer::{after_take, taken, BufferConfig, BufferedMessage, MessageBuffer, Priority};
use crate::mcp::registry::{Agent, AgentStatus, Task};
use crate::text::{owned, push_str};
use vstd::prelude::*;

verus! {

/// Persistent state of the control protocol.
#[derive(Debug, Default)]
pub struct McpState {
    /// A counter of protocol events.
    pub counter: u64,
}

impl McpState {
    /// The initial state: the counter starts at zero.
    pub fn new() -> (s: Self)
        ensures
            s.counter == 0,
    {
        McpState { counter: 0 }
    }
}

/// Control messages between agents and the server.
#[derive(Debug)]
pub enum MCPMessage {
    RegisterAgent { agent: Agent },
    DeregisterAgent { agent_id: String },
    TaskAssignment { task: Task, agent_id: String },
    StatusUpdate { agent_id: String, status: AgentStatus },
    AgentQuery { capability: String },
    AgentResponse { agents: Vec<Agent> },
    Error { code: u32, message: String },
}

/// The reply to a control message: a status code and a text.
#[derive(Debug)]
pub struct Reply {
    pub code: u32,
    pub message: String,
}

/// A connection of an agent to the server.
#[derive(Debug)]
pub struct MCPConnection {
    pub id: String,
    pub agent: Option<Agent>,
    pub active_connections: u32,
}

impl MCPConnection {
    /// A fresh connection with a random id and no agent.
    pub fn new() -> (c: Self)
        ensures
            crate::ids::hyphenated_shape(c.id@),
            c.agent is None,
            c.active_connections == 0,
    {
        MCPConnection { id: crate::ids::new_id_string(), agent: None, active_connections: 0 }
    }

    /// Answer a control message: a status update is acknowledged with code 200 and
    /// names its sender; every other message is answered with code 400.
    pub fn handle_message(&self, message: &MCPMessage) -> (r: Reply)
        ensures
            message matches MCPMessage::StatusUpdate { agent_id, status: _ } ==> r.code == 200
                && r.message@ == "Status update received from "@ + agent_id@,
            !(message is StatusUpdate) ==> r.code == 400 && r.message@ == "Unsupported message type"@,
    {
        match message {
            MCPMessage::StatusUpdate { agent_id, status: _ } => {
                let mut m = owned("Status update received from ");
                push_str(&mut m, agent_id.as_str());
                Reply { code: 200, message: m }
            },
            _ => Reply { code: 400, message: owned("Unsupported message type") },
        }
    }
}

/// A registry that keeps nothing: adding succeeds, lookups are not implemented and
/// listings are empty.
#[derive(Debug)]
pub struct RegistryStub;

impl RegistryStub {
    /// Accept a task without keeping it.
    pub fn add_task(&self, task: Task) -> (r: Result<(), crate::error::NexaError>)
        ensures
            r is Ok,
    {
        Ok(())
    }

    /// Looking up an agent is not implemented.
    pub fn get_agent(&self, id: &str) -> (r: Result<Agent, crate::error::NexaError>)
        ensures
            r matches Err(e) && (e matches crate::error::NexaError::System(m) && m@ == "Not implemented"@),
    {
        Err(crate::error::NexaError::System(owned("Not implemented")))
    }

    /// No agents are listed.
    pub fn list_agents(&self) -> (r: Result<Vec<Agent>, crate::error::NexaError>)
        ensures
            r matches Ok(v) && v@.len() == 0,
    {
        Ok(Vec::new())
    }

    /// Looking up a task is not implemented.
    pub fn get_task(&self, id: &str) -> (r: Result<Task, crate::error::NexaError>)
        ensures
            r matches Err(e) && (e matches crate::error::NexaError::System(m) && m@ == "Not implemented"@),
    {
        Err(crate::error::NexaError::System(owned("Not implemented")))
    }

    /// No tasks are listed.
    pub fn list_tasks(&self) -> (r: Result<Vec<Task>, crate::error::NexaError>)
        ensures
            r matches Ok(v) && v@.len() == 0,
    {
        Ok(Vec::new())
    }
}

/// Memory statistics as the control server reports them.
#[derive(Debug, Clone, Copy)]
pub struct MemoryStats {
    pub total_allocated: usize,
    pub allocation_count: usize,
    pub available: usize,
    pub peak_usage: usize,
    pub total_used: usize,
}

/// The message buffer of the control protocol, holding up to 1000 messages.
#[derive(Debug)]
pub struct MCP {
    pub buffer: MessageBuffer,
}

impl MCP {
    /// A protocol endpoint with a buffer of capacity 1000, messages of at most 1 MiB,
    /// a time to live of one hour, three attempts and cleanup every minute.
    pub fn new() -> (m: Self)
        ensures
            m.buffer.wf(),
            m.buffer.spec_len() == 0,
            m.buffer.spec_config().cleanup_interval_ms == 60_000,
            m.buffer.spec_config().message_ttl_ms == 3_600_000,
            m.buffer.spec_config().capacity == 1000,
            m.buffer.spec_config().max_attempts == 3,
            m.buffer.spec_config().max_message_size == 1024 * 1024,
            forall|i: int| 0 <= i < 4 ==> #[trigger] m.buffer.queues()[i].len() == 0,
    {
        let config = BufferConfig {
            cleanup_interval_ms: 60_000,
            message_ttl_ms: 3_600_000,
            capacity: 1000,
            max_attempts: 3,
            max_message_size: 1024 * 1024,
        };
        MCP { buffer: MessageBuffer::new(config) }
    }

    /// Publish a message to the buffer.
    pub fn publish_message(&mut self, msg: BufferedMessage) -> (r: Result<(), String>)
        requires
            old(self).buffer.wf(),
        ensures
            final(self).buffer.wf(),
            final(self).buffer.spec_config() == old(self).buffer.spec_config(),
            r is Ok <==> (msg.payload.len() <= old(self).buffer.spec_config().max_message_size
                && old(self).buffer.spec_len() < old(self).buffer.spec_config().capacity),
            r is Ok ==> final(self).buffer.queues() == crate::mcp::buffer::pushed(
                old(self).buffer.queues(),
                msg,
            ),
            r is Err ==> final(self).buffer.queues() == old(self).buffer.queues(),
    {
        self.buffer.publish(msg)
    }

    /// The oldest live message of the given priority at `now_ms`, if any; expired
    /// messages ahead of it are dropped.
    pub fn get_next_message(&mut self, priority: Priority, now_ms: u64) -> (r: Option<BufferedMessage>)
        requires
            old(self).buffer.wf(),
        ensures
            final(self).buffer.wf(),
            r == taken(old(self).buffer.queue(priority), now_ms, old(self).buffer.spec_config().message_ttl_ms),
            final(self).buffer.queues() == old(self).buffer.queues().update(
                priority.level(),
                after_take(
                    old(self).buffer.queue(priority),
                    now_ms,
                    old(self).buffer.spec_config().message_ttl_ms,
                ),
            ),
    {
        self.buffer.pop(priority, now_ms)
    }
}

} // verus!
