//! Protocol messages exchanged with agents, and their validation.

use crate::error::NexaError;
use crate::mcp::registry::{Agent, AgentStatus, Task, TaskStatus};
use crate::text::owned;
use vstd::prelude::*;

verus! {

/// Kind of a protocol message.
#[derive(Debug, Clone, Copy, PartialEq, Eq, Structural)]
pub enum MessageType {
    Registration,
    TaskAssignment,
    TaskUpdate,
    StatusUpdate,
    AgentQuery,
    AgentResponse,
    Error,
}

/// A progress figure, held as the bit pattern of the single-precision number the
/// agent reported.
#[derive(Debug, Clone, Copy, PartialEq, Eq, Structural)]
pub struct Progress {
    pub bits: u32,
}

/// Whether the bits encode a NaN: all exponent bits set and a non-zero fraction.
pub open spec fn is_nan_bits(bits: u32) -> bool {
    (bits & 0x7F80_0000u32) == 0x7F80_0000u32 && (bits & 0x007F_FFFFu32) != 0
}

/// Whether the encoded number compares below zero: a negative sign on anything but a
/// zero or a NaN.
pub open spec fn below_zero(bits: u32) -> bool {
    !is_nan_bits(bits) && (bits & 0x8000_0000u32) != 0 && (bits & 0x7FFF_FFFFu32) != 0
}

/// Whether the encoded number compares above one hundred (`0x42C8_0000` encodes 100):
/// for non-negative numbers that are not NaN, the order of the encodings is the order
/// of the numbers.
pub open spec fn above_hundred(bits: u32) -> bool {
    !is_nan_bits(bits) && (bits & 0x8000_0000u32) == 0 && bits > 0x42C8_0000u32
}

/// Whether `progress < 0.0 || progress > 100.0` holds for the encoded number.
pub open spec fn out_of_range(p: Progress) -> bool {
    below_zero(p.bits) || above_hundred(p.bits)
}

impl Progress {
    /// The progress whose encoding is `bits`.
    pub fn from_bits(bits: u32) -> (p: Progress)
        ensures
            p.bits == bits,
    {
        Progress { bits }
    }

    /// Whether the progress lies outside 0 to 100 (a NaN lies nowhere, so not outside).
    pub fn is_out_of_range(&self) -> (r: bool)
        ensures
            r == out_of_range(*self),
    {
        let b = self.bits;
        let nan = (b & 0x7F80_0000u32) == 0x7F80_0000u32 && (b & 0x007F_FFFFu32) != 0;
        let negative = (b & 0x8000_0000u32) != 0;
        if nan {
            false
        } else if negative {
            (b & 0x7FFF_FFFFu32) != 0
        } else {
            b > 0x42C8_0000u32
        }
    }
}

/// Registration of an agent.
#[derive(Debug)]
pub struct RegistrationPayload {
    pub agent: Agent,
}

/// Assignment of a task to an agent. The deadline is in milliseconds since the epoch.
#[derive(Debug)]
pub struct TaskAssignmentPayload {
    pub task: Task,
    pub agent_id: String,
    pub deadline_ms: Option<i64>,
}

/// Progress report on a task.
#[derive(Debug)]
pub struct TaskUpdatePayload {
    pub task_id: String,
    pub status: TaskStatus,
    pub progress: Option<Progress>,
    pub message: Option<String>,
}

/// Status report of an agent.
#[derive(Debug)]
pub struct StatusUpdatePayload {
    pub agent_id: String,
    pub status: AgentStatus,
    pub metrics: Option<Vec<(String, String)>>,
}

/// Query for agents with a capability.
#[derive(Debug)]
pub struct AgentQueryPayload {
    pub capability_type: String,
    pub requirements: Option<Vec<(String, String)>>,
}

/// Answer to an agent query.
#[derive(Debug)]
pub struct AgentResponsePayload {
    pub agents: Vec<Agent>,
    pub query_id: String,
}

/// An error report.
#[derive(Debug)]
pub struct ErrorPayload {
    pub code: u32,
    pub message: String,
    pub details: Option<String>,
}

/// A request to generate code.
#[derive(Debug)]
pub struct CodeGenerationTask {
    pub prompt: String,
    pub language: String,
    pub requirements: Option<Vec<(String, String)>>,
}

/// Generated code.
#[derive(Debug)]
pub struct CodeGenerationResult {
    pub code: String,
    pub language: String,
    pub metrics: Option<Vec<(String, String)>>,
}

/// The content of a protocol message.
#[derive(Debug)]
pub enum MessagePayload {
    Registration(RegistrationPayload),
    TaskAssignment(TaskAssignmentPayload),
    TaskUpdate(TaskUpdatePayload),
    StatusUpdate(StatusUpdatePayload),
    AgentQuery(AgentQueryPayload),
    AgentResponse(AgentResponsePayload),
    Error(ErrorPayload),
    CodeGeneration(CodeGenerationTask),
    CodeResult(CodeGenerationResult),
}

/// A protocol message. The timestamp is in milliseconds since the epoch.
#[derive(Debug)]
pub struct Message {
    pub id: String,
    pub message_type: MessageType,
    pub timestamp_ms: i64,
    pub sender_id: String,
    pub payload: MessagePayload,
}

/// The message of the first rule a payload breaks, or `None` when it is valid.
pub open spec fn payload_error(p: MessagePayload) -> Option<Seq<char>> {
    match p {
        MessagePayload::Registration(r) => if r.agent.id@.len() == 0 {
            Some("Agent ID cannot be empty"@)
        } else {
            None
        },
        MessagePayload::TaskAssignment(a) => if a.agent_id@.len() == 0 {
            Some("Agent ID cannot be empty"@)
        } else {
            None
        },
        MessagePayload::TaskUpdate(u) => if u.task_id@.len() == 0 {
            Some("Task ID cannot be empty"@)
        } else if u.progress matches Some(p) && out_of_range(p) {
            Some("Progress must be between 0 and 100"@)
        } else {
            None
        },
        _ => None,
    }
}

impl Message {
    /// A message with a fresh random id, stamped `now_ms`.
    pub fn new(message_type: MessageType, sender_id: String, payload: MessagePayload, now_ms: i64) -> (m: Message)
        ensures
            crate::ids::hyphenated_shape(m.id@),
            m.message_type == message_type,
            m.sender_id == sender_id,
            m.payload == payload,
            m.timestamp_ms == now_ms,
    {
        Message {
            id: crate::ids::new_id_string(),
            message_type,
            timestamp_ms: now_ms,
            sender_id,
            payload,
        }
    }

    /// Check the payload: a registration needs an agent id, an assignment an agent id,
    /// and an update a task id and a progress between 0 and 100 when one is given.
    pub fn validate(&self) -> (r: Result<(), NexaError>)
        ensures
            r is Ok <==> payload_error(self.payload) is None,
            r matches Err(e) ==> (e matches NexaError::Protocol(m) && Some(m@) == payload_error(
                self.payload,
            )),
    {
        match &self.payload {
            MessagePayload::Registration(p) => {
                if p.agent.id.as_str().is_empty() {
                    return Err(NexaError::Protocol(owned("Agent ID cannot be empty")));
                }
                Ok(())
            },
            MessagePayload::TaskAssignment(p) => {
                if p.agent_id.as_str().is_empty() {
                    return Err(NexaError::Protocol(owned("Agent ID cannot be empty")));
                }
                Ok(())
            },
            MessagePayload::TaskUpdate(p) => {
                if p.task_id.as_str().is_empty() {
                    return Err(NexaError::Protocol(owned("Task ID cannot be empty")));
                }
                match &p.progress {
                    Some(progress) => {
                        if progress.is_out_of_range() {
                            return Err(
                                NexaError::Protocol(owned("Progress must be between 0 and 100")),
                            );
                        }
                    },
                    None => {},
                }
                Ok(())
            },
            _ => Ok(()),
        }
    }
}

/// Handles protocol operations; it tracks whether the protocol is active.
#[derive(Debug, Clone, Copy)]
pub struct ProtocolHandler {
    active: bool,
}

impl ProtocolHandler {
    pub closed spec fn spec_active(&self) -> bool {
        self.active
    }

    /// A handler that is not yet active.
    pub fn new() -> (h: Self)
        ensures
            !h.spec_active(),
    {
        ProtocolHandler { active: false }
    }

    /// Accept a control message; every message is accepted.
    pub fn handle_message(&self, _message: &crate::mcp::MCPMessage) -> (r: Result<(), NexaError>)
        ensures
            r is Ok,
    {
        Ok(())
    }

    /// Whether the protocol is active.
    pub fn is_active(&self) -> (r: bool)
        ensures
            r == self.spec_active(),
    {
        self.active
    }
}

} // verus!
