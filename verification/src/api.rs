//! The HTTP API's request and response bodies, and how an outcome of the command
//! handler becomes a response.

use crate::text::owned;
use crate::workflow::WorkflowStep;
use vstd::prelude::*;

verus! {

/// The envelope of every API answer: success, the data if any, the error if any.
#[derive(Debug, Clone)]
pub struct ApiResponse<T> {
    pub success: bool,
    pub data: Option<T>,
    pub error: Option<String>,
}

impl<T> ApiResponse<T> {
    /// The answer for an outcome: its data on success, its error message on failure.
    pub fn from_result(r: Result<T, String>) -> (a: ApiResponse<T>)
        ensures
            a.success == (r is Ok),
            r matches Ok(d) ==> a.data == Some(d) && a.error is None,
            r matches Err(e) ==> a.data is None && a.error == Some(e),
    {
        match r {
            Ok(d) => ApiResponse { success: true, data: Some(d), error: None },
            Err(e) => ApiResponse { success: false, data: None, error: Some(e) },
        }
    }

    /// The answer for an outcome without data.
    pub fn from_unit(r: Result<(), String>) -> (a: ApiResponse<T>)
        ensures
            a.success == (r is Ok),
            a.data is None,
            r is Ok ==> a.error is None,
            r matches Err(e) ==> a.error == Some(e),
    {
        match r {
            Ok(_) => ApiResponse { success: true, data: None, error: None },
            Err(e) => ApiResponse { success: false, data: None, error: Some(e) },
        }
    }
}

/// A request to create an agent.
#[derive(Debug, Clone)]
pub struct AgentRequest {
    pub name: String,
    pub model: Option<String>,
    pub provider: Option<String>,
}

/// A request to create a task.
#[derive(Debug, Clone)]
pub struct TaskRequest {
    pub description: String,
    pub priority: String,
    pub agent_id: Option<String>,
}

/// A request to create a workflow of the given steps.
#[derive(Debug, Clone)]
pub struct WorkflowRequest {
    pub name: String,
    pub steps: Vec<WorkflowStep>,
}

/// A request to start the server, on a port of choice.
#[derive(Debug, Clone, Copy)]
pub struct StartServerRequest {
    pub port: Option<u16>,
}

/// The answer to a request to start or stop the server.
#[derive(Debug, Clone)]
pub struct ServerResponse {
    pub success: bool,
    pub status: Option<String>,
    pub error: Option<String>,
}

impl ServerResponse {
    /// The answer once the server was asked to start or stop: on success the state it
    /// reached (`running` or `stopped`), on failure the error.
    pub fn for_outcome(started: bool, r: Result<(), String>) -> (s: ServerResponse)
        ensures
            s.success == (r is Ok),
            r is Ok ==> (s.status matches Some(t) && t@ == (if started {
                "running"@
            } else {
                "stopped"@
            })) && s.error is None,
            r matches Err(e) ==> s.status is None && s.error == Some(e),
    {
        match r {
            Ok(_) => ServerResponse {
                success: true,
                status: Some(if started {
                    owned("running")
                } else {
                    owned("stopped")
                }),
                error: None,
            },
            Err(e) => ServerResponse { success: false, status: None, error: Some(e) },
        }
    }
}

/// The word for whether the server runs.
pub fn server_status_word(running: bool) -> (s: String)
    ensures
        s@ == (if running {
            "running"@
        } else {
            "stopped"@
        }),
{
    if running {
        owned("running")
    } else {
        owned("stopped")
    }
}

/// An API failure, answered as an internal server error carrying its message.
#[derive(Debug, Clone)]
pub struct ApiError(pub String);

} // verus!
