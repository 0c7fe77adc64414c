//! The dashboard's state machine. Each event of the window (a tick, a button, a typed
//! field, the outcome of earlier work) gives the next state and the work to start,
//! which the window performs and answers with a further event. Times are
//! milliseconds since the Unix epoch.

use super::types::{
    lines, priority_rank, LLMServer, LLMStatus, LogEntry, LogLevel, LogLine, TaskPriority,
    MAX_LOG_ENTRIES,
};
use crate::cli::LLMModel;
use crate::mcp::registry::{clone_opt_string, Task, TaskStatus};
use crate::monitoring::pushed_capped;
use crate::text::{
    decimal, owned, parse_unsigned, push_decimal, push_signed_decimal, push_str, signed_decimal,
    str_eq, unsigned_value,
};
use vstd::prelude::*;

verus! {

/// Which of the dashboard's logs an entry goes to.
#[derive(Debug, Clone, Copy, PartialEq, Eq, Structural)]
pub enum LogKind {
    Server,
    Connection,
    Error,
}

/// The source written on an entry of a log.
pub open spec fn kind_source(k: LogKind) -> Seq<char> {
    match k {
        LogKind::Server => "server"@,
        LogKind::Connection => "connection"@,
        LogKind::Error => "error"@,
    }
}

/// An agent as the dashboard lists it.
#[derive(Debug, Clone)]
pub struct AgentEntry {
    pub id: String,
    pub name: String,
}

/// How often and how patiently an agent retries.
#[derive(Debug, Clone, Copy)]
pub struct RetryPolicy {
    pub max_retries: u32,
    pub backoff_ms: u64,
    pub max_backoff_ms: u64,
}

impl Default for RetryPolicy {
    /// Three retries, backing off from one second up to ten.
    fn default() -> (p: RetryPolicy)
        ensures
            p.max_retries == 3,
            p.backoff_ms == 1000,
            p.max_backoff_ms == 10000,
    {
        RetryPolicy { max_retries: 3, backoff_ms: 1000, max_backoff_ms: 10000 }
    }
}

/// The settings a new agent is created with.
#[derive(Debug, Clone)]
pub struct AgentConfig {
    pub max_concurrent_tasks: u32,
    pub priority_threshold: u32,
    pub llm_provider: String,
    pub llm_model: String,
    pub retry_policy: RetryPolicy,
    pub timeout_seconds: u64,
}

/// The dashboard's state.
#[derive(Debug)]
pub struct NexaApp {
    pub server_status: String,
    pub total_connections: u64,
    pub active_connections: u32,
    pub failed_connections: u64,
    pub last_error: Option<String>,
    pub uptime_secs: u64,
    pub should_exit: bool,
    pub server_logs: Vec<LogEntry>,
    pub connection_logs: Vec<LogEntry>,
    pub error_logs: Vec<LogEntry>,
    pub new_agent_name: String,
    pub new_agent_capabilities: String,
    pub agents: Vec<AgentEntry>,
    pub agent_options: Vec<String>,
    pub new_task_description: String,
    pub new_task_priority: TaskPriority,
    pub selected_agent: Option<String>,
    pub tasks: Vec<Task>,
    pub max_connections_input: String,
    pub current_view: super::View,
    pub llm_servers: Vec<LLMServer>,
    pub new_llm_address: String,
    pub new_llm_provider: String,
    pub selected_provider: String,
    pub selected_model: String,
    pub max_concurrent_tasks_input: String,
    pub priority_threshold_input: String,
    pub max_retries_input: String,
    pub backoff_ms_input: String,
    pub max_backoff_ms_input: String,
    pub timeout_seconds_input: String,
}

/// An event of the window.
pub enum Message {
    Tick,
    UpdateState(String, usize, crate::server::ServerMetrics),
    StartServer,
    StopServer,
    ServerStarted(bool, Option<String>),
    ServerStopped(bool, Option<String>),
    Exit,
    CreateAgent,
    AgentNameChanged(String),
    AgentCapabilitiesChanged(String),
    AgentCreated(Result<AgentEntry, String>),
    CreateTask,
    TaskDescriptionChanged(String),
    TaskPriorityChanged(TaskPriority),
    TaskAssignedAgent(String),
    TaskCreated(Result<(), String>),
    SetMaxConnections(String),
    MaxConnectionsUpdated(Result<(), String>),
    ChangeView(super::View),
    LLMConnected(String, String, Result<(), String>),
    AddLLMServer(String),
    RemoveLLMServer(String),
    LLMAddressChanged(String),
    LLMProviderChanged(String),
    ConnectLLM(String),
    DisconnectLLM(String),
    ModelsLoaded(String, Result<Vec<LLMModel>, String>),
    SelectModel(String, String),
    ModelSelected(String, String, Result<(), String>),
    RefreshModels(String),
    TestModel(String, String),
    ModelTested(String, String, Result<String, String>),
    WorkflowCreated(Result<String, String>),
    ExecuteWorkflow(String),
    WorkflowExecuted(Result<(), String>),
    UpdateAgentCapabilities(String, Vec<String>),
    CapabilitiesUpdated(Result<(), String>),
    SetAgentHierarchy(String, String),
    HierarchyUpdated(Result<(), String>),
    MaxConcurrentTasksChanged(String),
    PriorityThresholdChanged(String),
    MaxRetriesChanged(String),
    BackoffMsChanged(String),
    MaxBackoffMsChanged(String),
    TimeoutSecondsChanged(String),
    TestAgent(String),
    ToggleAgentStatus(String),
    DeleteAgent(String),
    AgentTested,
    AgentStatusToggled,
    AgentDeleted,
    AgentsLoaded(Vec<AgentEntry>),
    Error(String),
}

/// The work the window is to start after an event; each answers with the event named.
pub enum Action {
    /// Nothing to do.
    Idle,
    /// Close the window.
    CloseWindow,
    /// Read the server's state, connections and metrics; answered by `UpdateState`.
    QueryServer,
    /// Start the server; answered by `ServerStarted`.
    StartServer,
    /// Stop the server; answered by `ServerStopped`.
    StopServer,
    /// Create an agent; answered by `AgentCreated`.
    CreateAgent { name: String, config: AgentConfig },
    /// Create a task; answered by `TaskCreated`.
    CreateTask { description: String, priority: TaskPriority, agent_id: String },
    /// Set the server's connection limit; answered by `MaxConnectionsUpdated`.
    SetMaxConnections(u32),
    /// Add an LLM server; answered by `LLMConnected` without agent.
    AddLLMServer { provider: String, address: String },
    /// Remove an LLM server; answered by `LLMConnected` without agent.
    RemoveLLMServer(String),
    /// Connect to a provider and list its models; answered by `ModelsLoaded`.
    ConnectLLM(String),
    /// Disconnect from a provider; answered by `LLMConnected` without agent.
    DisconnectLLM(String),
    /// Select a provider's model; answered by `ModelSelected`.
    SelectModel { provider: String, model: String },
    /// List a provider's models; answered by `ModelsLoaded`.
    ListModels(String),
    /// Try a model; answered by `ModelTested`.
    TestModel { provider: String, model: String },
    /// Run a workflow; answered by `WorkflowExecuted`.
    ExecuteWorkflow(String),
    /// Replace an agent's capabilities; answered by `CapabilitiesUpdated`.
    UpdateAgentCapabilities { agent_id: String, capabilities: Vec<String> },
    /// Place an agent under another; answered by `HierarchyUpdated`.
    SetAgentHierarchy { parent_id: String, child_id: String },
    /// Test an agent; answered by `AgentTested`, or `Error` with the failure.
    TestAgent(String),
    /// Clear an agent's capabilities to toggle it; answered by `AgentStatusToggled`, or `Error`.
    ToggleAgentStatus(String),
    /// Clear an agent's capabilities to retire it; answered by `AgentDeleted`, or `Error`.
    DeleteAgent(String),
    /// Reload the agents; answered by `AgentsLoaded`, or `Error`.
    ListAgents,
}

/// The three logs of the dashboard: server, connection and error.
pub open spec fn logs(a: NexaApp) -> (Seq<LogLine>, Seq<LogLine>, Seq<LogLine>) {
    (lines(a.server_logs@), lines(a.connection_logs@), lines(a.error_logs@))
}

/// The logs after an entry of `kind` is written at `ts`.
pub open spec fn log_to(
    t: (Seq<LogLine>, Seq<LogLine>, Seq<LogLine>),
    kind: LogKind,
    msg: Seq<char>,
    level: LogLevel,
    ts: i64,
) -> (Seq<LogLine>, Seq<LogLine>, Seq<LogLine>) {
    let l = LogLine { timestamp_ms: ts, message: msg, level, source: kind_source(kind) };
    match kind {
        LogKind::Server => (pushed_capped(t.0, l, MAX_LOG_ENTRIES as nat), t.1, t.2),
        LogKind::Connection => (t.0, pushed_capped(t.1, l, MAX_LOG_ENTRIES as nat), t.2),
        LogKind::Error => (t.0, t.1, pushed_capped(t.2, l, MAX_LOG_ENTRIES as nat)),
    }
}

/// `b` is `a` with, at most, other logs.
pub open spec fn same_but_logs(a: NexaApp, b: NexaApp) -> bool {
    b == NexaApp {
        server_logs: b.server_logs,
        connection_logs: b.connection_logs,
        error_logs: b.error_logs,
        ..a
    }
}

/// `b` is `a` with one more entry in the log of `kind`, and nothing else changed.
pub open spec fn logged(a: NexaApp, b: NexaApp, kind: LogKind, msg: Seq<char>, level: LogLevel, ts: i64) -> bool {
    same_but_logs(a, b) && logs(b) == log_to(logs(a), kind, msg, level, ts)
}

/// `b` is `a` with the logs of `a` advanced to `t`, and nothing else changed.
pub open spec fn with_logs(a: NexaApp, b: NexaApp, t: (Seq<LogLine>, Seq<LogLine>, Seq<LogLine>)) -> bool {
    same_but_logs(a, b) && logs(b) == t
}

/// A result reported either as a success message to one log or as a failure message,
/// quoting the error, to the error log.
pub open spec fn reported(
    a: NexaApp,
    b: NexaApp,
    r: Result<(), String>,
    ok_kind: LogKind,
    ok_msg: Seq<char>,
    err_prefix: Seq<char>,
    ts: i64,
) -> bool {
    match r {
        Ok(_) => logged(a, b, ok_kind, ok_msg, LogLevel::Info, ts),
        Err(e) => logged(a, b, LogKind::Error, err_prefix + e@, LogLevel::Error, ts),
    }
}

/// The first server of `s` with provider `p`.
pub open spec fn first_provider(s: Seq<LLMServer>, p: Seq<char>, i: int) -> bool {
    0 <= i < s.len() && s[i].provider@ == p && forall|k: int| 0 <= k < i ==> s[k].provider@ != p
}

/// Whether some server of `s` has provider `p`.
pub open spec fn has_provider(s: Seq<LLMServer>, p: Seq<char>) -> bool {
    exists|i: int| 0 <= i < s.len() && s[i].provider@ == p
}

/// The first server of `s` that is connected.
pub open spec fn first_connected(s: Seq<LLMServer>, i: int) -> bool {
    0 <= i < s.len() && s[i].status == LLMStatus::Connected && forall|k: int|
        0 <= k < i ==> s[k].status != LLMStatus::Connected
}

/// The value typed in a numeric field, or `default` when it does not parse.
pub open spec fn typed_or(s: Seq<char>, max: nat, default: nat) -> nat {
    match unsigned_value(s, max) {
        Some(v) => v,
        None => default,
    }
}

/// The agent settings the dashboard's fields give, for the provider and model of
/// server `srv`.
pub open spec fn config_from_fields(a: NexaApp, srv: LLMServer, c: AgentConfig) -> bool {
    &&& c.max_concurrent_tasks == typed_or(a.max_concurrent_tasks_input@, u32::MAX as nat, 5)
    &&& c.priority_threshold == typed_or(a.priority_threshold_input@, u32::MAX as nat, 2)
    &&& c.llm_provider == srv.provider
    &&& c.llm_model@ == (match srv.selected_model {
        Some(m) => m@,
        None => Seq::<char>::empty(),
    })
    &&& c.retry_policy.max_retries == typed_or(a.max_retries_input@, u32::MAX as nat, 3)
    &&& c.retry_policy.backoff_ms == typed_or(a.backoff_ms_input@, u64::MAX as nat, 1000)
    &&& c.retry_policy.max_backoff_ms == typed_or(a.max_backoff_ms_input@, u64::MAX as nat, 10000)
    &&& c.timeout_seconds == typed_or(a.timeout_seconds_input@, u64::MAX as nat, 30)
}

/// The task recorded when creation succeeded at `ts`.
pub open spec fn recorded_task(a: NexaApp, t: Task, ts: i64) -> bool {
    &&& t.id@ == signed_decimal(ts as int)
    &&& t.title == a.new_task_description
    &&& t.description == a.new_task_description
    &&& t.status == TaskStatus::Pending
    &&& t.steps@.len() == 0
    &&& t.requirements@.len() == 0
    &&& t.assigned_agent == a.selected_agent
    &&& t.created_at_ms == ts
    &&& t.deadline_ms is None
    &&& t.priority == priority_rank(a.new_task_priority)
    &&& t.estimated_duration == 3600
}

/// What the server events do.
pub open spec fn server_step(a: NexaApp, m: Message, b: NexaApp, act: Action, ts: i64) -> bool {
    match m {
        Message::Tick => if a.should_exit {
            b == a && act is CloseWindow
        } else {
            &&& b == NexaApp { uptime_secs: (a.uptime_secs + 1) as u64, ..a }
            &&& (if a.server_status@ == "Running"@ || a.server_status@ == "Starting"@ {
                act is QueryServer
            } else {
                act is Idle
            })
        },
        Message::UpdateState(state, active, metrics) => {
            let t0 = logs(a);
            let t1 = if a.server_status@ == "Starting"@ {
                if state@ == "Running"@ {
                    log_to(
                        log_to(t0, LogKind::Server, "Server started successfully"@, LogLevel::Info, ts),
                        LogKind::Server,
                        "Active connections: "@ + decimal(active as nat),
                        LogLevel::Debug,
                        ts,
                    )
                } else if state@ == "Error"@ || state@ == "Stopped"@ {
                    log_to(t0, LogKind::Error, "Server failed to start"@, LogLevel::Error, ts)
                } else {
                    t0
                }
            } else if active > 10 {
                log_to(
                    t0,
                    LogKind::Connection,
                    "High number of connections: "@ + decimal(active as nat),
                    LogLevel::Warning,
                    ts,
                )
            } else {
                t0
            };
            let t2 = match metrics.last_error {
                Some(e) => log_to(t1, LogKind::Error, e@, LogLevel::Error, ts),
                None => t1,
            };
            &&& with_logs(
                NexaApp {
                    server_status: state,
                    active_connections: active as u32,
                    total_connections: metrics.total_connections,
                    failed_connections: metrics.failed_connections,
                    last_error: if metrics.last_error is Some {
                        metrics.last_error
                    } else {
                        a.last_error
                    },
                    ..a
                },
                b,
                t2,
            )
            &&& act is Idle
        },
        Message::StartServer => if a.server_status@ != "Starting"@ {
            &&& b.server_status@ == "Starting"@
            &&& logged(
                NexaApp { server_status: b.server_status, ..a },
                b,
                LogKind::Server,
                "Starting server..."@,
                LogLevel::Info,
                ts,
            )
            &&& act is StartServer
        } else {
            b == a && act is Idle
        },
        Message::StopServer => if a.server_status@ != "Stopping"@ {
            &&& b.server_status@ == "Stopping"@
            &&& logged(
                NexaApp { server_status: b.server_status, ..a },
                b,
                LogKind::Server,
                "Stopping server..."@,
                LogLevel::Info,
                ts,
            )
            &&& act is StopServer
        } else {
            b == a && act is Idle
        },
        Message::ServerStarted(success, error) => {
            &&& act is Idle
            &&& if success {
                &&& b.server_status@ == "Running"@
                &&& logged(
                    NexaApp { server_status: b.server_status, last_error: None, ..a },
                    b,
                    LogKind::Server,
                    "Server started successfully"@,
                    LogLevel::Info,
                    ts,
                )
            } else {
                &&& b.server_status@ == "Error"@
                &&& match error {
                    Some(err) => {
                        &&& b.last_error matches Some(le) && le@ == "Failed to start server: "@ + err@
                        &&& logged(
                            NexaApp { server_status: b.server_status, last_error: b.last_error, ..a },
                            b,
                            LogKind::Error,
                            "Failed to start server: "@ + err@,
                            LogLevel::Error,
                            ts,
                        )
                    },
                    None => b == NexaApp { server_status: b.server_status, ..a },
                }
            }
        },
        Message::ServerStopped(success, error) => {
            &&& act is Idle
            &&& if success {
                &&& b.server_status@ == "Stopped"@
                &&& logged(
                    NexaApp {
                        server_status: b.server_status,
                        last_error: None,
                        total_connections: 0,
                        active_connections: 0,
                        failed_connections: 0,
                        ..a
                    },
                    b,
                    LogKind::Server,
                    "Server stopped successfully"@,
                    LogLevel::Info,
                    ts,
                )
            } else {
                &&& b.server_status@ == "Error"@
                &&& match error {
                    Some(err) => {
                        &&& b.last_error matches Some(le) && le@ == "Failed to stop server: "@ + err@
                        &&& logged(
                            NexaApp { server_status: b.server_status, last_error: b.last_error, ..a },
                            b,
                            LogKind::Error,
                            "Failed to stop server: "@ + err@,
                            LogLevel::Error,
                            ts,
                        )
                    },
                    None => b == NexaApp { server_status: b.server_status, ..a },
                }
            }
        },
        Message::Exit => b == NexaApp { should_exit: true, ..a } && act is Idle,
        _ => true,
    }
}

/// What the agent, task, workflow and form events do.
pub open spec fn agent_step(a: NexaApp, m: Message, b: NexaApp, act: Action, ts: i64) -> bool {
    match m {
        Message::CreateAgent => if exists|i: int| first_connected(a.llm_servers@, i) {
            let i = choose|i: int| first_connected(a.llm_servers@, i);
            b == a && (act matches Action::CreateAgent { name, config } && name == a.new_agent_name
                && config_from_fields(a, a.llm_servers@[i], config))
        } else {
            act is Idle && logged(
                a,
                b,
                LogKind::Error,
                "No connected LLM server available. Please connect to a server first."@,
                LogLevel::Error,
                ts,
            )
        },
        Message::AgentNameChanged(v) => b == NexaApp { new_agent_name: v, ..a } && act is Idle,
        Message::AgentCapabilitiesChanged(v) => b == NexaApp { new_agent_capabilities: v, ..a }
            && act is Idle,
        Message::AgentCreated(r) => act is Idle && match r {
            Ok(agent) => b.agents@ == a.agents@.push(agent) && logged(
                NexaApp { agents: b.agents, ..a },
                b,
                LogKind::Server,
                "Agent "@ + agent.name@ + " created successfully"@,
                LogLevel::Info,
                ts,
            ),
            Err(e) => logged(a, b, LogKind::Error, "Failed to create agent: "@ + e@, LogLevel::Error, ts),
        },
        Message::CreateTask => b == a && (act matches Action::CreateTask {
            description,
            priority,
            agent_id,
        } && description == a.new_task_description && priority == a.new_task_priority && agent_id@
            == (match a.selected_agent {
            Some(x) => x@,
            None => Seq::<char>::empty(),
        })),
        Message::TaskDescriptionChanged(v) => b == NexaApp { new_task_description: v, ..a }
            && act is Idle,
        Message::TaskPriorityChanged(p) => b == NexaApp { new_task_priority: p, ..a } && act is Idle,
        Message::TaskAssignedAgent(id) => b == NexaApp { selected_agent: Some(id), ..a } && act is Idle,
        Message::TaskCreated(r) => act is Idle && match r {
            Ok(_) => {
                &&& b.tasks@.len() == a.tasks@.len() + 1
                &&& b.tasks@.take(a.tasks@.len() as int) == a.tasks@
                &&& recorded_task(a, b.tasks@.last(), ts)
                &&& b.new_task_description@.len() == 0
                &&& logged(
                    NexaApp {
                        tasks: b.tasks,
                        new_task_description: b.new_task_description,
                        selected_agent: None,
                        ..a
                    },
                    b,
                    LogKind::Server,
                    "Task created successfully"@,
                    LogLevel::Info,
                    ts,
                )
            },
            Err(e) => logged(a, b, LogKind::Error, "Failed to create task: "@ + e@, LogLevel::Error, ts),
        },
        Message::SetMaxConnections(input) => {
            &&& b == NexaApp { max_connections_input: b.max_connections_input, ..a }
            &&& b.max_connections_input@ == input@
            &&& match unsigned_value(input@, u32::MAX as nat) {
                Some(v) => act == Action::SetMaxConnections(v as u32),
                None => act is Idle,
            }
        },
        Message::MaxConnectionsUpdated(r) => act is Idle && reported(
            a,
            b,
            r,
            LogKind::Server,
            "Max connections updated successfully"@,
            "Failed to update max connections: "@,
            ts,
        ),
        Message::ChangeView(v) => b == NexaApp { current_view: v, ..a } && act is Idle,
        Message::WorkflowCreated(r) => act is Idle && match r {
            Ok(name) => logged(a, b, LogKind::Server, "Workflow "@ + name@ + " created successfully"@, LogLevel::Info, ts),
            Err(e) => logged(a, b, LogKind::Error, "Failed to create workflow: "@ + e@, LogLevel::Error, ts),
        },
        Message::ExecuteWorkflow(id) => b == a && act == Action::ExecuteWorkflow(id),
        Message::WorkflowExecuted(r) => act is Idle && reported(
            a,
            b,
            r,
            LogKind::Server,
            "Workflow executed successfully"@,
            "Workflow execution failed: "@,
            ts,
        ),
        Message::UpdateAgentCapabilities(id, caps) => b == a && act
            == Action::UpdateAgentCapabilities { agent_id: id, capabilities: caps },
        Message::CapabilitiesUpdated(r) => act is Idle && reported(
            a,
            b,
            r,
            LogKind::Server,
            "Agent capabilities updated successfully"@,
            "Failed to update capabilities: "@,
            ts,
        ),
        Message::SetAgentHierarchy(p, c) => b == a && act == Action::SetAgentHierarchy {
            parent_id: p,
            child_id: c,
        },
        Message::HierarchyUpdated(r) => act is Idle && reported(
            a,
            b,
            r,
            LogKind::Server,
            "Agent hierarchy updated successfully"@,
            "Failed to update hierarchy: "@,
            ts,
        ),
        Message::MaxConcurrentTasksChanged(v) => b == NexaApp { max_concurrent_tasks_input: v, ..a }
            && act is Idle,
        Message::PriorityThresholdChanged(v) => b == NexaApp { priority_threshold_input: v, ..a }
            && act is Idle,
        Message::MaxRetriesChanged(v) => b == NexaApp { max_retries_input: v, ..a } && act is Idle,
        Message::BackoffMsChanged(v) => b == NexaApp { backoff_ms_input: v, ..a } && act is Idle,
        Message::MaxBackoffMsChanged(v) => b == NexaApp { max_backoff_ms_input: v, ..a } && act is Idle,
        Message::TimeoutSecondsChanged(v) => b == NexaApp { timeout_seconds_input: v, ..a }
            && act is Idle,
        Message::TestAgent(id) => b == a && act == Action::TestAgent(id),
        Message::ToggleAgentStatus(id) => b == a && act == Action::ToggleAgentStatus(id),
        Message::DeleteAgent(id) => b == a && act == Action::DeleteAgent(id),
        Message::AgentTested => b == a && act is ListAgents,
        Message::AgentStatusToggled => b == a && act is ListAgents,
        Message::AgentDeleted => b == a && act is ListAgents,
        Message::AgentsLoaded(v) => b == NexaApp { agents: v, ..a } && act is Idle,
        Message::Error(e) => act is Idle && logged(a, b, LogKind::Error, "Error: "@ + e@, LogLevel::Error, ts),
        _ => true,
    }
}

/// The position of the first server of `s` with provider `p`, if any.
pub open spec fn provider_index(s: Seq<LLMServer>, p: Seq<char>) -> Option<int> {
    if exists|i: int| first_provider(s, p, i) {
        Some(choose|i: int| first_provider(s, p, i))
    } else {
        None
    }
}

/// The servers with the first of provider `p` replaced by `f` applied to it.
pub open spec fn servers_with(s: Seq<LLMServer>, p: Seq<char>, f: spec_fn(LLMServer) -> LLMServer) -> Seq<LLMServer> {
    match provider_index(s, p) {
        Some(i) => s.update(i, f(s[i])),
        None => s,
    }
}

/// What the LLM server events do.
pub open spec fn llm_step(a: NexaApp, m: Message, b: NexaApp, act: Action, ts: i64) -> bool {
    match m {
        Message::LLMConnected(agent, p, r) => {
            let found = provider_index(a.llm_servers@, p@) is Some;
            let t1 = if found {
                match r {
                    Ok(_) => log_to(
                        logs(a),
                        LogKind::Connection,
                        "LLM connection successful for provider "@ + p@,
                        LogLevel::Info,
                        ts,
                    ),
                    Err(e) => log_to(
                        logs(a),
                        LogKind::Error,
                        "LLM connection failed for provider "@ + p@ + ": "@ + e@,
                        LogLevel::Error,
                        ts,
                    ),
                }
            } else {
                logs(a)
            };
            let t2 = if agent@.len() > 0 {
                match r {
                    Ok(_) => log_to(
                        t1,
                        LogKind::Server,
                        "LLM connection successful for agent "@ + agent@ + " with provider "@ + p@,
                        LogLevel::Info,
                        ts,
                    ),
                    Err(e) => log_to(
                        t1,
                        LogKind::Error,
                        "LLM connection failed for agent "@ + agent@ + " with provider "@ + p@ + ": "@
                            + e@,
                        LogLevel::Error,
                        ts,
                    ),
                }
            } else {
                t1
            };
            &&& act is Idle
            &&& b.llm_servers@ == servers_with(
                a.llm_servers@,
                p@,
                |x: LLMServer|
                    match r {
                        Ok(_) => LLMServer { status: LLMStatus::Connected, last_error: None, ..x },
                        Err(e) => LLMServer { status: LLMStatus::Error, last_error: Some(e), ..x },
                    },
            )
            &&& with_logs(
                NexaApp {
                    llm_servers: b.llm_servers,
                    selected_provider: if found && r is Ok {
                        p
                    } else {
                        a.selected_provider
                    },
                    ..a
                },
                b,
                t2,
            )
        },
        Message::AddLLMServer(p) => b == a && act == Action::AddLLMServer {
            provider: p,
            address: a.new_llm_address,
        },
        Message::RemoveLLMServer(p) => b == a && act == Action::RemoveLLMServer(p),
        Message::LLMAddressChanged(v) => b == NexaApp { new_llm_address: v, ..a } && act is Idle,
        Message::LLMProviderChanged(v) => b == NexaApp { new_llm_provider: v, ..a } && act is Idle,
        Message::ConnectLLM(p) => {
            &&& act == Action::ConnectLLM(p)
            &&& b.llm_servers@ == servers_with(
                a.llm_servers@,
                p@,
                |x: LLMServer| LLMServer { status: LLMStatus::Connecting, ..x },
            )
            &&& b == NexaApp { llm_servers: b.llm_servers, ..a }
        },
        Message::DisconnectLLM(p) => b == a && act == Action::DisconnectLLM(p),
        Message::ModelsLoaded(p, r) => {
            &&& act is Idle
            &&& match provider_index(a.llm_servers@, p@) {
                Some(i) => {
                    let s0 = a.llm_servers@[i];
                    match r {
                        Ok(models) => {
                            &&& b.llm_servers@.len() == a.llm_servers@.len()
                            &&& b.llm_servers@ == a.llm_servers@.update(
                                i,
                                LLMServer {
                                    available_models: models,
                                    model_names: b.llm_servers@[i].model_names,
                                    status: LLMStatus::Connected,
                                    ..s0
                                },
                            )
                            &&& b.llm_servers@[i].model_names@.map_values(|x: String| x@)
                                == models@.map_values(|md: LLMModel| md.name@)
                            &&& logged(
                                NexaApp { llm_servers: b.llm_servers, ..a },
                                b,
                                LogKind::Connection,
                                "Loaded "@ + decimal(models@.len()) + " models for provider "@ + p@,
                                LogLevel::Info,
                                ts,
                            )
                        },
                        Err(e) => {
                            &&& b.llm_servers@ == a.llm_servers@.update(
                                i,
                                LLMServer { status: LLMStatus::Error, last_error: Some(e), ..s0 },
                            )
                            &&& logged(
                                NexaApp { llm_servers: b.llm_servers, ..a },
                                b,
                                LogKind::Error,
                                "Failed to load models for provider "@ + p@ + ": "@ + e@,
                                LogLevel::Error,
                                ts,
                            )
                        },
                    }
                },
                None => logged(a, b, LogKind::Error, "Server not found: "@ + p@, LogLevel::Error, ts),
            }
        },
        Message::SelectModel(p, md) => {
            let found = provider_index(a.llm_servers@, p@) is Some;
            &&& act == Action::SelectModel { provider: p, model: md }
            &&& b.llm_servers@ == servers_with(
                a.llm_servers@,
                p@,
                |x: LLMServer| LLMServer { selected_model: Some(md), ..x },
            )
            &&& b == NexaApp {
                llm_servers: b.llm_servers,
                selected_model: if found {
                    md
                } else {
                    a.selected_model
                },
                ..a
            }
        },
        Message::ModelSelected(p, md, r) => act is Idle && match r {
            Ok(_) => logged(
                a,
                b,
                LogKind::Connection,
                "Selected model "@ + md@ + " for provider "@ + p@,
                LogLevel::Info,
                ts,
            ),
            Err(e) => {
                &&& b.llm_servers@ == servers_with(
                    a.llm_servers@,
                    p@,
                    |x: LLMServer| LLMServer { last_error: Some(e), ..x },
                )
                &&& logged(
                    NexaApp { llm_servers: b.llm_servers, ..a },
                    b,
                    LogKind::Error,
                    "Failed to select model "@ + md@ + " for provider "@ + p@ + ": "@ + e@,
                    LogLevel::Error,
                    ts,
                )
            },
        },
        Message::RefreshModels(p) => b == a && act == Action::ListModels(p),
        Message::TestModel(p, md) => b == a && act == Action::TestModel { provider: p, model: md },
        Message::ModelTested(p, md, r) => act is Idle && match r {
            Ok(resp) => logged(
                a,
                b,
                LogKind::Connection,
                "Model test successful for "@ + md@ + " ("@ + p@ + "): "@ + resp@,
                LogLevel::Info,
                ts,
            ),
            Err(e) => {
                &&& b.llm_servers@ == servers_with(
                    a.llm_servers@,
                    p@,
                    |x: LLMServer| LLMServer { last_error: Some(e), ..x },
                )
                &&& logged(
                    NexaApp { llm_servers: b.llm_servers, ..a },
                    b,
                    LogKind::Error,
                    "Model test failed for "@ + md@ + " ("@ + p@ + "): "@ + e@,
                    LogLevel::Error,
                    ts,
                )
            },
        },
        _ => true,
    }
}

/// Whether an event is about the server.
pub open spec fn is_server_event(m: Message) -> bool {
    m is Tick || m is UpdateState || m is StartServer || m is StopServer || m is ServerStarted
        || m is ServerStopped || m is Exit
}

/// Whether an event is about the LLM servers.
pub open spec fn is_llm_event(m: Message) -> bool {
    m is LLMConnected || m is AddLLMServer || m is RemoveLLMServer || m is LLMAddressChanged
        || m is LLMProviderChanged || m is ConnectLLM || m is DisconnectLLM || m is ModelsLoaded
        || m is SelectModel || m is ModelSelected || m is RefreshModels || m is TestModel
        || m is ModelTested
}

/// What event `m` at `ts` does: `b` is the next state after `a`, and `act` the work to start.
pub open spec fn step(a: NexaApp, m: Message, b: NexaApp, act: Action, ts: i64) -> bool {
    if is_server_event(m) {
        server_step(a, m, b, act, ts)
    } else if is_llm_event(m) {
        llm_step(a, m, b, act, ts)
    } else {
        agent_step(a, m, b, act, ts)
    }
}

/// Each log holds at most [`MAX_LOG_ENTRIES`] entries.
pub open spec fn logs_bounded(a: NexaApp) -> bool {
    &&& a.server_logs@.len() <= MAX_LOG_ENTRIES
    &&& a.connection_logs@.len() <= MAX_LOG_ENTRIES
    &&& a.error_logs@.len() <= MAX_LOG_ENTRIES
}

impl NexaApp {
    fn add_log(&mut self, kind: LogKind, level: LogLevel, msg: String, now_ms: i64)
        ensures
            logged(*old(self), *final(self), kind, msg@, level, now_ms),
            logs_bounded(*old(self)) ==> logs_bounded(*final(self)),
    {
        let ghost t = logs(*self);
        match kind {
            LogKind::Server => {
                super::types::add_log_entry(&mut self.server_logs, msg, level, owned("server"), now_ms);
            },
            LogKind::Connection => {
                super::types::add_log_entry(&mut self.connection_logs, msg, level, owned("connection"), now_ms);
            },
            LogKind::Error => {
                super::types::add_log_entry(&mut self.error_logs, msg, level, owned("error"), now_ms);
            },
        }
        proof {
            assert(lines(self.server_logs@).len() == self.server_logs@.len());
            assert(lines(self.connection_logs@).len() == self.connection_logs@.len());
            assert(lines(self.error_logs@).len() == self.error_logs@.len());
            assert(lines(old(self).server_logs@).len() == old(self).server_logs@.len());
            assert(lines(old(self).connection_logs@).len() == old(self).connection_logs@.len());
            assert(lines(old(self).error_logs@).len() == old(self).error_logs@.len());
        }
    }

    fn status_is(&self, s: &str) -> (r: bool)
        ensures
            r == (self.server_status@ == s@),
    {
        str_eq(self.server_status.as_str(), s)
    }

    fn on_server_event(&mut self, m: Message, now_ms: i64) -> (act: Action)
        requires
            m is Tick || m is UpdateState || m is StartServer || m is StopServer || m is ServerStarted
                || m is ServerStopped || m is Exit,
            m is Tick && !old(self).should_exit ==> old(self).uptime_secs < u64::MAX,
        ensures
            server_step(*old(self), m, *final(self), act, now_ms),
            logs_bounded(*old(self)) ==> logs_bounded(*final(self)),
    {
        match m {
            Message::Tick => {
                if self.should_exit {
                    return Action::CloseWindow;
                }
                self.uptime_secs = self.uptime_secs + 1;
                if self.status_is("Running") || self.status_is("Starting") {
                    Action::QueryServer
                } else {
                    Action::Idle
                }
            },
            Message::UpdateState(state, active, metrics) => {
                if self.status_is("Starting") {
                    if str_eq(state.as_str(), "Running") {
                        self.add_log(LogKind::Server, LogLevel::Info, owned("Server started successfully"), now_ms);
                        let mut msg = owned("Active connections: ");
                        push_decimal(&mut msg, active as u64);
                        self.add_log(LogKind::Server, LogLevel::Debug, msg, now_ms);
                    } else if str_eq(state.as_str(), "Error") || str_eq(state.as_str(), "Stopped") {
                        self.add_log(LogKind::Error, LogLevel::Error, owned("Server failed to start"), now_ms);
                    }
                } else if active > 10 {
                    let mut msg = owned("High number of connections: ");
                    push_decimal(&mut msg, active as u64);
                    self.add_log(LogKind::Connection, LogLevel::Warning, msg, now_ms);
                }
                self.server_status = state;
                self.active_connections = active as u32;
                self.total_connections = metrics.total_connections;
                self.failed_connections = metrics.failed_connections;
                if let Some(error) = metrics.last_error {
                    self.last_error = Some(error.clone());
                    self.add_log(LogKind::Error, LogLevel::Error, error, now_ms);
                }
                Action::Idle
            },
            Message::StartServer => {
                if !self.status_is("Starting") {
                    self.server_status = owned("Starting");
                    self.add_log(LogKind::Server, LogLevel::Info, owned("Starting server..."), now_ms);
                    Action::StartServer
                } else {
                    Action::Idle
                }
            },
            Message::StopServer => {
                if !self.status_is("Stopping") {
                    self.server_status = owned("Stopping");
                    self.add_log(LogKind::Server, LogLevel::Info, owned("Stopping server..."), now_ms);
                    Action::StopServer
                } else {
                    Action::Idle
                }
            },
            Message::ServerStarted(success, error) => {
                if success {
                    self.server_status = owned("Running");
                    self.last_error = None;
                    self.add_log(LogKind::Server, LogLevel::Info, owned("Server started successfully"), now_ms);
                } else {
                    self.server_status = owned("Error");
                    if let Some(err) = error {
                        let mut msg = owned("Failed to start server: ");
                        push_str(&mut msg, err.as_str());
                        self.last_error = Some(msg.clone());
                        self.add_log(LogKind::Error, LogLevel::Error, msg, now_ms);
                    }
                }
                Action::Idle
            },
            Message::ServerStopped(success, error) => {
                if success {
                    self.server_status = owned("Stopped");
                    self.last_error = None;
                    self.total_connections = 0;
                    self.active_connections = 0;
                    self.failed_connections = 0;
                    self.add_log(LogKind::Server, LogLevel::Info, owned("Server stopped successfully"), now_ms);
                } else {
                    self.server_status = owned("Error");
                    if let Some(err) = error {
                        let mut msg = owned("Failed to stop server: ");
                        push_str(&mut msg, err.as_str());
                        self.last_error = Some(msg.clone());
                        self.add_log(LogKind::Error, LogLevel::Error, msg, now_ms);
                    }
                }
                Action::Idle
            },
            Message::Exit => {
                self.should_exit = true;
                Action::Idle
            },
            _ => Action::Idle,
        }
    }

    fn first_connected_server(&self) -> (r: Option<usize>)
        ensures
            r matches Some(i) ==> first_connected(self.llm_servers@, i as int),
            r is None ==> !(exists|i: int| first_connected(self.llm_servers@, i)),
    {
        let mut i: usize = 0;
        while i < self.llm_servers.len()
            invariant
                i <= self.llm_servers@.len(),
                forall|k: int| 0 <= k < i ==> self.llm_servers@[k].status != LLMStatus::Connected,
            decreases self.llm_servers@.len() - i,
        {
            if self.llm_servers[i].status == LLMStatus::Connected {
                return Some(i);
            }
            i = i + 1;
        }
        proof {
            assert forall|i: int| !first_connected(self.llm_servers@, i) by {
                if 0 <= i < self.llm_servers@.len() {
                    assert(self.llm_servers@[i].status != LLMStatus::Connected);
                }
            }
        }
        None
    }

    fn agent_config(&self, i: usize) -> (c: AgentConfig)
        requires
            i < self.llm_servers@.len(),
        ensures
            config_from_fields(*self, self.llm_servers@[i as int], c),
    {
        let srv = &self.llm_servers[i];
        let model = match &srv.selected_model {
            Some(m) => m.clone(),
            None => String::new(),
        };
        AgentConfig {
            max_concurrent_tasks: match parse_unsigned(self.max_concurrent_tasks_input.as_str(), 4294967295) {
                Some(v) => v as u32,
                None => 5,
            },
            priority_threshold: match parse_unsigned(self.priority_threshold_input.as_str(), 4294967295) {
                Some(v) => v as u32,
                None => 2,
            },
            llm_provider: srv.provider.clone(),
            llm_model: model,
            retry_policy: RetryPolicy {
                max_retries: match parse_unsigned(self.max_retries_input.as_str(), 4294967295) {
                    Some(v) => v as u32,
                    None => 3,
                },
                backoff_ms: match parse_unsigned(self.backoff_ms_input.as_str(), u64::MAX) {
                    Some(v) => v,
                    None => 1000,
                },
                max_backoff_ms: match parse_unsigned(self.max_backoff_ms_input.as_str(), u64::MAX) {
                    Some(v) => v,
                    None => 10000,
                },
            },
            timeout_seconds: match parse_unsigned(self.timeout_seconds_input.as_str(), u64::MAX) {
                Some(v) => v,
                None => 30,
            },
        }
    }

    fn report(&mut self, r: Result<(), String>, ok_kind: LogKind, ok_msg: &str, err_prefix: &str, now_ms: i64)
        ensures
            reported(*old(self), *final(self), r, ok_kind, ok_msg@, err_prefix@, now_ms),
            logs_bounded(*old(self)) ==> logs_bounded(*final(self)),
    {
        match r {
            Ok(_) => self.add_log(ok_kind, LogLevel::Info, owned(ok_msg), now_ms),
            Err(e) => {
                let mut msg = owned(err_prefix);
                push_str(&mut msg, e.as_str());
                self.add_log(LogKind::Error, LogLevel::Error, msg, now_ms);
            },
        }
    }

    fn on_agent_event(&mut self, m: Message, now_ms: i64) -> (act: Action)
        requires
            !(m is Tick || m is UpdateState || m is StartServer || m is StopServer || m is ServerStarted
                || m is ServerStopped || m is Exit || m is LLMConnected || m is AddLLMServer
                || m is RemoveLLMServer || m is LLMAddressChanged || m is LLMProviderChanged
                || m is ConnectLLM || m is DisconnectLLM || m is ModelsLoaded || m is SelectModel
                || m is ModelSelected || m is RefreshModels || m is TestModel || m is ModelTested),
        ensures
            agent_step(*old(self), m, *final(self), act, now_ms),
            logs_bounded(*old(self)) ==> logs_bounded(*final(self)),
    {
        match m {
            Message::CreateAgent => {
                match self.first_connected_server() {
                    Some(i) => {
                        let config = self.agent_config(i);
                        Action::CreateAgent { name: self.new_agent_name.clone(), config }
                    },
                    None => {
                        self.add_log(
                            LogKind::Error,
                            LogLevel::Error,
                            owned("No connected LLM server available. Please connect to a server first."),
                            now_ms,
                        );
                        Action::Idle
                    },
                }
            },
            Message::AgentNameChanged(v) => {
                self.new_agent_name = v;
                Action::Idle
            },
            Message::AgentCapabilitiesChanged(v) => {
                self.new_agent_capabilities = v;
                Action::Idle
            },
            Message::AgentCreated(r) => {
                match r {
                    Ok(agent) => {
                        let mut msg = owned("Agent ");
                        push_str(&mut msg, agent.name.as_str());
                        push_str(&mut msg, " created successfully");
                        self.agents.push(agent);
                        self.add_log(LogKind::Server, LogLevel::Info, msg, now_ms);
                    },
                    Err(e) => {
                        let mut msg = owned("Failed to create agent: ");
                        push_str(&mut msg, e.as_str());
                        self.add_log(LogKind::Error, LogLevel::Error, msg, now_ms);
                    },
                }
                Action::Idle
            },
            Message::CreateTask => {
                let agent_id = match &self.selected_agent {
                    Some(x) => x.clone(),
                    None => String::new(),
                };
                Action::CreateTask {
                    description: self.new_task_description.clone(),
                    priority: self.new_task_priority,
                    agent_id,
                }
            },
            Message::TaskDescriptionChanged(v) => {
                self.new_task_description = v;
                Action::Idle
            },
            Message::TaskPriorityChanged(p) => {
                self.new_task_priority = p;
                Action::Idle
            },
            Message::TaskAssignedAgent(id) => {
                self.selected_agent = Some(id);
                Action::Idle
            },
            Message::TaskCreated(r) => {
                match r {
                    Ok(_) => {
                        let mut id = String::new();
                        push_signed_decimal(&mut id, now_ms);
                        let task = Task {
                            id,
                            title: self.new_task_description.clone(),
                            description: self.new_task_description.clone(),
                            status: TaskStatus::Pending,
                            steps: Vec::new(),
                            requirements: Vec::new(),
                            assigned_agent: clone_opt_string(&self.selected_agent),
                            created_at_ms: now_ms,
                            deadline_ms: None,
                            estimated_duration: 3600,
                            priority: self.new_task_priority.rank(),
                        };
                        let ghost before = self.tasks@;
                        self.tasks.push(task);
                        assert(self.tasks@.take(before.len() as int) =~= before);
                        self.new_task_description = String::new();
                        self.selected_agent = None;
                        self.add_log(LogKind::Server, LogLevel::Info, owned("Task created successfully"), now_ms);
                    },
                    Err(e) => {
                        let mut msg = owned("Failed to create task: ");
                        push_str(&mut msg, e.as_str());
                        self.add_log(LogKind::Error, LogLevel::Error, msg, now_ms);
                    },
                }
                Action::Idle
            },
            Message::SetMaxConnections(input) => {
                let parsed = parse_unsigned(input.as_str(), 4294967295);
                self.max_connections_input = input;
                match parsed {
                    Some(v) => Action::SetMaxConnections(v as u32),
                    None => Action::Idle,
                }
            },
            Message::MaxConnectionsUpdated(r) => {
                self.report(r, LogKind::Server, "Max connections updated successfully", "Failed to update max connections: ", now_ms);
                Action::Idle
            },
            Message::ChangeView(v) => {
                self.current_view = v;
                Action::Idle
            },
            Message::WorkflowCreated(r) => {
                match r {
                    Ok(name) => {
                        let mut msg = owned("Workflow ");
                        push_str(&mut msg, name.as_str());
                        push_str(&mut msg, " created successfully");
                        self.add_log(LogKind::Server, LogLevel::Info, msg, now_ms);
                    },
                    Err(e) => {
                        let mut msg = owned("Failed to create workflow: ");
                        push_str(&mut msg, e.as_str());
                        self.add_log(LogKind::Error, LogLevel::Error, msg, now_ms);
                    },
                }
                Action::Idle
            },
            Message::ExecuteWorkflow(id) => Action::ExecuteWorkflow(id),
            Message::WorkflowExecuted(r) => {
                self.report(r, LogKind::Server, "Workflow executed successfully", "Workflow execution failed: ", now_ms);
                Action::Idle
            },
            Message::UpdateAgentCapabilities(id, caps) => Action::UpdateAgentCapabilities {
                agent_id: id,
                capabilities: caps,
            },
            Message::CapabilitiesUpdated(r) => {
                self.report(r, LogKind::Server, "Agent capabilities updated successfully", "Failed to update capabilities: ", now_ms);
                Action::Idle
            },
            Message::SetAgentHierarchy(p, c) => Action::SetAgentHierarchy { parent_id: p, child_id: c },
            Message::HierarchyUpdated(r) => {
                self.report(r, LogKind::Server, "Agent hierarchy updated successfully", "Failed to update hierarchy: ", now_ms);
                Action::Idle
            },
            Message::MaxConcurrentTasksChanged(v) => {
                self.max_concurrent_tasks_input = v;
                Action::Idle
            },
            Message::PriorityThresholdChanged(v) => {
                self.priority_threshold_input = v;
                Action::Idle
            },
            Message::MaxRetriesChanged(v) => {
                self.max_retries_input = v;
                Action::Idle
            },
            Message::BackoffMsChanged(v) => {
                self.backoff_ms_input = v;
                Action::Idle
            },
            Message::MaxBackoffMsChanged(v) => {
                self.max_backoff_ms_input = v;
                Action::Idle
            },
            Message::TimeoutSecondsChanged(v) => {
                self.timeout_seconds_input = v;
                Action::Idle
            },
            Message::TestAgent(id) => Action::TestAgent(id),
            Message::ToggleAgentStatus(id) => Action::ToggleAgentStatus(id),
            Message::DeleteAgent(id) => Action::DeleteAgent(id),
            Message::AgentTested => Action::ListAgents,
            Message::AgentStatusToggled => Action::ListAgents,
            Message::AgentDeleted => Action::ListAgents,
            Message::AgentsLoaded(v) => {
                self.agents = v;
                Action::Idle
            },
            Message::Error(e) => {
                let mut msg = owned("Error: ");
                push_str(&mut msg, e.as_str());
                self.add_log(LogKind::Error, LogLevel::Error, msg, now_ms);
                Action::Idle
            },
            _ => Action::Idle,
        }
    }


    fn find_provider(&self, p: &str) -> (r: Option<usize>)
        ensures
            r matches Some(i) ==> provider_index(self.llm_servers@, p@) == Some(i as int),
            r is None ==> provider_index(self.llm_servers@, p@) is None,
    {
        let mut i: usize = 0;
        while i < self.llm_servers.len()
            invariant
                i <= self.llm_servers@.len(),
                forall|k: int| 0 <= k < i ==> self.llm_servers@[k].provider@ != p@,
            decreases self.llm_servers@.len() - i,
        {
            if str_eq(self.llm_servers[i].provider.as_str(), p) {
                proof {
                    assert(first_provider(self.llm_servers@, p@, i as int));
                    let j = choose|j: int| first_provider(self.llm_servers@, p@, j);
                    assert(j == i as int);
                }
                return Some(i);
            }
            i = i + 1;
        }
        proof {
            assert forall|j: int| !first_provider(self.llm_servers@, p@, j) by {
                if 0 <= j < self.llm_servers@.len() {
                    assert(self.llm_servers@[j].provider@ != p@);
                }
            }
        }
        None
    }

    fn take_server(&mut self, i: usize) -> (srv: LLMServer)
        requires
            i < old(self).llm_servers@.len(),
        ensures
            srv == old(self).llm_servers@[i as int],
            final(self).llm_servers@ == old(self).llm_servers@.remove(i as int),
            *final(self) == (NexaApp { llm_servers: final(self).llm_servers, ..*old(self) }),
    {
        self.llm_servers.remove(i)
    }

    fn put_server(&mut self, i: usize, srv: LLMServer)
        requires
            i <= old(self).llm_servers@.len(),
        ensures
            final(self).llm_servers@ == old(self).llm_servers@.insert(i as int, srv),
            *final(self) == (NexaApp { llm_servers: final(self).llm_servers, ..*old(self) }),
    {
        self.llm_servers.insert(i, srv);
    }

    fn on_llm_event(&mut self, m: Message, now_ms: i64) -> (act: Action)
        requires
            m is LLMConnected || m is AddLLMServer || m is RemoveLLMServer || m is LLMAddressChanged
                || m is LLMProviderChanged || m is ConnectLLM || m is DisconnectLLM || m is ModelsLoaded
                || m is SelectModel || m is ModelSelected || m is RefreshModels || m is TestModel
                || m is ModelTested,
        ensures
            llm_step(*old(self), m, *final(self), act, now_ms),
            logs_bounded(*old(self)) ==> logs_bounded(*final(self)),
    {
        let ghost a = *self;
        match m {
            Message::LLMConnected(agent, p, r) => {
                match self.find_provider(p.as_str()) {
                    Some(i) => {
                        let ghost s0 = self.llm_servers@;
                        let mut srv = self.take_server(i);
                        match &r {
                            Ok(_) => {
                                srv.status = LLMStatus::Connected;
                                srv.last_error = None;
                            },
                            Err(e) => {
                                srv.status = LLMStatus::Error;
                                srv.last_error = Some(e.clone());
                            },
                        }
                        self.put_server(i, srv);
                        assert(self.llm_servers@ =~= s0.update(i as int, srv));
                        match &r {
                            Ok(_) => {
                                let mut msg = owned("LLM connection successful for provider ");
                                push_str(&mut msg, p.as_str());
                                self.add_log(LogKind::Connection, LogLevel::Info, msg, now_ms);
                                self.selected_provider = p.clone();
                            },
                            Err(e) => {
                                let mut msg = owned("LLM connection failed for provider ");
                                push_str(&mut msg, p.as_str());
                                push_str(&mut msg, ": ");
                                push_str(&mut msg, e.as_str());
                                self.add_log(LogKind::Error, LogLevel::Error, msg, now_ms);
                            },
                        }
                    },
                    None => {},
                }
                if !agent.as_str().is_empty() {
                    match &r {
                        Ok(_) => {
                            let mut msg = owned("LLM connection successful for agent ");
                            push_str(&mut msg, agent.as_str());
                            push_str(&mut msg, " with provider ");
                            push_str(&mut msg, p.as_str());
                            self.add_log(LogKind::Server, LogLevel::Info, msg, now_ms);
                        },
                        Err(e) => {
                            let mut msg = owned("LLM connection failed for agent ");
                            push_str(&mut msg, agent.as_str());
                            push_str(&mut msg, " with provider ");
                            push_str(&mut msg, p.as_str());
                            push_str(&mut msg, ": ");
                            push_str(&mut msg, e.as_str());
                            self.add_log(LogKind::Error, LogLevel::Error, msg, now_ms);
                        },
                    }
                }
                Action::Idle
            },
            Message::AddLLMServer(p) => Action::AddLLMServer {
                provider: p,
                address: self.new_llm_address.clone(),
            },
            Message::RemoveLLMServer(p) => Action::RemoveLLMServer(p),
            Message::LLMAddressChanged(v) => {
                self.new_llm_address = v;
                Action::Idle
            },
            Message::LLMProviderChanged(v) => {
                self.new_llm_provider = v;
                Action::Idle
            },
            Message::ConnectLLM(p) => {
                match self.find_provider(p.as_str()) {
                    Some(i) => {
                        let ghost s0 = self.llm_servers@;
                        let mut srv = self.take_server(i);
                        srv.status = LLMStatus::Connecting;
                        self.put_server(i, srv);
                        assert(self.llm_servers@ =~= s0.update(i as int, srv));
                    },
                    None => {},
                }
                Action::ConnectLLM(p)
            },
            Message::DisconnectLLM(p) => Action::DisconnectLLM(p),
            Message::ModelsLoaded(p, r) => {
                match self.find_provider(p.as_str()) {
                    Some(i) => {
                        let ghost s0 = self.llm_servers@;
                        let mut srv = self.take_server(i);
                        match r {
                            Ok(models) => {
                                let mut names: Vec<String> = Vec::new();
                                let mut k: usize = 0;
                                while k < models.len()
                                    invariant
                                        k <= models@.len(),
                                        names@.map_values(|x: String| x@) == models@.take(k as int).map_values(
                                            |md: LLMModel| md.name@,
                                        ),
                                    decreases models@.len() - k,
                                {
                                    let ghost before = names@.map_values(|x: String| x@);
                                    names.push(models[k].name.clone());
                                    assert(names@.map_values(|x: String| x@) =~= before.push(models@[k as int].name@));
                                    assert(models@.take(k as int + 1).map_values(|md: LLMModel| md.name@)
                                        =~= models@.take(k as int).map_values(|md: LLMModel| md.name@).push(
                                        models@[k as int].name@,
                                    ));
                                    k = k + 1;
                                }
                                assert(models@.take(models@.len() as int) =~= models@);
                                let n = models.len();
                                srv.available_models = models;
                                srv.model_names = names;
                                srv.status = LLMStatus::Connected;
                                self.put_server(i, srv);
                                assert(self.llm_servers@ =~= s0.update(i as int, srv));
                                let mut msg = owned("Loaded ");
                                push_decimal(&mut msg, n as u64);
                                push_str(&mut msg, " models for provider ");
                                push_str(&mut msg, p.as_str());
                                self.add_log(LogKind::Connection, LogLevel::Info, msg, now_ms);
                            },
                            Err(e) => {
                                let mut msg = owned("Failed to load models for provider ");
                                push_str(&mut msg, p.as_str());
                                push_str(&mut msg, ": ");
                                push_str(&mut msg, e.as_str());
                                srv.status = LLMStatus::Error;
                                srv.last_error = Some(e);
                                self.put_server(i, srv);
                                assert(self.llm_servers@ =~= s0.update(i as int, srv));
                                self.add_log(LogKind::Error, LogLevel::Error, msg, now_ms);
                            },
                        }
                    },
                    None => {
                        let mut msg = owned("Server not found: ");
                        push_str(&mut msg, p.as_str());
                        self.add_log(LogKind::Error, LogLevel::Error, msg, now_ms);
                    },
                }
                Action::Idle
            },
            Message::SelectModel(p, md) => {
                match self.find_provider(p.as_str()) {
                    Some(i) => {
                        let ghost s0 = self.llm_servers@;
                        let mut srv = self.take_server(i);
                        srv.selected_model = Some(md.clone());
                        self.put_server(i, srv);
                        assert(self.llm_servers@ =~= s0.update(i as int, srv));
                        self.selected_model = md.clone();
                    },
                    None => {},
                }
                Action::SelectModel { provider: p, model: md }
            },
            Message::ModelSelected(p, md, r) => {
                match r {
                    Ok(_) => {
                        let mut msg = owned("Selected model ");
                        push_str(&mut msg, md.as_str());
                        push_str(&mut msg, " for provider ");
                        push_str(&mut msg, p.as_str());
                        self.add_log(LogKind::Connection, LogLevel::Info, msg, now_ms);
                    },
                    Err(e) => {
                        let mut msg = owned("Failed to select model ");
                        push_str(&mut msg, md.as_str());
                        push_str(&mut msg, " for provider ");
                        push_str(&mut msg, p.as_str());
                        push_str(&mut msg, ": ");
                        push_str(&mut msg, e.as_str());
                        self.set_server_error(p.as_str(), e);
                        self.add_log(LogKind::Error, LogLevel::Error, msg, now_ms);
                    },
                }
                Action::Idle
            },
            Message::RefreshModels(p) => Action::ListModels(p),
            Message::TestModel(p, md) => Action::TestModel { provider: p, model: md },
            Message::ModelTested(p, md, r) => {
                match r {
                    Ok(resp) => {
                        let mut msg = owned("Model test successful for ");
                        push_str(&mut msg, md.as_str());
                        push_str(&mut msg, " (");
                        push_str(&mut msg, p.as_str());
                        push_str(&mut msg, "): ");
                        push_str(&mut msg, resp.as_str());
                        self.add_log(LogKind::Connection, LogLevel::Info, msg, now_ms);
                    },
                    Err(e) => {
                        let mut msg = owned("Model test failed for ");
                        push_str(&mut msg, md.as_str());
                        push_str(&mut msg, " (");
                        push_str(&mut msg, p.as_str());
                        push_str(&mut msg, "): ");
                        push_str(&mut msg, e.as_str());
                        self.set_server_error(p.as_str(), e);
                        self.add_log(LogKind::Error, LogLevel::Error, msg, now_ms);
                    },
                }
                Action::Idle
            },
            _ => Action::Idle,
        }
    }

    fn set_server_error(&mut self, p: &str, e: String)
        ensures
            final(self).llm_servers@ == servers_with(
                old(self).llm_servers@,
                p@,
                (|x: LLMServer| (LLMServer { last_error: Some(e), ..x })),
            ),
            *final(self) == (NexaApp { llm_servers: final(self).llm_servers, ..*old(self) }),
    {
        match self.find_provider(p) {
            Some(i) => {
                let ghost s0 = self.llm_servers@;
                let mut srv = self.take_server(i);
                srv.last_error = Some(e);
                self.put_server(i, srv);
                assert(self.llm_servers@ =~= s0.update(i as int, srv));
            },
            None => {},
        }
    }


    /// The dashboard as it opens: server stopped, nothing counted or logged, the
    /// overview shown, the two local LLM servers known but disconnected, and the agent
    /// fields filled with their usual values.
    pub fn new() -> (a: NexaApp)
        ensures
            a.server_status@ == "Stopped"@,
            a.total_connections == 0 && a.active_connections == 0 && a.failed_connections == 0,
            a.last_error is None,
            a.uptime_secs == 0,
            !a.should_exit,
            a.server_logs@.len() == 0 && a.connection_logs@.len() == 0 && a.error_logs@.len() == 0,
            a.agents@.len() == 0 && a.tasks@.len() == 0,
            a.new_task_priority == TaskPriority::Normal,
            a.selected_agent is None,
            a.current_view == super::View::Overview,
            a.llm_servers@.len() == 2,
            a.llm_servers@[0].provider@ == "LMStudio"@,
            a.llm_servers@[0].address@ == "http://localhost:1234"@,
            a.llm_servers@[1].provider@ == "Ollama"@,
            a.llm_servers@[1].address@ == "http://localhost:11434"@,
            forall|i: int| 0 <= i < 2 ==> (#[trigger] a.llm_servers@[i]).status == LLMStatus::Disconnected
                && a.llm_servers@[i].last_error is None && a.llm_servers@[i].selected_model is None
                && a.llm_servers@[i].model_names@.len() == 0,
            a.max_concurrent_tasks_input@ == "5"@,
            a.priority_threshold_input@ == "2"@,
            a.max_retries_input@ == "3"@,
            a.backoff_ms_input@ == "1000"@,
            a.max_backoff_ms_input@ == "10000"@,
            a.timeout_seconds_input@ == "30"@,
            logs_bounded(a),
    {
        let servers = vec![
            LLMServer::new(owned("LMStudio"), owned("http://localhost:1234")),
            LLMServer::new(owned("Ollama"), owned("http://localhost:11434")),
        ];
        NexaApp {
            server_status: owned("Stopped"),
            total_connections: 0,
            active_connections: 0,
            failed_connections: 0,
            last_error: None,
            uptime_secs: 0,
            should_exit: false,
            server_logs: Vec::new(),
            connection_logs: Vec::new(),
            error_logs: Vec::new(),
            new_agent_name: String::new(),
            new_agent_capabilities: String::new(),
            agents: Vec::new(),
            agent_options: Vec::new(),
            new_task_description: String::new(),
            new_task_priority: TaskPriority::Normal,
            selected_agent: None,
            tasks: Vec::new(),
            max_connections_input: String::new(),
            current_view: super::View::Overview,
            llm_servers: servers,
            new_llm_address: String::new(),
            new_llm_provider: String::new(),
            selected_provider: String::new(),
            selected_model: String::new(),
            max_concurrent_tasks_input: owned("5"),
            priority_threshold_input: owned("2"),
            max_retries_input: owned("3"),
            backoff_ms_input: owned("1000"),
            max_backoff_ms_input: owned("10000"),
            timeout_seconds_input: owned("30"),
        }
    }

    /// Take event `message` at `now_ms`: the dashboard moves to its next state and
    /// returns the work to start, as [`step`] states; no log ever exceeds its bound.
    pub fn update(&mut self, message: Message, now_ms: i64) -> (act: Action)
        requires
            message is Tick && !old(self).should_exit ==> old(self).uptime_secs < u64::MAX,
        ensures
            step(*old(self), message, *final(self), act, now_ms),
            logs_bounded(*old(self)) ==> logs_bounded(*final(self)),
    {
        if matches!(message, Message::Tick | Message::UpdateState(..) | Message::StartServer
            | Message::StopServer | Message::ServerStarted(..) | Message::ServerStopped(..)
            | Message::Exit) {
            self.on_server_event(message, now_ms)
        } else if matches!(message, Message::LLMConnected(..) | Message::AddLLMServer(..)
            | Message::RemoveLLMServer(..) | Message::LLMAddressChanged(..)
            | Message::LLMProviderChanged(..) | Message::ConnectLLM(..) | Message::DisconnectLLM(..)
            | Message::ModelsLoaded(..) | Message::SelectModel(..) | Message::ModelSelected(..)
            | Message::RefreshModels(..) | Message::TestModel(..) | Message::ModelTested(..)) {
            self.on_llm_event(message, now_ms)
        } else {
            self.on_agent_event(message, now_ms)
        }
    }

}

} // verus!
