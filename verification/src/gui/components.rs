//! The events of the dashboard's panels and the state of the agent settings form.

use crate::cli::LLMModel;
use crate::gui::dashboard::AgentConfig;
use crate::text::owned;
use crate::workflow::{WorkflowStatus, WorkflowStep};
use vstd::prelude::*;

verus! {

/// An event of the agents panel.
#[derive(Debug, Clone)]
pub enum AgentMessage {
    Start(String),
    Stop(String),
    ViewDetails(String),
    UpdateConfig(String, AgentConfig),
    UpdateMaxTasks(String),
    UpdatePriority(String),
    UpdateProvider(String),
    UpdateModel(String),
    UpdateTimeout(String),
    Back,
    Refresh,
}

/// An event of the logs panel.
#[derive(Debug, Clone)]
pub enum LogMessage {
    Show(String),
    Clear,
}

/// An event of the model server settings panel.
#[derive(Debug, Clone)]
pub enum SettingsMessage {
    AddServer(String, String),
    RemoveServer(String),
    Connect(String),
    Disconnect(String),
    UpdateNewServerUrl(String),
    UpdateNewServerProvider(String),
    SelectModel(String, String),
    ModelsLoaded(String, Vec<LLMModel>),
}

/// An event of the workflows panel.
#[derive(Debug, Clone)]
pub enum WorkflowMessage {
    UpdateName(String),
    AddStep(WorkflowStep),
    RemoveStep(usize),
    Create(String, Vec<WorkflowStep>),
    Execute(String),
    ViewDetails(String),
    StatusChanged(String, WorkflowStatus),
    List,
    Back,
}

/// What connecting to or leaving a model server asks for.
#[derive(Debug, Clone)]
pub enum LLMAction {
    Connect { provider: String, url: String },
    Disconnect(String),
}

/// One field of an agent's settings, changed.
#[derive(Debug, Clone)]
pub enum ConfigUpdate {
    MaxTasks(u32),
    Priority(u32),
    Provider(String),
    Model(String),
    Timeout(u32),
}

/// Starting, stopping or reconfiguring an agent.
#[derive(Debug, Clone)]
pub enum AgentControlAction {
    Start(String),
    Stop(String),
    Update(String, AgentConfig),
}

/// How the agent list is sorted.
#[derive(Debug, Clone, Copy, PartialEq, Eq, Structural)]
pub enum SortOrder {
    NameAsc,
    NameDesc,
    StatusAsc,
    StatusDesc,
    LastActiveAsc,
    LastActiveDesc,
}

/// The agent settings form, each field as typed.
#[derive(Debug, Clone)]
pub struct AgentConfigState {
    pub max_concurrent_tasks: String,
    pub priority_threshold: String,
    pub llm_provider: String,
    pub llm_model: String,
    pub timeout_seconds: String,
}

impl Default for AgentConfigState {
    /// The form as it first appears: four tasks, threshold 0, the default model of
    /// LM Studio, and a 30 second timeout.
    fn default() -> (s: AgentConfigState)
        ensures
            s.max_concurrent_tasks@ == "4"@,
            s.priority_threshold@ == "0"@,
            s.llm_provider@ == "LMStudio"@,
            s.llm_model@ == "default"@,
            s.timeout_seconds@ == "30"@,
    {
        AgentConfigState {
            max_concurrent_tasks: owned("4"),
            priority_threshold: owned("0"),
            llm_provider: owned("LMStudio"),
            llm_model: owned("default"),
            timeout_seconds: owned("30"),
        }
    }
}

} // verus!
