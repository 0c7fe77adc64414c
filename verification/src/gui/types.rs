//! What the dashboard shows: its views, task priorities, log entries and the LLM
//! servers it knows. Times are milliseconds since the Unix epoch.

use crate::cli::LLMModel;
use crate::monitoring::pushed_capped;
use crate::text::owned;
use vstd::prelude::*;

verus! {

/// The priority chosen for a new task.
#[derive(Debug, Clone, Copy, PartialEq, Eq, Structural)]
pub enum TaskPriority {
    Low,
    Normal,
    High,
    Critical,
}

/// The name of a priority.
pub open spec fn priority_label(p: TaskPriority) -> Seq<char> {
    match p {
        TaskPriority::Low => "Low"@,
        TaskPriority::Normal => "Normal"@,
        TaskPriority::High => "High"@,
        TaskPriority::Critical => "Critical"@,
    }
}

/// The rank of a priority, from 0 for low to 3 for critical.
pub open spec fn priority_rank(p: TaskPriority) -> i32 {
    match p {
        TaskPriority::Low => 0,
        TaskPriority::Normal => 1,
        TaskPriority::High => 2,
        TaskPriority::Critical => 3,
    }
}

impl TaskPriority {
    /// The name of the priority, as [`priority_label`] gives it.
    pub fn label(&self) -> (r: String)
        ensures
            r@ == priority_label(*self),
    {
        match self {
            TaskPriority::Low => owned("Low"),
            TaskPriority::Normal => owned("Normal"),
            TaskPriority::High => owned("High"),
            TaskPriority::Critical => owned("Critical"),
        }
    }

    /// The rank of the priority, as [`priority_rank`] gives it.
    pub fn rank(&self) -> (r: i32)
        ensures
            r == priority_rank(*self),
    {
        match self {
            TaskPriority::Low => 0,
            TaskPriority::Normal => 1,
            TaskPriority::High => 2,
            TaskPriority::Critical => 3,
        }
    }
}

/// The severity of a log entry.
#[derive(Debug, Clone, Copy, PartialEq, Eq, Structural)]
pub enum LogLevel {
    Info,
    Error,
    Debug,
    Warning,
}

/// The tag shown for a severity.
pub open spec fn level_tag(l: LogLevel) -> Seq<char> {
    match l {
        LogLevel::Info => "INFO"@,
        LogLevel::Error => "ERROR"@,
        LogLevel::Debug => "DEBUG"@,
        LogLevel::Warning => "WARN"@,
    }
}

impl LogLevel {
    /// The tag of the severity, as [`level_tag`] gives it.
    pub fn tag(&self) -> (r: String)
        ensures
            r@ == level_tag(*self),
    {
        match self {
            LogLevel::Info => owned("INFO"),
            LogLevel::Error => owned("ERROR"),
            LogLevel::Debug => owned("DEBUG"),
            LogLevel::Warning => owned("WARN"),
        }
    }
}

/// A line of a log: when, what, how severe, and from where.
#[derive(Debug, Clone)]
pub struct LogEntry {
    pub timestamp_ms: i64,
    pub message: String,
    pub level: LogLevel,
    pub source: String,
}

/// A log line as a value.
pub struct LogLine {
    pub timestamp_ms: i64,
    pub message: Seq<char>,
    pub level: LogLevel,
    pub source: Seq<char>,
}

impl vstd::view::View for LogEntry {
    type V = LogLine;

    open spec fn view(&self) -> LogLine {
        LogLine {
            timestamp_ms: self.timestamp_ms,
            message: self.message@,
            level: self.level,
            source: self.source@,
        }
    }
}

/// The lines of a log.
pub open spec fn lines(l: Seq<LogEntry>) -> Seq<LogLine> {
    l.map_values(|e: LogEntry| e@)
}

/// The most entries a log keeps.
pub const MAX_LOG_ENTRIES: usize = 100;

/// Append an entry to a log that keeps the latest [`MAX_LOG_ENTRIES`], dropping the
/// oldest when full.
pub fn add_log_entry(logs: &mut Vec<LogEntry>, message: String, level: LogLevel, source: String, now_ms: i64)
    ensures
        lines(final(logs)@) == pushed_capped(
            lines(old(logs)@),
            LogLine { timestamp_ms: now_ms, message: message@, level, source: source@ },
            MAX_LOG_ENTRIES as nat,
        ),
{
    let e = LogEntry { timestamp_ms: now_ms, message, level, source };
    let ghost old_lines = lines(logs@);
    crate::monitoring::push_capped(logs, e, MAX_LOG_ENTRIES);
    proof {
        if old(logs)@.len() >= 100 {
            assert(lines(logs@) =~= old_lines.drop_first().push(e@));
        } else {
            assert(lines(logs@) =~= old_lines.push(e@));
        }
    }
}

/// A log never holds more than [`MAX_LOG_ENTRIES`] lines, and the line just added is the last.
pub proof fn law_log_bounded(l: Seq<LogLine>, e: LogLine)
    requires
        l.len() <= MAX_LOG_ENTRIES,
    ensures
        pushed_capped(l, e, MAX_LOG_ENTRIES as nat).len() <= MAX_LOG_ENTRIES,
        pushed_capped(l, e, MAX_LOG_ENTRIES as nat).last() == e,
{
}

/// The connection state of an LLM server.
#[derive(Debug, Clone, Copy, PartialEq, Eq, Structural)]
pub enum LLMStatus {
    Connected,
    Disconnected,
    Connecting,
    Error,
}

/// An LLM server the dashboard knows.
#[derive(Debug)]
pub struct LLMServer {
    pub provider: String,
    pub address: String,
    pub status: LLMStatus,
    pub last_error: Option<String>,
    pub available_models: Vec<LLMModel>,
    pub model_names: Vec<String>,
    pub selected_model: Option<String>,
}

impl LLMServer {
    /// A disconnected server of `provider` at `address`, with no models yet.
    pub fn new(provider: String, address: String) -> (s: LLMServer)
        ensures
            s.provider == provider,
            s.address == address,
            s.status == LLMStatus::Disconnected,
            s.last_error is None,
            s.available_models@.len() == 0,
            s.model_names@.len() == 0,
            s.selected_model is None,
    {
        LLMServer {
            provider,
            address,
            status: LLMStatus::Disconnected,
            last_error: None,
            available_models: Vec::new(),
            model_names: Vec::new(),
            selected_model: None,
        }
    }
}

/// A reusable prompt with named parameters.
#[derive(Debug, Clone)]
pub struct CustomPrompt {
    pub name: String,
    pub template: String,
    pub parameters: Vec<String>,
}

} // verus!
