//! The HTTP API server: its lifecycle states and their names, the metrics it reports,
//! and the decisions taken when it starts, stops and saves its state. Times are
//! milliseconds since the Unix epoch.

use crate::cli::CliError;
use crate::text::{owned, push_str, str_eq};
use vstd::prelude::*;

verus! {

/// Lifecycle state of the API server.
#[derive(Debug, Clone, Copy, PartialEq, Eq, Structural)]
pub enum ServerState {
    Starting,
    Running,
    Stopping,
    Stopped,
    Error,
}

/// The name of a state.
pub open spec fn state_name(s: ServerState) -> Seq<char> {
    match s {
        ServerState::Starting => "Starting"@,
        ServerState::Running => "Running"@,
        ServerState::Stopping => "Stopping"@,
        ServerState::Stopped => "Stopped"@,
        ServerState::Error => "Error"@,
    }
}

/// The state whose name is exactly `t`, if any.
pub open spec fn state_named(t: Seq<char>) -> Option<ServerState> {
    if t == "Starting"@ {
        Some(ServerState::Starting)
    } else if t == "Running"@ {
        Some(ServerState::Running)
    } else if t == "Stopping"@ {
        Some(ServerState::Stopping)
    } else if t == "Stopped"@ {
        Some(ServerState::Stopped)
    } else if t == "Error"@ {
        Some(ServerState::Error)
    } else {
        None
    }
}

impl ServerState {
    /// The name of the state, as [`state_name`] gives it.
    pub fn name(&self) -> (r: String)
        ensures
            r@ == state_name(*self),
    {
        match self {
            ServerState::Starting => owned("Starting"),
            ServerState::Running => owned("Running"),
            ServerState::Stopping => owned("Stopping"),
            ServerState::Stopped => owned("Stopped"),
            ServerState::Error => owned("Error"),
        }
    }

    /// The state named exactly `s`; any other text is refused with a message quoting it.
    pub fn parse(s: &str) -> (r: Result<ServerState, String>)
        ensures
            r matches Ok(st) ==> state_named(s@) == Some(st),
            r is Err <==> state_named(s@) is None,
            r matches Err(m) ==> m@ == "Invalid server state: "@ + s@,
    {
        if str_eq(s, "Starting") {
            Ok(ServerState::Starting)
        } else if str_eq(s, "Running") {
            Ok(ServerState::Running)
        } else if str_eq(s, "Stopping") {
            Ok(ServerState::Stopping)
        } else if str_eq(s, "Stopped") {
            Ok(ServerState::Stopped)
        } else if str_eq(s, "Error") {
            Ok(ServerState::Error)
        } else {
            let mut m = owned("Invalid server state: ");
            push_str(&mut m, s);
            Err(m)
        }
    }
}

impl std::str::FromStr for ServerState {
    type Err = String;

    /// The state named exactly `s`, as [`ServerState::parse`] reads it.
    fn from_str(s: &str) -> (r: Result<Self, Self::Err>)
        ensures
            r matches Ok(st) ==> state_named(s@) == Some(st),
            r is Err <==> state_named(s@) is None,
            r matches Err(m) ==> m@ == "Invalid server state: "@ + s@,
    {
        ServerState::parse(s)
    }
}

/// Reading back the name of any state gives that state.
pub proof fn law_name_round_trip(s: ServerState)
    ensures
        state_named(state_name(s)) == Some(s),
{
    reveal_strlit("Starting");
    reveal_strlit("Running");
    reveal_strlit("Stopping");
    reveal_strlit("Stopped");
    reveal_strlit("Error");
    let a = "Starting"@;
    let b = "Running"@;
    let c = "Stopping"@;
    let d = "Stopped"@;
    let e = "Error"@;
    assert(a[3] != b[3] && a[3] != c[3] && a[3] != d[3] && a[3] != e[3]);
    assert(b[3] != c[3] && b[3] != d[3] && b[3] != e[3]);
    assert(c.len() != d.len() && c[3] != e[3] && d[3] != e[3]);
}

/// How the program was built.
#[derive(Debug, Clone)]
pub struct BuildInfo {
    pub version: String,
    pub git_hash: Option<String>,
    pub build_timestamp: String,
    pub rust_version: String,
    pub target_os: String,
    pub target_arch: String,
}

/// What the API server reports about itself.
#[derive(Debug)]
pub struct ServerMetrics {
    pub total_connections: u64,
    pub active_connections: u32,
    pub failed_connections: u64,
    pub last_error: Option<String>,
    pub uptime_ms: u64,
    pub start_time_ms: Option<u64>,
    pub http_port: u16,
    pub version: String,
    pub build_info: BuildInfo,
    pub endpoints: Vec<String>,
}

/// The endpoints the API server serves.
pub open spec fn served_endpoints() -> Seq<Seq<char>> {
    seq!["/"@, "/api/server/status"@, "/swagger-ui/"@, "/api-docs/openapi.json"@]
}

impl ServerMetrics {
    /// Fresh metrics for a server of `version`, built as `build_info`, started at
    /// `now_ms`: no connections, no error, no uptime, port 3000 and the served endpoints.
    pub fn new(version: String, build_info: BuildInfo, now_ms: u64) -> (m: ServerMetrics)
        ensures
            m.total_connections == 0,
            m.active_connections == 0,
            m.failed_connections == 0,
            m.last_error is None,
            m.uptime_ms == 0,
            m.start_time_ms == Some(now_ms),
            m.http_port == 3000,
            m.version == version,
            m.build_info == build_info,
            m.endpoints@.map_values(|e: String| e@) == served_endpoints(),
    {
        let endpoints = vec![
            owned("/"),
            owned("/api/server/status"),
            owned("/swagger-ui/"),
            owned("/api-docs/openapi.json"),
        ];
        let m = ServerMetrics {
            total_connections: 0,
            active_connections: 0,
            failed_connections: 0,
            last_error: None,
            uptime_ms: 0,
            start_time_ms: Some(now_ms),
            http_port: 3000,
            version,
            build_info,
            endpoints,
        };
        assert(m.endpoints@.map_values(|e: String| e@) =~= served_endpoints());
        m
    }

    /// Clear the connection figures, the last error, the uptime and the start time;
    /// the port, version, build and endpoints stay.
    pub fn reset(&mut self)
        ensures
            final(self).total_connections == 0,
            final(self).active_connections == 0,
            final(self).failed_connections == 0,
            final(self).last_error is None,
            final(self).uptime_ms == 0,
            final(self).start_time_ms is None,
            final(self).http_port == old(self).http_port,
            final(self).version == old(self).version,
            final(self).build_info == old(self).build_info,
            final(self).endpoints@ == old(self).endpoints@,
    {
        self.total_connections = 0;
        self.active_connections = 0;
        self.failed_connections = 0;
        self.last_error = None;
        self.uptime_ms = 0;
        self.start_time_ms = None;
    }

    /// Set the uptime to the time elapsed since the start at `now_ms`; without a start
    /// time, or when `now_ms` lies before it, nothing changes.
    pub fn update_uptime(&mut self, now_ms: u64)
        ensures
            final(self).uptime_ms == (match old(self).start_time_ms {
                Some(start) => if now_ms >= start {
                    (now_ms - start) as u64
                } else {
                    old(self).uptime_ms
                },
                None => old(self).uptime_ms,
            }),
            final(self).start_time_ms == old(self).start_time_ms,
            final(self).total_connections == old(self).total_connections,
            final(self).active_connections == old(self).active_connections,
            final(self).failed_connections == old(self).failed_connections,
            final(self).last_error == old(self).last_error,
            final(self).http_port == old(self).http_port,
            final(self).version == old(self).version,
            final(self).build_info == old(self).build_info,
            final(self).endpoints@ == old(self).endpoints@,
    {
        if let Some(start) = self.start_time_ms {
            if now_ms >= start {
                self.uptime_ms = now_ms - start;
            }
        }
    }
}

/// Begin a start from `state`: refused while running, else the server is `Starting`.
pub fn begin_start(state: ServerState) -> (r: Result<ServerState, CliError>)
    ensures
        r is Err <==> state == ServerState::Running,
        r matches Ok(s) ==> s == ServerState::Starting,
        r matches Err(e) ==> e.message@ == "Server is already running"@,
{
    if state == ServerState::Running {
        return Err(CliError { message: owned("Server is already running") });
    }
    Ok(ServerState::Starting)
}

/// Why a start failed after it began: the configured host is no address, or the
/// address could not be bound.
#[derive(Debug, Clone, Copy, PartialEq, Eq, Structural)]
pub enum StartFailure {
    InvalidHost,
    Bind,
}

/// The message of a failed start, quoting `detail`.
pub open spec fn start_failure_text(f: StartFailure, detail: Seq<char>) -> Seq<char> {
    match f {
        StartFailure::InvalidHost => "Invalid host address: "@ + detail,
        StartFailure::Bind => "Failed to start server: "@ + detail,
    }
}

/// A start that failed after it began leaves the server in the `Error` state, with
/// the error [`start_failure_text`] words.
pub fn start_failure(f: StartFailure, detail: &str) -> (r: (ServerState, CliError))
    ensures
        r.0 == ServerState::Error,
        r.1.message@ == start_failure_text(f, detail@),
{
    let mut m = match f {
        StartFailure::InvalidHost => owned("Invalid host address: "),
        StartFailure::Bind => owned("Failed to start server: "),
    };
    push_str(&mut m, detail);
    (ServerState::Error, CliError { message: m })
}

/// What saving a state does to the process-id file: written when running, removed
/// together with the state file once stopped or failed, untouched otherwise.
#[derive(Debug, Clone, Copy, PartialEq, Eq, Structural)]
pub enum PidFileAction {
    Write,
    RemoveFiles,
    Keep,
}

/// The action saving `state` takes on the process-id file.
pub fn pid_file_action(state: ServerState) -> (a: PidFileAction)
    ensures
        a == (match state {
            ServerState::Running => PidFileAction::Write,
            ServerState::Stopped | ServerState::Error => PidFileAction::RemoveFiles,
            _ => PidFileAction::Keep,
        }),
{
    match state {
        ServerState::Running => PidFileAction::Write,
        ServerState::Stopped | ServerState::Error => PidFileAction::RemoveFiles,
        _ => PidFileAction::Keep,
    }
}

} // verus!
