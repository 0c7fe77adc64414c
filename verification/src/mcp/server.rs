//! The message-control server: its lifecycle states and their text form, the
//! accounting of connections, the periodic health checks and the decisions of the
//! handle that controls a running server. Times are milliseconds since the Unix epoch.

use crate::error::NexaError;
use crate::monitoring::AlertLevel;
use crate::text::{owned, parse_unsigned, push_str, str_eq, trim, trimmed, unsigned_value};
use vstd::prelude::*;

pub mod config;
pub mod websocket;

verus! {

/// Lifecycle state of the server.
#[derive(Debug, Clone)]
pub enum ServerState {
    Stopped,
    Starting,
    Running,
    Stopping,
    Error(String),
    Maintenance,
}

/// The text written for a state: its name, and for an error `Error: ` and the message.
pub open spec fn state_text(s: ServerState) -> Seq<char> {
    match s {
        ServerState::Stopped => "Stopped"@,
        ServerState::Starting => "Starting"@,
        ServerState::Running => "Running"@,
        ServerState::Stopping => "Stopping"@,
        ServerState::Error(e) => "Error: "@ + e@,
        ServerState::Maintenance => "Maintenance"@,
    }
}

/// Whether `t` is the name of a state.
pub open spec fn is_state_name(t: Seq<char>) -> bool {
    ||| t == "Stopped"@
    ||| t == "Starting"@
    ||| t == "Running"@
    ||| t == "Stopping"@
    ||| t == "Error"@
    ||| t == "Maintenance"@
}

/// Whether `t` names the state `s`; the bare name `Error` names an error without message.
pub open spec fn names(t: Seq<char>, s: ServerState) -> bool {
    match s {
        ServerState::Stopped => t == "Stopped"@,
        ServerState::Starting => t == "Starting"@,
        ServerState::Running => t == "Running"@,
        ServerState::Stopping => t == "Stopping"@,
        ServerState::Error(e) => t == "Error"@ && e@.len() == 0,
        ServerState::Maintenance => t == "Maintenance"@,
    }
}

/// Whether the state is `Running`.
pub open spec fn is_running(s: ServerState) -> bool {
    s is Running
}

impl ServerState {
    /// The text of the state, as [`state_text`] gives it.
    pub fn to_text(&self) -> (r: String)
        ensures
            r@ == state_text(*self),
    {
        match self {
            ServerState::Stopped => owned("Stopped"),
            ServerState::Starting => owned("Starting"),
            ServerState::Running => owned("Running"),
            ServerState::Stopping => owned("Stopping"),
            ServerState::Error(e) => {
                let mut r = owned("Error: ");
                push_str(&mut r, e.as_str());
                r
            },
            ServerState::Maintenance => owned("Maintenance"),
        }
    }

    /// The state named by `s` once surrounding whitespace is trimmed; any other text
    /// is refused with a system error that quotes `s` as given.
    pub fn parse(s: &str) -> (r: Result<ServerState, NexaError>)
        ensures
            r is Ok <==> is_state_name(trimmed(s@)),
            r matches Ok(st) ==> names(trimmed(s@), st),
            r matches Err(e) ==> (e matches NexaError::System(m) && m@ == "Invalid server state: "@
                + s@),
    {
        let t = trim(s);
        let ts = t.as_str();
        if str_eq(ts, "Stopped") {
            Ok(ServerState::Stopped)
        } else if str_eq(ts, "Starting") {
            Ok(ServerState::Starting)
        } else if str_eq(ts, "Running") {
            Ok(ServerState::Running)
        } else if str_eq(ts, "Stopping") {
            Ok(ServerState::Stopping)
        } else if str_eq(ts, "Error") {
            let e = String::new();
            Ok(ServerState::Error(e))
        } else if str_eq(ts, "Maintenance") {
            Ok(ServerState::Maintenance)
        } else {
            let mut m = owned("Invalid server state: ");
            push_str(&mut m, s);
            Err(NexaError::System(m))
        }
    }

    /// Whether the state is `Running`.
    pub fn is_running(&self) -> (r: bool)
        ensures
            r == is_running(*self),
    {
        matches!(self, ServerState::Running)
    }
}

impl std::str::FromStr for ServerState {
    type Err = NexaError;

    /// The state named by `s` once trimmed, as [`ServerState::parse`] reads it.
    fn from_str(s: &str) -> (r: Result<Self, Self::Err>)
        ensures
            r is Ok <==> is_state_name(trimmed(s@)),
            r matches Ok(st) ==> names(trimmed(s@), st),
            r matches Err(e) ==> (e matches NexaError::System(m) && m@ == "Invalid server state: "@
                + s@),
    {
        ServerState::parse(s)
    }
}

/// Reading back the text of a state gives the state again, for every state but an
/// error, whose text carries its message after `Error: ` and is not a state name.
pub proof fn law_text_round_trip(s: ServerState)
    requires
        !(s is Error),
    ensures
        is_state_name(trimmed(state_text(s))),
        names(trimmed(state_text(s)), s),
        forall|o: ServerState| #[trigger] names(trimmed(state_text(s)), o) ==> o == s,
{
    reveal_strlit("Stopped");
    reveal_strlit("Starting");
    reveal_strlit("Running");
    reveal_strlit("Stopping");
    reveal_strlit("Error");
    reveal_strlit("Maintenance");
    let t = state_text(s);
    assert(t.len() > 0 && !crate::text::is_ws(t[0]) && !crate::text::is_ws(t.last()));
    assert(crate::text::trim_start(t) == t);
    assert(crate::text::trim_end(t) == t);
    assert("Stopped"@[2] == 'o' && "Starting"@[2] == 'a' && "Running"@[2] == 'n');
    assert("Stopping"@[2] == 'o' && "Error"@[2] == 'r' && "Maintenance"@[2] == 'i');
}

/// Connection and uptime figures of the server.
#[derive(Debug, Clone)]
pub struct ServerMetrics {
    pub start_time_ms: u64,
    pub total_connections: u64,
    pub active_connections: u32,
    pub failed_connections: u64,
    pub last_error: Option<String>,
    pub uptime_ms: u64,
}

/// A connected client, by its identifier, and when it connected.
#[derive(Debug, Clone, Copy)]
pub struct ClientEntry {
    pub client: u64,
    pub connected_at_ms: u64,
}

/// `s` with the entry of `e.client` replaced by `e`, placed last.
pub open spec fn upsert(s: Seq<ClientEntry>, e: ClientEntry) -> Seq<ClientEntry> {
    s.filter(|x: ClientEntry| x.client != e.client).push(e)
}

/// `s` without the entry of `client`.
pub open spec fn without(s: Seq<ClientEntry>, client: u64) -> Seq<ClientEntry> {
    s.filter(|x: ClientEntry| x.client != client)
}

/// Whether a client connected at `at` is stale at `now`: connected longer than `timeout`
/// ago, or at a time after `now`.
pub open spec fn stale(at: u64, now: u64, timeout: u64) -> bool {
    now < at || now - at > timeout
}

/// Whether no client appears twice.
pub open spec fn distinct_clients(s: Seq<ClientEntry>) -> bool {
    forall|i: int, j: int| 0 <= i < j < s.len() ==> s[i].client != s[j].client
}

/// `a` reduced by `k`, stopping at zero.
pub open spec fn sat_sub(a: nat, k: nat) -> nat {
    if a >= k {
        (a - k) as nat
    } else {
        0
    }
}

/// Why the server is unhealthy, if it is: its process is gone, it is full, or more than
/// half of its connections failed.
pub open spec fn health_problem(process_exists: bool, active: u32, max: u32, failed: u64, total: u64) -> Option<Seq<char>> {
    if !process_exists {
        Some("Server process not running"@)
    } else if active >= max {
        Some("Server at maximum connections"@)
    } else if failed > total / 2 {
        Some("High connection failure rate"@)
    } else {
        None
    }
}

/// The server's own state: lifecycle, connection accounting and configuration.
#[derive(Debug)]
pub struct Server {
    pub state: ServerState,
    pub active_connections: u32,
    pub metrics: ServerMetrics,
    pub health_check_interval_ms: u64,
    pub max_connections: u32,
    pub connection_timeout_ms: u64,
    pub clients: Vec<ClientEntry>,
}

pub(crate) proof fn lemma_filter_step(s: Seq<ClientEntry>, f: spec_fn(ClientEntry) -> bool, i: int)
    requires
        0 <= i < s.len(),
    ensures
        s.take(i + 1).filter(f) == (if f(s[i]) {
            s.take(i).filter(f).push(s[i])
        } else {
            s.take(i).filter(f)
        }),
{
    assert(s.take(i + 1).drop_last() =~= s.take(i));
    reveal_with_fuel(Seq::filter, 1);
}

pub(crate) proof fn lemma_filter_distinct(s: Seq<ClientEntry>, f: spec_fn(ClientEntry) -> bool)
    requires
        distinct_clients(s),
    ensures
        distinct_clients(s.filter(f)),
        forall|x: ClientEntry| s.filter(f).contains(x) ==> s.contains(x),
    decreases s.len(),
{
    if s.len() > 0 {
        let p = s.drop_last();
        assert(distinct_clients(p));
        lemma_filter_distinct(p, f);
        assert(s =~= p.push(s.last()));
        reveal_with_fuel(Seq::filter, 1);
        assert(s.filter(f) == if f(s.last()) {
            p.filter(f).push(s.last())
        } else {
            p.filter(f)
        });
        if f(s.last()) {
            assert forall|x: ClientEntry| p.filter(f).contains(x) implies x.client != s.last().client by {
                assert(p.contains(x));
                let k = choose|k: int| 0 <= k < p.len() && p[k] == x;
                assert(s[k] == x);
            }
            let q = p.filter(f).push(s.last());
            assert forall|i: int, j: int| 0 <= i < j < q.len() implies q[i].client != q[j].client by {
                if j == q.len() - 1 {
                    assert(p.filter(f).contains(q[i]));
                }
            }
        }
        assert forall|x: ClientEntry| s.filter(f).contains(x) implies s.contains(x) by {
            if x != s.last() || !f(s.last()) {
                assert(p.filter(f).contains(x));
                assert(p.contains(x));
                let k = choose|k: int| 0 <= k < p.len() && p[k] == x;
                assert(s[k] == x);
            } else {
                assert(s[s.len() - 1] == x);
            }
        }
    }
}

impl Server {
    /// A stopped server created at `now_ms`: no connections, at most 1000 of them, a
    /// health check and a connection timeout of 30 seconds each.
    pub fn new(now_ms: u64) -> (s: Server)
        ensures
            s.state is Stopped,
            s.active_connections == 0,
            s.metrics.start_time_ms == now_ms,
            s.metrics.total_connections == 0,
            s.metrics.active_connections == 0,
            s.metrics.failed_connections == 0,
            s.metrics.last_error is None,
            s.metrics.uptime_ms == 0,
            s.health_check_interval_ms == 30000,
            s.max_connections == 1000,
            s.connection_timeout_ms == 30000,
            s.clients@.len() == 0,
    {
        Server {
            state: ServerState::Stopped,
            active_connections: 0,
            metrics: ServerMetrics {
                start_time_ms: now_ms,
                total_connections: 0,
                active_connections: 0,
                failed_connections: 0,
                last_error: None,
                uptime_ms: 0,
            },
            health_check_interval_ms: 30000,
            max_connections: 1000,
            connection_timeout_ms: 30000,
            clients: Vec::new(),
        }
    }

    /// Whether no client is listed twice.
    pub open spec fn wf(&self) -> bool {
        distinct_clients(self.clients@)
    }

    /// Accept a connection from `client` at `now_ms`. Every attempt is counted; when the
    /// server is full the attempt is counted as failed and refused, else the client is
    /// recorded (replacing an earlier record of it) and the active count grows by one.
    pub fn handle_connection(&mut self, client: u64, now_ms: u64) -> (r: Result<(), NexaError>)
        requires
            old(self).wf(),
            old(self).metrics.total_connections < u64::MAX,
            old(self).metrics.failed_connections < u64::MAX,
        ensures
            final(self).wf(),
            final(self).metrics.total_connections == old(self).metrics.total_connections + 1,
            r is Ok <==> old(self).active_connections < old(self).max_connections,
            r matches Err(e) ==> (e matches NexaError::System(m) && m@
                == "Maximum connections reached"@),
            r is Err ==> final(self).metrics.failed_connections
                == old(self).metrics.failed_connections + 1,
            r is Err ==> final(self).active_connections == old(self).active_connections,
            r is Err ==> final(self).clients@ == old(self).clients@,
            r is Ok ==> final(self).metrics.failed_connections
                == old(self).metrics.failed_connections,
            r is Ok ==> final(self).active_connections == old(self).active_connections + 1,
            r is Ok ==> final(self).metrics.active_connections == final(self).active_connections,
            r is Ok ==> final(self).clients@ == upsert(
                old(self).clients@,
                ClientEntry { client, connected_at_ms: now_ms },
            ),
            final(self).state == old(self).state,
            final(self).max_connections == old(self).max_connections,
            final(self).connection_timeout_ms == old(self).connection_timeout_ms,
            final(self).metrics.start_time_ms == old(self).metrics.start_time_ms,
            final(self).metrics.uptime_ms == old(self).metrics.uptime_ms,
    {
        self.metrics.total_connections = self.metrics.total_connections + 1;
        if self.active_connections >= self.max_connections {
            self.metrics.failed_connections = self.metrics.failed_connections + 1;
            return Err(NexaError::System(owned("Maximum connections reached")));
        }
        self.active_connections = self.active_connections + 1;
        self.metrics.active_connections = self.active_connections;
        self.remove_client(client);
        let e = ClientEntry { client, connected_at_ms: now_ms };
        proof {
            let s = self.clients@;
            assert forall|i: int, j: int| 0 <= i < j < s.push(e).len() implies s.push(e)[i].client
                != s.push(e)[j].client by {
                if j == s.len() {
                    assert(s.contains(s[i]));
                }
            }
        }
        self.clients.push(e);
        Ok(())
    }

    fn remove_client(&mut self, client: u64)
        requires
            distinct_clients(old(self).clients@),
        ensures
            final(self).clients@ == without(old(self).clients@, client),
            distinct_clients(final(self).clients@),
            forall|i: int| 0 <= i < final(self).clients@.len() ==> final(self).clients@[i].client
                != client,
            final(self).state == old(self).state,
            final(self).active_connections == old(self).active_connections,
            final(self).metrics == old(self).metrics,
            final(self).max_connections == old(self).max_connections,
            final(self).connection_timeout_ms == old(self).connection_timeout_ms,
            final(self).health_check_interval_ms == old(self).health_check_interval_ms,
    {
        let ghost orig = self.clients@;
        let ghost f = |x: ClientEntry| x.client != client;
        let mut kept: Vec<ClientEntry> = Vec::new();
        let mut i: usize = 0;
        while i < self.clients.len()
            invariant
                orig == self.clients@,
                i <= orig.len(),
                f == (|x: ClientEntry| x.client != client),
                kept@ == orig.take(i as int).filter(f),
            decreases orig.len() - i,
        {
            proof {
                lemma_filter_step(orig, f, i as int);
            }
            let e = self.clients[i];
            if e.client != client {
                kept.push(e);
            }
            i = i + 1;
        }
        proof {
            assert(orig.take(orig.len() as int) =~= orig);
            lemma_filter_distinct(orig, f);
            assert forall|i: int| 0 <= i < kept@.len() implies kept@[i].client != client by {
                orig.lemma_filter_pred(f, i);
            }
        }
        self.clients = kept;
    }

    /// Forget `client` after it disconnected; the active count drops by one, stopping at zero.
    pub fn cleanup_connection(&mut self, client: u64)
        requires
            old(self).wf(),
        ensures
            final(self).wf(),
            final(self).active_connections == sat_sub(old(self).active_connections as nat, 1),
            final(self).clients@ == without(old(self).clients@, client),
            final(self).metrics == old(self).metrics,
            final(self).state == old(self).state,
            final(self).max_connections == old(self).max_connections,
    {
        self.active_connections = self.active_connections.saturating_sub(1);
        self.remove_client(client);
    }

    /// Refresh the uptime at `now_ms` (zero if `now_ms` lies before the start) and copy the
    /// active connection count into the metrics.
    pub fn update_metrics(&mut self, now_ms: u64)
        ensures
            final(self).metrics.uptime_ms == (if now_ms >= old(self).metrics.start_time_ms {
                now_ms - old(self).metrics.start_time_ms
            } else {
                0
            }),
            final(self).metrics.active_connections == old(self).active_connections,
            final(self).metrics.start_time_ms == old(self).metrics.start_time_ms,
            final(self).metrics.total_connections == old(self).metrics.total_connections,
            final(self).metrics.failed_connections == old(self).metrics.failed_connections,
            final(self).metrics.last_error == old(self).metrics.last_error,
            final(self).active_connections == old(self).active_connections,
            final(self).clients@ == old(self).clients@,
            final(self).state == old(self).state,
    {
        if now_ms >= self.metrics.start_time_ms {
            self.metrics.uptime_ms = now_ms - self.metrics.start_time_ms;
        } else {
            self.metrics.uptime_ms = 0;
        }
        self.metrics.active_connections = self.active_connections;
    }

    /// Set the largest number of simultaneous connections.
    pub fn set_max_connections(&mut self, max: u32)
        ensures
            final(self).max_connections == max,
            final(self).active_connections == old(self).active_connections,
            final(self).clients@ == old(self).clients@,
            final(self).metrics == old(self).metrics,
            final(self).state == old(self).state,
    {
        self.max_connections = max;
    }

    /// Drop every client that is stale at `now_ms`; each one dropped lowers the active
    /// count by one, stopping at zero. Returns how many were dropped.
    pub fn cleanup_stale_connections(&mut self, now_ms: u64) -> (n: usize)
        requires
            old(self).wf(),
        ensures
            final(self).wf(),
            final(self).clients@ == old(self).clients@.filter(
                |e: ClientEntry| !stale(e.connected_at_ms, now_ms, old(self).connection_timeout_ms),
            ),
            n == old(self).clients@.len() - final(self).clients@.len(),
            final(self).active_connections == sat_sub(old(self).active_connections as nat, n as nat),
            final(self).metrics == old(self).metrics,
            final(self).state == old(self).state,
            final(self).max_connections == old(self).max_connections,
            final(self).connection_timeout_ms == old(self).connection_timeout_ms,
    {
        let ghost orig = self.clients@;
        let ghost a0 = self.active_connections as nat;
        let ghost m0 = self.metrics;
        let ghost st0 = self.state;
        let ghost max0 = self.max_connections;
        let timeout = self.connection_timeout_ms;
        let ghost f = |e: ClientEntry| !stale(e.connected_at_ms, now_ms, timeout);
        let mut kept: Vec<ClientEntry> = Vec::new();
        let mut i: usize = 0;
        while i < self.clients.len()
            invariant
                orig == self.clients@,
                i <= orig.len(),
                timeout == self.connection_timeout_ms,
                f == (|e: ClientEntry| !stale(e.connected_at_ms, now_ms, timeout)),
                kept@ == orig.take(i as int).filter(f),
                kept@.len() <= i,
                self.active_connections == sat_sub(a0, (i - kept@.len()) as nat),
                self.metrics == m0,
                self.state == st0,
                self.max_connections == max0,
            decreases orig.len() - i,
        {
            proof {
                lemma_filter_step(orig, f, i as int);
            }
            let e = self.clients[i];
            if e.connected_at_ms <= now_ms && now_ms - e.connected_at_ms <= timeout {
                kept.push(e);
            } else {
                self.active_connections = self.active_connections.saturating_sub(1);
            }
            i = i + 1;
        }
        proof {
            assert(orig.take(orig.len() as int) =~= orig);
            lemma_filter_distinct(orig, f);
        }
        let n = self.clients.len() - kept.len();
        self.clients = kept;
        n
    }

    /// The periodic health check; `process_exists` is whether the server's process was
    /// found. The first problem found is reported as a system error.
    pub fn check_server_health(&self, process_exists: bool) -> (r: Result<(), NexaError>)
        ensures
            r is Ok <==> health_problem(
                process_exists,
                self.active_connections,
                self.max_connections,
                self.metrics.failed_connections,
                self.metrics.total_connections,
            ) is None,
            r matches Err(e) ==> (e matches NexaError::System(m) && Some(m@) == health_problem(
                process_exists,
                self.active_connections,
                self.max_connections,
                self.metrics.failed_connections,
                self.metrics.total_connections,
            )),
    {
        if !process_exists {
            return Err(NexaError::System(owned("Server process not running")));
        }
        if self.active_connections >= self.max_connections {
            return Err(NexaError::System(owned("Server at maximum connections")));
        }
        if self.metrics.failed_connections > self.metrics.total_connections / 2 {
            return Err(NexaError::System(owned("High connection failure rate")));
        }
        Ok(())
    }

    /// Record a failed health check: its message becomes the last error, and the state to
    /// announce is an error with that message.
    pub fn record_health_failure(&mut self, message: String) -> (announced: ServerState)
        ensures
            final(self).metrics.last_error == Some(message),
            announced == ServerState::Error(message),
            final(self).active_connections == old(self).active_connections,
            final(self).clients@ == old(self).clients@,
            final(self).state == old(self).state,
    {
        self.metrics.last_error = Some(message.clone());
        ServerState::Error(message)
    }
}

/// The state the server reports: a running or starting server answers from memory;
/// otherwise the state file decides when it holds a state name, else the server is stopped.
pub open spec fn reported_state(in_memory: ServerState, file: Option<&str>, r: ServerState) -> bool {
    if in_memory is Running || in_memory is Starting {
        r == in_memory
    } else {
        match file {
            Some(t) => if is_state_name(trimmed(t@)) {
                names(trimmed(t@), r)
            } else {
                r is Stopped
            },
            None => r is Stopped,
        }
    }
}

/// The state to report, from the in-memory state and the contents of the state file
/// if one could be read.
pub fn get_state(in_memory: &ServerState, file: Option<&str>) -> (r: ServerState)
    ensures
        reported_state(*in_memory, file, r),
{
    match in_memory {
        ServerState::Running => return ServerState::Running,
        ServerState::Starting => return ServerState::Starting,
        _ => {},
    }
    match file {
        Some(t) => match ServerState::parse(t) {
            Ok(st) => st,
            Err(_) => ServerState::Stopped,
        },
        None => ServerState::Stopped,
    }
}

/// The process id written in a process-id file: its contents, trimmed, read as an
/// unsigned 32-bit number; `None` where they are not one.
pub fn pid_in_file(contents: &str) -> (r: Option<u32>)
    ensures
        r matches Some(p) ==> unsigned_value(trimmed(contents@), u32::MAX as nat) == Some(p as nat),
        r is None ==> unsigned_value(trimmed(contents@), u32::MAX as nat) is None,
{
    let t = trim(contents);
    match parse_unsigned(t.as_str(), u32::MAX as u64) {
        Some(v) => Some(v as u32),
        None => None,
    }
}

/// Whether a stop may proceed: refused with `Server is not running` when the server's
/// process is gone.
pub fn check_stop(process_exists: bool) -> (r: Result<(), NexaError>)
    ensures
        r is Ok <==> process_exists,
        r matches Err(e) ==> (e matches NexaError::System(m) && m@ == "Server is not running"@),
{
    if !process_exists {
        return Err(NexaError::System(owned("Server is not running")));
    }
    Ok(())
}

/// Whether a start may proceed: refused with `Server is already running` while a server
/// task exists.
pub fn check_start(has_task: bool) -> (r: Result<(), NexaError>)
    ensures
        r is Ok <==> !has_task,
        r matches Err(e) ==> (e matches NexaError::System(m) && m@ == "Server is already running"@),
{
    if has_task {
        return Err(NexaError::System(owned("Server is already running")));
    }
    Ok(())
}

/// The `Debug` form of a state: its name, and for an error the quoted message in brackets.
pub open spec fn state_debug(s: ServerState) -> Seq<char> {
    match s {
        ServerState::Error(e) => "Error("@ + crate::memory::debug_quoted(e@) + ")"@,
        _ => state_text(s),
    }
}

/// The outcome of a start once the server task reported ready: success when the
/// server runs, else a system error naming the state it ended in.
pub fn start_outcome(final_state: &ServerState) -> (r: Result<(), NexaError>)
    ensures
        r is Ok <==> final_state is Running,
        r matches Err(e) ==> (e matches NexaError::System(m) && m@
            == "Server failed to start. Final state: "@ + state_debug(*final_state)),
{
    if final_state.is_running() {
        return Ok(());
    }
    let mut m = owned("Server failed to start. Final state: ");
    match final_state {
        ServerState::Error(e) => {
            push_str(&mut m, "Error(");
            let q = crate::memory::quote_debug(e.as_str());
            push_str(&mut m, q.as_str());
            push_str(&mut m, ")");
        },
        _ => {
            let t = final_state.to_text();
            push_str(&mut m, t.as_str());
        },
    }
    Err(NexaError::System(m))
}

/// The code and reason of a close frame.
#[derive(Debug, Clone)]
pub struct CloseFrame {
    pub code: u16,
    pub reason: String,
}

/// A frame read from a client's WebSocket, or the error that reading met. A binary
/// frame is known by its size; a close frame by its code and reason, if it had them.
#[derive(Debug, Clone)]
pub enum WsFrame {
    Text(String),
    Binary(usize),
    Close(Option<CloseFrame>),
    Ping(Vec<u8>),
    Pong,
    Frame,
    Failed(String),
}

/// A JSON reply to a client: its status word, its code, and, where there is one, a
/// message and a size.
#[derive(Debug, Clone, PartialEq, Eq)]
pub struct WsReply {
    pub status: String,
    pub code: u16,
    pub message: Option<String>,
    pub size: Option<usize>,
}

/// What the server does with one frame.
#[derive(Debug, Clone)]
pub enum WsStep {
    /// Send this reply as a text frame and read on.
    Send(WsReply),
    /// Answer with a pong carrying these bytes and read on.
    Pong(Vec<u8>),
    /// Send this close frame back, then stop reading.
    EchoCloseThenStop(CloseFrame),
    /// Stop reading.
    Stop,
    /// Read on.
    Continue,
    /// Send this reply (if the connection still takes it), then end with this error.
    Fail(WsReply, NexaError),
}

/// Whether `t` is a JSON text, as `serde_json` reads one.
pub uninterp spec fn json_valid(t: Seq<char>) -> bool;

/// Calls `serde_json::from_str::<serde_json::Value>` on `t` and says whether it read a
/// value; which texts are JSON is named [`json_valid`].
#[verifier::external_body]
fn json_parses(t: &str) -> (b: bool)
    ensures
        b == json_valid(t@),
{
    serde_json::from_str::<serde_json::Value>(t).is_ok()
}

/// Whether `r` is the reply with status `status`, code `code`, message `message` and
/// size `size`.
pub open spec fn reply_is(r: WsReply, status: Seq<char>, code: u16, message: Option<Seq<char>>, size: Option<usize>) -> bool {
    &&& r.status@ == status
    &&& r.code == code
    &&& match (r.message, message) {
        (Some(a), Some(b)) => a@ == b,
        (None, None) => true,
        _ => false,
    }
    &&& r.size == size
}

/// What the server does with `frame`: a text frame, whether or not it reads as JSON,
/// gets a success reply with code 200; a binary frame a success reply that names it
/// and gives its size; a close frame is sent back when it has a code and reason, and
/// reading stops; a ping is answered with a pong of the same bytes; a pong or a raw
/// frame is passed over; a read error gets an error reply with code 500 and ends the
/// connection with a system error.
pub open spec fn ws_step_is(frame: WsFrame, step: WsStep) -> bool {
    match frame {
        WsFrame::Text(_) => step matches WsStep::Send(r) && reply_is(r, "success"@, 200, None, None),
        WsFrame::Binary(n) => step matches WsStep::Send(r) && reply_is(
            r,
            "success"@,
            200,
            Some("Binary message received"@),
            Some(n),
        ),
        WsFrame::Close(None) => step is Stop,
        WsFrame::Close(Some(f)) => step matches WsStep::EchoCloseThenStop(g) && g.code == f.code
            && g.reason@ == f.reason@,
        WsFrame::Ping(data) => step matches WsStep::Pong(d) && d@ == data@,
        WsFrame::Pong => step is Continue,
        WsFrame::Frame => step is Continue,
        WsFrame::Failed(e) => {
            &&& step matches WsStep::Fail(r, err)
            &&& reply_is(step->Fail_0, "error"@, 500, Some("WebSocket error: "@ + e@), None)
            &&& (step->Fail_1 matches NexaError::System(m) && m@ == "WebSocket message error: "@ + e@)
        },
    }
}

/// What the server does with one frame, as [`ws_step_is`] states it.
pub fn websocket_step(frame: WsFrame) -> (step: WsStep)
    ensures
        ws_step_is(frame, step),
{
    match frame {
        WsFrame::Text(t) => {
            let _is_json = json_parses(t.as_str());
            WsStep::Send(WsReply { status: owned("success"), code: 200, message: None, size: None })
        },
        WsFrame::Binary(n) => WsStep::Send(
            WsReply {
                status: owned("success"),
                code: 200,
                message: Some(owned("Binary message received")),
                size: Some(n),
            },
        ),
        WsFrame::Close(None) => WsStep::Stop,
        WsFrame::Close(Some(f)) => WsStep::EchoCloseThenStop(f),
        WsFrame::Ping(d) => WsStep::Pong(d),
        WsFrame::Pong => WsStep::Continue,
        WsFrame::Frame => WsStep::Continue,
        WsFrame::Failed(e) => {
            let mut m = owned("WebSocket error: ");
            push_str(&mut m, e.as_str());
            let mut em = owned("WebSocket message error: ");
            push_str(&mut em, e.as_str());
            WsStep::Fail(
                WsReply { status: owned("error"), code: 500, message: Some(m), size: None },
                NexaError::System(em),
            )
        },
    }
}

/// The error of a step whose frame could not be sent, quoting `detail`: the reply, the
/// pong or the close frame.
pub open spec fn ws_send_error_text(step: WsStep, detail: Seq<char>) -> Seq<char> {
    match step {
        WsStep::Pong(_) => "Failed to send pong: "@ + detail,
        WsStep::EchoCloseThenStop(_) => "Failed to send close frame: "@ + detail,
        _ => "Failed to send response: "@ + detail,
    }
}

/// The error of a step whose frame could not be sent, as [`ws_send_error_text`] words it.
pub fn ws_send_error(step: &WsStep, detail: &str) -> (e: NexaError)
    ensures
        e matches NexaError::System(m) && m@ == ws_send_error_text(*step, detail@),
{
    let mut m = match step {
        WsStep::Pong(_) => owned("Failed to send pong: "),
        WsStep::EchoCloseThenStop(_) => owned("Failed to send close frame: "),
        _ => owned("Failed to send response: "),
    };
    push_str(&mut m, detail);
    NexaError::System(m)
}

/// An alert raised about the server.
#[derive(Debug)]
pub struct Alert {
    pub level: AlertLevel,
    pub message: String,
}

/// Decisions of the handle that controls a server task.
pub struct ServerControl;

impl ServerControl {
    /// A stop through the handle is refused with `Server is not running` when no server
    /// task exists or the server reports itself stopped.
    pub fn check_stop(has_task: bool, state: &ServerState) -> (r: Result<(), NexaError>)
        ensures
            r is Ok <==> (has_task && !(*state is Stopped)),
            r matches Err(e) ==> (e matches NexaError::System(m) && m@ == "Server is not running"@),
    {
        if !has_task {
            return Err(NexaError::System(owned("Server is not running")));
        }
        if let ServerState::Stopped = state {
            return Err(NexaError::System(owned("Server is not running")));
        }
        Ok(())
    }

    /// The server is healthy when it reports itself running.
    pub fn check_health(state: &ServerState) -> (r: bool)
        ensures
            r == is_running(*state),
    {
        state.is_running()
    }

    /// The number of active connections the handle reports: five while running, else none.
    pub fn get_active_connections(state: &ServerState) -> (r: usize)
        ensures
            r == (if is_running(*state) {
                5usize
            } else {
                0usize
            }),
    {
        if state.is_running() {
            5
        } else {
            0
        }
    }
}

} // verus!
