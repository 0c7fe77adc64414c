//! The WebSocket server: its lifecycle in lower-case text form, the guards on starting
//! and stopping, connection accounting and the periodic sweep of idle clients. Times
//! are milliseconds since the Unix epoch.

use super::config::ServerConfig;
use super::{distinct_clients, lemma_filter_distinct, lemma_filter_step, without, ClientEntry};
use crate::error::NexaError;
use crate::text::{ascii_lower, owned, push_str, str_eq, to_lowercase, trim, trimmed};
use vstd::prelude::*;

verus! {

/// Lifecycle state of the WebSocket server.
#[derive(Debug, Clone)]
pub enum ServerState {
    Stopped,
    Starting,
    Running,
    Stopping,
    Error(String),
    Maintenance,
}

/// The lower-case text written for a state; an error carries its message after `error: `.
pub open spec fn state_text(s: ServerState) -> Seq<char> {
    match s {
        ServerState::Stopped => "stopped"@,
        ServerState::Starting => "starting"@,
        ServerState::Running => "running"@,
        ServerState::Stopping => "stopping"@,
        ServerState::Error(m) => "error: "@ + m@,
        ServerState::Maintenance => "maintenance"@,
    }
}

/// `s` lower-cased: character by character for ASCII text, else as `str::to_lowercase` does.
pub open spec fn lowered(s: Seq<char>) -> Seq<char> {
    if vstd::utf8::is_ascii_chars(s) {
        s.map_values(|c: char| ascii_lower(c))
    } else {
        crate::text::lowercase(s)
    }
}

/// Whether lower-cased text `l` starts with `error:`.
pub open spec fn is_error_text(l: Seq<char>) -> bool {
    l.len() >= 6 && l.take(6) == "error:"@
}

/// Whether lower-cased text `l` denotes a state.
pub open spec fn is_state_text(l: Seq<char>) -> bool {
    ||| l == "stopped"@
    ||| l == "starting"@
    ||| l == "running"@
    ||| l == "stopping"@
    ||| l == "maintenance"@
    ||| is_error_text(l)
}

/// Whether lower-cased text `l` denotes the state `s`; after `error:` comes the
/// message, trimmed.
pub open spec fn denotes(l: Seq<char>, s: ServerState) -> bool {
    match s {
        ServerState::Stopped => l == "stopped"@,
        ServerState::Starting => l == "starting"@,
        ServerState::Running => l == "running"@,
        ServerState::Stopping => l == "stopping"@,
        ServerState::Maintenance => l == "maintenance"@,
        ServerState::Error(m) => is_error_text(l) && !(l == "stopped"@ || l == "starting"@ || l
            == "running"@ || l == "stopping"@ || l == "maintenance"@) && m@ == trimmed(
            l.skip(6),
        ),
    }
}

fn rest_after_error(l: &str) -> (r: String)
    requires
        is_error_text(l@),
    ensures
        r@ == trimmed(l@.skip(6)),
{
    let v = crate::text::chars_of(l);
    let mut tail = String::new();
    let mut i: usize = 6;
    while i < v.len()
        invariant
            6 <= i <= v.len(),
            v@ == l@,
            tail@ == v@.subrange(6, i as int),
        decreases v.len() - i,
    {
        proof {
            assert(v@.subrange(6, i as int + 1) =~= v@.subrange(6, i as int).push(v@[i as int]));
        }
        crate::text::push_char(&mut tail, v[i]);
        i = i + 1;
    }
    assert(v@.subrange(6, v.len() as int) =~= l@.skip(6));
    trim(tail.as_str())
}

fn has_error_prefix(l: &str) -> (r: bool)
    ensures
        r == is_error_text(l@),
{
    proof {
        reveal_strlit("error:");
    }
    let v = crate::text::chars_of(l);
    let p = crate::text::chars_of("error:");
    crate::text::starts_with(&v, &p)
}

impl ServerState {
    /// The lower-case text of the state, as [`state_text`] gives it.
    pub fn to_text(&self) -> (r: String)
        ensures
            r@ == state_text(*self),
    {
        match self {
            ServerState::Stopped => owned("stopped"),
            ServerState::Starting => owned("starting"),
            ServerState::Running => owned("running"),
            ServerState::Stopping => owned("stopping"),
            ServerState::Error(m) => {
                let mut r = owned("error: ");
                push_str(&mut r, m.as_str());
                r
            },
            ServerState::Maintenance => owned("maintenance"),
        }
    }

    /// The state denoted by `s` in any letter case; text after `error:` becomes the
    /// message of an error state. Other text is refused with a server error quoting `s`.
    pub fn parse(s: &str) -> (r: Result<ServerState, NexaError>)
        ensures
            r is Ok <==> is_state_text(lowered(s@)),
            r matches Ok(st) ==> denotes(lowered(s@), st),
            r matches Err(e) ==> (e matches NexaError::Server(m) && m@ == "Invalid server state: "@
                + s@),
    {
        let l = to_lowercase(s);
        ServerState::parse_lowered(l.as_str(), s)
    }

    /// The state denoted by `l`, the lower-cased form of `s`; other text is refused with
    /// a server error quoting `s`.
    pub fn parse_lowered(l: &str, s: &str) -> (r: Result<ServerState, NexaError>)
        ensures
            r is Ok <==> is_state_text(l@),
            r matches Ok(st) ==> denotes(l@, st),
            r matches Err(e) ==> (e matches NexaError::Server(m) && m@ == "Invalid server state: "@
                + s@),
    {
        if str_eq(l, "stopped") {
            Ok(ServerState::Stopped)
        } else if str_eq(l, "starting") {
            Ok(ServerState::Starting)
        } else if str_eq(l, "running") {
            Ok(ServerState::Running)
        } else if str_eq(l, "stopping") {
            Ok(ServerState::Stopping)
        } else if str_eq(l, "maintenance") {
            Ok(ServerState::Maintenance)
        } else if has_error_prefix(l) {
            Ok(ServerState::Error(rest_after_error(l)))
        } else {
            let mut m = owned("Invalid server state: ");
            push_str(&mut m, s);
            Err(NexaError::Server(m))
        }
    }
}

impl std::str::FromStr for ServerState {
    type Err = NexaError;

    /// The state denoted by `s` in any letter case, as [`ServerState::parse`] reads it.
    fn from_str(s: &str) -> (r: Result<Self, Self::Err>)
        ensures
            r is Ok <==> is_state_text(lowered(s@)),
            r matches Ok(st) ==> denotes(lowered(s@), st),
            r matches Err(e) ==> (e matches NexaError::Server(m) && m@ == "Invalid server state: "@
                + s@),
    {
        ServerState::parse(s)
    }
}

/// Reading back the text of a state that is not an error gives the same state.
pub proof fn law_text_round_trip(s: ServerState)
    requires
        !(s is Error),
    ensures
        is_state_text(lowered(state_text(s))),
        denotes(lowered(state_text(s)), s),
        forall|o: ServerState| #[trigger] denotes(lowered(state_text(s)), o) ==> o == s,
{
    reveal_strlit("stopped");
    reveal_strlit("starting");
    reveal_strlit("running");
    reveal_strlit("stopping");
    reveal_strlit("maintenance");
    reveal_strlit("error:");
    let t = state_text(s);
    assert(vstd::utf8::is_ascii_chars(t));
    assert(t.map_values(|c: char| ascii_lower(c)) =~= t);
    assert(!is_error_text(t)) by {
        if t.len() >= 6 {
            assert(t.take(6)[0] == t[0]);
            assert("error:"@[0] == 'e');
        }
    }
    assert("stopped"@[2] == 'o' && "starting"@[2] == 'a' && "running"@[2] == 'n');
    assert("stopping"@[2] == 'o' && "maintenance"@[2] == 'i');
}

/// Connection and uptime figures of the server.
#[derive(Debug, Clone)]
pub struct ServerMetrics {
    pub start_time_ms: u64,
    pub total_connections: u64,
    pub active_connections: u32,
    pub failed_connections: u64,
    pub last_error: Option<String>,
    pub uptime_ms: u64,
}

/// The WebSocket server's own state.
#[derive(Debug)]
pub struct Server {
    pub state: ServerState,
    pub active_connections: u32,
    pub metrics: ServerMetrics,
    pub max_connections: u32,
    pub connection_timeout_ms: u64,
    pub health_check_interval_ms: u64,
    pub clients: Vec<ClientEntry>,
    pub config: ServerConfig,
}

/// Whether a client last seen at `seen` is still live at `now`.
pub open spec fn live(seen: u64, now: u64, timeout: u64) -> bool {
    seen <= now && now - seen < timeout
}

impl Server {
    /// A stopped server created at `now_ms` with the default settings: 1000 connections
    /// at most, 30 second connection timeout and health check interval.
    pub fn new(now_ms: u64) -> (s: Server)
        ensures
            s.state is Stopped,
            s.active_connections == 0,
            s.metrics.start_time_ms == now_ms,
            s.metrics.total_connections == 0,
            s.metrics.active_connections == 0,
            s.metrics.failed_connections == 0,
            s.metrics.last_error is None,
            s.metrics.uptime_ms == 0,
            s.max_connections == 1000,
            s.connection_timeout_ms == 30000,
            s.health_check_interval_ms == 30000,
            s.clients@.len() == 0,
            s.config.max_connections == 1000,
            s.config.bind_addr@ == "127.0.0.1:0"@,
    {
        Server {
            state: ServerState::Stopped,
            active_connections: 0,
            metrics: ServerMetrics {
                start_time_ms: now_ms,
                total_connections: 0,
                active_connections: 0,
                failed_connections: 0,
                last_error: None,
                uptime_ms: 0,
            },
            max_connections: 1000,
            connection_timeout_ms: 30000,
            health_check_interval_ms: 30000,
            clients: Vec::new(),
            config: ServerConfig::default(),
        }
    }

    /// No client is listed twice, and the metrics agree with the active count.
    pub open spec fn wf(&self) -> bool {
        &&& distinct_clients(self.clients@)
        &&& self.metrics.active_connections == self.active_connections
    }

    /// Begin a start: only a stopped server may start, and it becomes `Starting`.
    pub fn begin_start(&mut self) -> (r: Result<(), NexaError>)
        ensures
            r is Ok <==> old(self).state is Stopped,
            r is Ok ==> final(self).state is Starting,
            r is Err ==> final(self).state == old(self).state,
            r matches Err(e) ==> (e matches NexaError::Server(m) && m@
                == "Server is not in stopped state"@),
            final(self).clients@ == old(self).clients@,
            final(self).active_connections == old(self).active_connections,
            final(self).metrics == old(self).metrics,
    {
        if let ServerState::Stopped = self.state {
            self.state = ServerState::Starting;
            Ok(())
        } else {
            Err(NexaError::Server(owned("Server is not in stopped state")))
        }
    }

    /// Finish a start once the listener is bound: the server is `Running`.
    pub fn finish_start(&mut self)
        requires
            old(self).state is Starting,
        ensures
            final(self).state is Running,
            final(self).clients@ == old(self).clients@,
            final(self).active_connections == old(self).active_connections,
            final(self).metrics == old(self).metrics,
    {
        self.state = ServerState::Running;
    }

    /// Begin a stop: only a running server may stop, and it becomes `Stopping`.
    pub fn begin_stop(&mut self) -> (r: Result<(), NexaError>)
        ensures
            r is Ok <==> old(self).state is Running,
            r is Ok ==> final(self).state is Stopping,
            r is Err ==> final(self).state == old(self).state,
            r matches Err(e) ==> (e matches NexaError::Server(m) && m@ == "Server is not running"@),
            final(self).clients@ == old(self).clients@,
            final(self).active_connections == old(self).active_connections,
            final(self).metrics == old(self).metrics,
    {
        if let ServerState::Running = self.state {
            self.state = ServerState::Stopping;
            Ok(())
        } else {
            Err(NexaError::Server(owned("Server is not running")))
        }
    }

    /// Finish a stop once the server task ended: the server is `Stopped`.
    pub fn finish_stop(&mut self)
        requires
            old(self).state is Stopping,
        ensures
            final(self).state is Stopped,
            final(self).clients@ == old(self).clients@,
            final(self).active_connections == old(self).active_connections,
            final(self).metrics == old(self).metrics,
    {
        self.state = ServerState::Stopped;
    }

    /// Whether a new connection may be taken: refused with `Maximum connections reached`
    /// when the server is full.
    pub fn check_capacity(&self) -> (r: Result<(), NexaError>)
        ensures
            r is Ok <==> self.active_connections < self.max_connections,
            r matches Err(e) ==> (e matches NexaError::Server(m) && m@
                == "Maximum connections reached"@),
    {
        if self.active_connections >= self.max_connections {
            return Err(NexaError::Server(owned("Maximum connections reached")));
        }
        Ok(())
    }

    /// Record a client whose connection was upgraded at `now_ms`.
    pub fn connection_opened(&mut self, client: u64, now_ms: u64)
        requires
            old(self).wf(),
            old(self).active_connections < old(self).max_connections,
            old(self).metrics.total_connections < u64::MAX,
        ensures
            final(self).wf(),
            final(self).active_connections == old(self).active_connections + 1,
            final(self).metrics.total_connections == old(self).metrics.total_connections + 1,
            final(self).clients@ == without(old(self).clients@, client).push(
                ClientEntry { client, connected_at_ms: now_ms },
            ),
            final(self).state == old(self).state,
            final(self).max_connections == old(self).max_connections,
    {
        self.metrics.total_connections = self.metrics.total_connections + 1;
        self.metrics.active_connections = self.metrics.active_connections + 1;
        self.active_connections = self.active_connections + 1;
        self.forget(client);
        let e = ClientEntry { client, connected_at_ms: now_ms };
        proof {
            let s = self.clients@;
            assert forall|i: int, j: int| 0 <= i < j < s.push(e).len() implies s.push(e)[i].client
                != s.push(e)[j].client by {
                if j == s.len() {
                    assert(s[i].client != client);
                }
            }
        }
        self.clients.push(e);
    }

    /// Record that a client disconnected.
    pub fn connection_closed(&mut self, client: u64)
        requires
            old(self).wf(),
            old(self).active_connections > 0,
        ensures
            final(self).wf(),
            final(self).active_connections == old(self).active_connections - 1,
            final(self).clients@ == without(old(self).clients@, client),
            final(self).state == old(self).state,
    {
        self.forget(client);
        self.active_connections = self.active_connections - 1;
        self.metrics.active_connections = self.metrics.active_connections - 1;
    }

    /// Record a connection that failed with `message`.
    pub fn connection_failed(&mut self, message: String)
        requires
            old(self).metrics.failed_connections < u64::MAX,
        ensures
            final(self).metrics.failed_connections == old(self).metrics.failed_connections + 1,
            final(self).metrics.last_error == Some(message),
            final(self).metrics.total_connections == old(self).metrics.total_connections,
            final(self).metrics.active_connections == old(self).metrics.active_connections,
            final(self).active_connections == old(self).active_connections,
            final(self).clients@ == old(self).clients@,
            final(self).state == old(self).state,
    {
        self.metrics.failed_connections = self.metrics.failed_connections + 1;
        self.metrics.last_error = Some(message);
    }

    fn forget(&mut self, client: u64)
        requires
            distinct_clients(old(self).clients@),
        ensures
            final(self).clients@ == without(old(self).clients@, client),
            distinct_clients(final(self).clients@),
            forall|i: int| 0 <= i < final(self).clients@.len() ==> final(self).clients@[i].client
                != client,
            final(self).state == old(self).state,
            final(self).active_connections == old(self).active_connections,
            final(self).metrics == old(self).metrics,
            final(self).max_connections == old(self).max_connections,
            final(self).connection_timeout_ms == old(self).connection_timeout_ms,
    {
        let ghost orig = self.clients@;
        let ghost f = |x: ClientEntry| x.client != client;
        let mut kept: Vec<ClientEntry> = Vec::new();
        let mut i: usize = 0;
        while i < self.clients.len()
            invariant
                orig == self.clients@,
                i <= orig.len(),
                f == (|x: ClientEntry| x.client != client),
                kept@ == orig.take(i as int).filter(f),
            decreases orig.len() - i,
        {
            proof {
                lemma_filter_step(orig, f, i as int);
            }
            let e = self.clients[i];
            if e.client != client {
                kept.push(e);
            }
            i = i + 1;
        }
        proof {
            assert(orig.take(orig.len() as int) =~= orig);
            lemma_filter_distinct(orig, f);
            assert forall|i: int| 0 <= i < kept@.len() implies kept@[i].client != client by {
                orig.lemma_filter_pred(f, i);
            }
        }
        self.clients = kept;
    }

    /// The periodic health check at `now_ms`: keep the clients still live, count them as
    /// the active connections, and refresh the uptime unless `now_ms` lies before the start.
    pub fn check_health(&mut self, now_ms: u64)
        requires
            old(self).wf(),
            old(self).clients@.len() <= u32::MAX,
        ensures
            final(self).wf(),
            final(self).clients@ == old(self).clients@.filter(
                |e: ClientEntry| live(e.connected_at_ms, now_ms, old(self).connection_timeout_ms),
            ),
            final(self).active_connections == final(self).clients@.len(),
            final(self).metrics.uptime_ms == (if now_ms >= old(self).metrics.start_time_ms {
                (now_ms - old(self).metrics.start_time_ms) as u64
            } else {
                old(self).metrics.uptime_ms
            }),
            final(self).metrics.total_connections == old(self).metrics.total_connections,
            final(self).metrics.failed_connections == old(self).metrics.failed_connections,
            final(self).state == old(self).state,
    {
        let ghost orig = self.clients@;
        let timeout = self.connection_timeout_ms;
        let ghost f = |e: ClientEntry| live(e.connected_at_ms, now_ms, timeout);
        let mut kept: Vec<ClientEntry> = Vec::new();
        let mut i: usize = 0;
        while i < self.clients.len()
            invariant
                orig == self.clients@,
                i <= orig.len(),
                timeout == self.connection_timeout_ms,
                f == (|e: ClientEntry| live(e.connected_at_ms, now_ms, timeout)),
                kept@ == orig.take(i as int).filter(f),
                kept@.len() <= i,
            decreases orig.len() - i,
        {
            proof {
                lemma_filter_step(orig, f, i as int);
            }
            let e = self.clients[i];
            if e.connected_at_ms <= now_ms && now_ms - e.connected_at_ms < timeout {
                kept.push(e);
            }
            i = i + 1;
        }
        proof {
            assert(orig.take(orig.len() as int) =~= orig);
            lemma_filter_distinct(orig, f);
        }
        let n = kept.len() as u32;
        self.clients = kept;
        self.active_connections = n;
        self.metrics.active_connections = n;
        if now_ms >= self.metrics.start_time_ms {
            self.metrics.uptime_ms = now_ms - self.metrics.start_time_ms;
        }
    }
}

} // verus!
