//! Cluster coordination: leader election by term and votes, the decisions taken on
//! the periodic cluster tasks, and the bookkeeping of where messages are replicated.

use vstd::prelude::*;

verus! {

/// The range, in milliseconds, from which an election timeout is drawn.
#[derive(Debug, Clone, Copy)]
pub struct ElectionTimeout(pub u64, pub u64);

/// Cluster configuration. Durations are in milliseconds.
#[derive(Debug)]
pub struct ClusterConfig {
    /// The interval for heartbeat signals.
    pub heartbeat_interval_ms: u64,
    /// The election timeout range.
    pub election_timeout: ElectionTimeout,
    /// The minimum number of votes that makes a quorum.
    pub min_quorum_size: usize,
    /// The duration after which a node is considered unresponsive.
    pub node_timeout_ms: u64,
    /// How many copies of data exist.
    pub replication_factor: usize,
    /// A unique identifier for the cluster.
    pub cluster_id: String,
}

impl ClusterConfig {
    /// Heartbeat every second, elections after 1.5 to 3 seconds, a quorum of two,
    /// nodes unresponsive after 5 seconds, two copies of data.
    pub fn new_default(cluster_id: String) -> (c: Self)
        ensures
            c.heartbeat_interval_ms == 1000,
            c.election_timeout.0 == 1500,
            c.election_timeout.1 == 3000,
            c.min_quorum_size == 2,
            c.node_timeout_ms == 5000,
            c.replication_factor == 2,
            c.cluster_id == cluster_id,
    {
        ClusterConfig {
            heartbeat_interval_ms: 1000,
            election_timeout: ElectionTimeout(1500, 3000),
            min_quorum_size: 2,
            node_timeout_ms: 5000,
            replication_factor: 2,
            cluster_id,
        }
    }
}

/// Calls `rand::Rng::gen_range` on the thread-local generator over the inclusive
/// range `lo..=hi`; the result lies in that range and is otherwise random.
#[verifier::external_body]
fn random_in_range(lo: u64, hi: u64) -> (r: u64)
    requires
        lo <= hi,
    ensures
        lo <= r <= hi,
{
    rand::Rng::gen_range(&mut rand::thread_rng(), lo..=hi)
}

/// Draw the next election timeout from the configured range.
pub fn pick_election_timeout(config: &ClusterConfig) -> (t: u64)
    requires
        config.election_timeout.0 <= config.election_timeout.1,
    ensures
        config.election_timeout.0 <= t <= config.election_timeout.1,
{
    random_in_range(config.election_timeout.0, config.election_timeout.1)
}

/// The role of a node in the cluster.
#[derive(Debug, Clone, Copy, PartialEq, Eq, Structural)]
pub enum NodeRole {
    Follower,
    Candidate,
    Leader,
}

/// The health of a node.
#[derive(Debug, Clone, Copy, PartialEq, Eq, Structural)]
pub enum NodeHealth {
    Healthy,
    Degraded,
    Unhealthy,
}

/// A node of the cluster.
#[derive(Debug, Clone, Copy)]
pub struct Node {
    pub id: u128,
    pub role: NodeRole,
    pub health: NodeHealth,
    /// When the last heartbeat was seen (milliseconds since the epoch)
    pub last_heartbeat_ms: u64,
    pub term: u64,
}

/// The replicated cluster state.
#[derive(Debug, Clone, Copy)]
pub struct ClusterState {
    pub term: u64,
    pub leader_id: Option<u128>,
    pub quorum_size: usize,
    pub config_version: u64,
    pub last_updated_ms: u64,
}

/// Messages exchanged between nodes.
#[derive(Debug, Clone, Copy)]
pub enum ClusterMessage {
    Heartbeat { term: u64, leader_id: u128, timestamp_ms: u64 },
    RequestVote { term: u64, candidate_id: u128 },
    StateSync { term: u64, state: ClusterState },
    Leave { node_id: u128, timestamp_ms: u64 },
}

/// A periodic task of the cluster manager.
#[derive(Debug, Clone, Copy, PartialEq, Eq, Structural)]
pub enum ClusterTask {
    SendHeartbeat,
    CheckHealth,
    CheckElection,
    Shutdown,
}

/// What a task leads to: a message to broadcast, nothing, or the end of the task loop.
#[derive(Debug, Clone, Copy)]
pub enum TaskStep {
    Broadcast(ClusterMessage),
    Idle,
    Stop,
}

/// The voters after a granted vote from `voter`: a voter already counted is not counted again.
pub open spec fn vote_applied(voters: Seq<u128>, voter: u128) -> Seq<u128> {
    if voters.contains(voter) {
        voters
    } else {
        voters.push(voter)
    }
}

/// A voter that votes again is not counted twice, and the voters never repeat.
pub proof fn law_vote_counted_once(voters: Seq<u128>, voter: u128)
    requires
        voters.no_duplicates(),
    ensures
        vote_applied(vote_applied(voters, voter), voter) == vote_applied(voters, voter),
        vote_applied(voters, voter).no_duplicates(),
        vote_applied(voters, voter).contains(voter),
        vote_applied(voters, voter).len() <= voters.len() + 1,
{
    let v = vote_applied(voters, voter);
    if !voters.contains(voter) {
        assert(v[v.len() - 1] == voter);
        assert(v.contains(voter));
    }
}

/// Election and membership state of the local node.
#[derive(Debug)]
pub struct ClusterManager {
    /// Local node information
    pub node: Node,
    /// Current cluster state
    pub state: ClusterState,
    /// Known nodes of the cluster
    pub nodes: Vec<Node>,
    /// Nodes that granted their vote
    pub votes: Vec<u128>,
    /// How long a node may stay silent before an election starts (ms)
    pub node_timeout_ms: u64,
}

impl ClusterManager {
    /// The voters that granted their vote.
    pub closed spec fn voters(&self) -> Seq<u128> {
        self.votes@
    }

    /// No voter is counted twice.
    pub closed spec fn wf(&self) -> bool {
        self.votes@.no_duplicates()
    }

    /// A manager for a fresh follower node with term 0 and no leader.
    pub fn new(config: &ClusterConfig, now_ms: u64) -> (m: Self)
        ensures
            m.wf(),
            m.node.role == NodeRole::Follower,
            m.node.health == NodeHealth::Healthy,
            m.node.term == 0,
            m.node.last_heartbeat_ms == now_ms,
            m.state.term == 0,
            m.state.leader_id is None,
            m.state.quorum_size == config.min_quorum_size,
            m.state.config_version == 0,
            m.voters().len() == 0,
            m.nodes@.len() == 0,
            m.node_timeout_ms == config.node_timeout_ms,
    {
        let id = crate::ids::new_id();
        let node = Node {
            id,
            role: NodeRole::Follower,
            health: NodeHealth::Healthy,
            last_heartbeat_ms: now_ms,
            term: 0,
        };
        ClusterManager {
            node,
            state: ClusterState {
                term: 0,
                leader_id: None,
                quorum_size: config.min_quorum_size,
                config_version: 0,
                last_updated_ms: now_ms,
            },
            nodes: Vec::new(),
            votes: Vec::new(),
            node_timeout_ms: config.node_timeout_ms,
        }
    }

    /// Number of votes granted.
    pub fn vote_count(&self) -> (n: usize)
        ensures
            n == self.voters().len(),
    {
        self.votes.len()
    }

    /// Start a leader election: the term goes up by one, the node becomes a candidate
    /// in that term, and the vote request to send to the other nodes is returned.
    pub fn start_election(&mut self) -> (request: ClusterMessage)
        requires
            old(self).wf(),
            old(self).state.term < u64::MAX,
        ensures
            final(self).wf(),
            final(self).state == (ClusterState { term: (old(self).state.term + 1) as u64, ..old(self).state }),
            final(self).node == (Node {
                role: NodeRole::Candidate,
                term: (old(self).state.term + 1) as u64,
                ..old(self).node
            }),
            final(self).voters() == old(self).voters(),
            final(self).nodes == old(self).nodes,
            final(self).node_timeout_ms == old(self).node_timeout_ms,
            request == (ClusterMessage::RequestVote {
                term: final(self).state.term,
                candidate_id: final(self).node.id,
            }),
    {
        self.state.term = self.state.term + 1;
        self.node.role = NodeRole::Candidate;
        self.node.term = self.state.term;
        ClusterMessage::RequestVote { term: self.state.term, candidate_id: self.node.id }
    }

    /// Handle a vote for `term`. A vote for another term is ignored. A granted vote
    /// counts its voter once; when the count reaches the quorum size, the node becomes
    /// leader and is recorded as such.
    pub fn handle_vote(&mut self, term: u64, voter_id: u128, granted: bool)
        requires
            old(self).wf(),
        ensures
            final(self).wf(),
            final(self).nodes == old(self).nodes,
            final(self).node_timeout_ms == old(self).node_timeout_ms,
            term != old(self).state.term || !granted ==> final(self).voters() == old(self).voters()
                && final(self).node == old(self).node && final(self).state == old(self).state,
            term == old(self).state.term && granted ==> {
                let v = vote_applied(old(self).voters(), voter_id);
                &&& final(self).voters() == v
                &&& v.len() >= old(self).state.quorum_size ==> final(self).node == (Node {
                    role: NodeRole::Leader,
                    ..old(self).node
                }) && final(self).state == (ClusterState {
                    leader_id: Some(old(self).node.id),
                    ..old(self).state
                })
                &&& v.len() < old(self).state.quorum_size ==> final(self).node == old(self).node
                    && final(self).state == old(self).state
            },
    {
        if term != self.state.term {
            return ;
        }
        if granted {
            let mut present = false;
            let mut i: usize = 0;
            while i < self.votes.len()
                invariant
                    i <= self.votes@.len(),
                    present <==> exists|j: int| 0 <= j < i && self.votes@[j] == voter_id,
                decreases self.votes@.len() - i,
            {
                if self.votes[i] == voter_id {
                    present = true;
                }
                i = i + 1;
            }
            assert(present <==> self.votes@.contains(voter_id));
            if !present {
                self.votes.push(voter_id);
            }
            if self.votes.len() >= self.state.quorum_size {
                self.node.role = NodeRole::Leader;
                self.state.leader_id = Some(self.node.id);
            }
        }
    }

    /// Update local state for a message about to be broadcast: a state sync replaces the
    /// cluster state, a vote request sets its term; other messages change nothing.
    pub fn apply_outgoing(&mut self, message: &ClusterMessage)
        requires
            old(self).wf(),
        ensures
            final(self).wf(),
            final(self).node == old(self).node,
            final(self).voters() == old(self).voters(),
            final(self).nodes == old(self).nodes,
            final(self).node_timeout_ms == old(self).node_timeout_ms,
            final(self).state == match *message {
                ClusterMessage::StateSync { term: _, state } => state,
                ClusterMessage::RequestVote { term, candidate_id: _ } => ClusterState {
                    term,
                    ..old(self).state
                },
                _ => old(self).state,
            },
    {
        match message {
            ClusterMessage::StateSync { term: _, state } => {
                self.state = *state;
            },
            ClusterMessage::RequestVote { term, candidate_id: _ } => {
                self.state.term = *term;
            },
            _ => {},
        }
    }

    /// The heartbeat to send when the node leads; followers and candidates send none.
    pub fn heartbeat(&self, now_ms: u64) -> (m: Option<ClusterMessage>)
        ensures
            self.node.role == NodeRole::Leader ==> m == Some(
                ClusterMessage::Heartbeat {
                    term: self.state.term,
                    leader_id: self.node.id,
                    timestamp_ms: now_ms,
                },
            ),
            self.node.role != NodeRole::Leader ==> m is None,
    {
        if self.node.role != NodeRole::Leader {
            return None;
        }
        Some(
            ClusterMessage::Heartbeat {
                term: self.state.term,
                leader_id: self.node.id,
                timestamp_ms: now_ms,
            },
        )
    }

    /// The periodic task of the cluster manager and what it leads to at `now_ms`: a
    /// leader sends a heartbeat; a health check announces the current state; an
    /// election check starts an election when one is due, announcing the vote request;
    /// shutdown ends the task loop.
    pub fn process_task(&mut self, task: ClusterTask, now_ms: u64) -> (step: TaskStep)
        requires
            old(self).wf(),
            old(self).state.term < u64::MAX,
        ensures
            final(self).wf(),
            final(self).nodes == old(self).nodes,
            final(self).voters() == old(self).voters(),
            match task {
                ClusterTask::SendHeartbeat => final(self).node == old(self).node && final(self).state
                    == old(self).state && if old(self).node.role == NodeRole::Leader {
                    step == TaskStep::Broadcast(
                        ClusterMessage::Heartbeat {
                            term: old(self).state.term,
                            leader_id: old(self).node.id,
                            timestamp_ms: now_ms,
                        },
                    )
                } else {
                    step == TaskStep::Idle
                },
                ClusterTask::CheckHealth => final(self).node == old(self).node && final(self).state
                    == old(self).state && step == TaskStep::Broadcast(
                    ClusterMessage::StateSync { term: old(self).state.term, state: old(self).state },
                ),
                ClusterTask::CheckElection => if old(self).node.role != NodeRole::Leader && now_ms
                    >= old(self).node.last_heartbeat_ms && now_ms - old(self).node.last_heartbeat_ms
                    > old(self).node_timeout_ms {
                    &&& final(self).state == (ClusterState {
                        term: (old(self).state.term + 1) as u64,
                        ..old(self).state
                    })
                    &&& final(self).node == (Node {
                        role: NodeRole::Candidate,
                        term: (old(self).state.term + 1) as u64,
                        ..old(self).node
                    })
                    &&& step == TaskStep::Broadcast(
                        ClusterMessage::RequestVote {
                            term: (old(self).state.term + 1) as u64,
                            candidate_id: old(self).node.id,
                        },
                    )
                } else {
                    final(self).node == old(self).node && final(self).state == old(self).state && step
                        == TaskStep::Idle
                },
                ClusterTask::Shutdown => final(self).node == old(self).node && final(self).state
                    == old(self).state && step == TaskStep::Stop,
            },
    {
        match task {
            ClusterTask::SendHeartbeat => match self.heartbeat(now_ms) {
                Some(m) => TaskStep::Broadcast(m),
                None => TaskStep::Idle,
            },
            ClusterTask::CheckHealth => {
                let m = ClusterMessage::StateSync { term: self.state.term, state: self.state };
                self.apply_outgoing(&m);
                TaskStep::Broadcast(m)
            },
            ClusterTask::CheckElection => {
                if self.should_start_election(now_ms) {
                    let request = self.start_election();
                    self.apply_outgoing(&request);
                    TaskStep::Broadcast(request)
                } else {
                    TaskStep::Idle
                }
            },
            ClusterTask::Shutdown => TaskStep::Stop,
        }
    }

    /// Whether an election is due at `now_ms`: the node does not lead and its last
    /// heartbeat is older than the node timeout (a heartbeat from the future counts as
    /// no time elapsed).
    pub fn should_start_election(&self, now_ms: u64) -> (r: bool)
        ensures
            r == (self.node.role != NodeRole::Leader && now_ms >= self.node.last_heartbeat_ms
                && now_ms - self.node.last_heartbeat_ms > self.node_timeout_ms),
    {
        let elapsed = if now_ms >= self.node.last_heartbeat_ms {
            now_ms - self.node.last_heartbeat_ms
        } else {
            0
        };
        self.node.role != NodeRole::Leader && elapsed > self.node_timeout_ms
    }

    /// The message announcing that this node leaves the cluster.
    pub fn leave_message(&self, now_ms: u64) -> (m: ClusterMessage)
        ensures
            m == (ClusterMessage::Leave { node_id: self.node.id, timestamp_ms: now_ms }),
    {
        ClusterMessage::Leave { node_id: self.node.id, timestamp_ms: now_ms }
    }

    /// The known nodes that are healthy, in order.
    pub fn get_active_nodes(&self) -> (r: Vec<Node>)
        ensures
            r@ == self.nodes@.filter(|n: Node| n.health == NodeHealth::Healthy),
    {
        let mut r: Vec<Node> = Vec::new();
        let mut i: usize = 0;
        while i < self.nodes.len()
            invariant
                i <= self.nodes@.len(),
                r@ == self.nodes@.take(i as int).filter(|n: Node| n.health == NodeHealth::Healthy),
            decreases self.nodes@.len() - i,
        {
            proof {
                assert(self.nodes@.take(i as int + 1).drop_last() =~= self.nodes@.take(i as int));
                reveal_with_fuel(Seq::filter, 1);
            }
            let n = self.nodes[i];
            if n.health == NodeHealth::Healthy {
                r.push(n);
            }
            i = i + 1;
        }
        assert(self.nodes@.take(self.nodes@.len() as int) =~= self.nodes@);
        r
    }
}

} // verus!
