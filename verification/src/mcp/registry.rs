//! Registry of connected agents and of the tasks assigned to them.

use crate::error::NexaError;
use crate::store::{Keyed, KeyedStore};
use crate::text::{owned, push_str};
use vstd::prelude::*;

verus! {

/// Status of a task.
#[derive(Debug, Clone, Copy, PartialEq, Eq, Structural)]
pub enum TaskStatus {
    Pending,
    InProgress,
    Completed,
    Failed,
    Cancelled,
}

/// Status of an agent.
#[derive(Debug, Clone, Copy, PartialEq, Eq, Structural)]
pub enum AgentStatus {
    Idle,
    Busy,
    Offline,
    Error,
}

/// A task. Times are milliseconds since the Unix epoch.
#[derive(Debug)]
pub struct Task {
    pub id: String,
    pub title: String,
    pub description: String,
    pub status: TaskStatus,
    pub steps: Vec<String>,
    pub requirements: Vec<String>,
    pub assigned_agent: Option<String>,
    pub created_at_ms: i64,
    pub deadline_ms: Option<i64>,
    pub estimated_duration: i64,
    pub priority: i32,
}

/// An agent. Times are milliseconds since the Unix epoch.
#[derive(Debug)]
pub struct Agent {
    pub id: String,
    pub name: String,
    pub capabilities: Vec<String>,
    pub status: AgentStatus,
    pub current_task: Option<String>,
    pub last_heartbeat_ms: i64,
}

pub(crate) fn clone_opt_string(s: &Option<String>) -> (r: Option<String>)
    ensures
        r == *s,
{
    match s {
        Some(x) => Some(x.clone()),
        None => None,
    }
}

impl Task {
    /// The same task, field by field (lists by their contents).
    pub open spec fn same_as(&self, other: &Task) -> bool {
        &&& self.id == other.id
        &&& self.title == other.title
        &&& self.description == other.description
        &&& self.status == other.status
        &&& self.steps@ == other.steps@
        &&& self.requirements@ == other.requirements@
        &&& self.assigned_agent == other.assigned_agent
        &&& self.created_at_ms == other.created_at_ms
        &&& self.deadline_ms == other.deadline_ms
        &&& self.estimated_duration == other.estimated_duration
        &&& self.priority == other.priority
    }

    /// A pending, unassigned task with a fresh random id, created at `now_ms`.
    pub fn new(
        title: String,
        description: String,
        steps: Vec<String>,
        requirements: Vec<String>,
        deadline_ms: Option<i64>,
        estimated_duration: i64,
        priority: i32,
        now_ms: i64,
    ) -> (t: Task)
        ensures
            crate::ids::hyphenated_shape(t.id@),
            t.title == title,
            t.description == description,
            t.status == TaskStatus::Pending,
            t.steps == steps,
            t.requirements == requirements,
            t.assigned_agent is None,
            t.created_at_ms == now_ms,
            t.deadline_ms == deadline_ms,
            t.estimated_duration == estimated_duration,
            t.priority == priority,
    {
        Task {
            id: crate::ids::new_id_string(),
            title,
            description,
            status: TaskStatus::Pending,
            steps,
            requirements,
            assigned_agent: None,
            created_at_ms: now_ms,
            deadline_ms,
            estimated_duration,
            priority,
        }
    }
}

impl Clone for Task {
    fn clone(&self) -> (r: Self)
        ensures
            r.same_as(self),
    {
        Task {
            id: self.id.clone(),
            title: self.title.clone(),
            description: self.description.clone(),
            status: self.status,
            steps: crate::mcp::config::clone_strings(&self.steps),
            requirements: crate::mcp::config::clone_strings(&self.requirements),
            assigned_agent: clone_opt_string(&self.assigned_agent),
            created_at_ms: self.created_at_ms,
            deadline_ms: self.deadline_ms,
            estimated_duration: self.estimated_duration,
            priority: self.priority,
        }
    }
}

impl Keyed for Task {
    open spec fn key(&self) -> Seq<char> {
        self.id@
    }

    fn key_str(&self) -> (r: &str) {
        self.id.as_str()
    }
}

/// The names of the capabilities an agent lists.
pub open spec fn capability_names(a: Agent) -> Seq<Seq<char>> {
    a.capabilities@.map_values(|c: String| c@)
}

/// Whether agent `a` lists capability `cap`.
pub open spec fn lists_capability(a: Agent, cap: Seq<char>) -> bool {
    capability_names(a).contains(cap)
}

/// The predicate "lists capability `cap`".
pub open spec fn capable(cap: Seq<char>) -> spec_fn(Agent) -> bool {
    |a: Agent| lists_capability(a, cap)
}

impl Agent {
    /// The same agent, field by field (the capability list by its contents).
    pub open spec fn same_as(&self, other: &Agent) -> bool {
        &&& self.id == other.id
        &&& self.name == other.name
        &&& self.capabilities@ == other.capabilities@
        &&& self.status == other.status
        &&& self.current_task == other.current_task
        &&& self.last_heartbeat_ms == other.last_heartbeat_ms
    }

    /// An idle agent without a task, with a fresh random id, seen at `now_ms`.
    pub fn new(name: String, capabilities: Vec<String>, now_ms: i64) -> (a: Agent)
        ensures
            crate::ids::hyphenated_shape(a.id@),
            a.name == name,
            a.capabilities == capabilities,
            a.status == AgentStatus::Idle,
            a.current_task is None,
            a.last_heartbeat_ms == now_ms,
    {
        Agent {
            id: crate::ids::new_id_string(),
            name,
            capabilities,
            status: AgentStatus::Idle,
            current_task: None,
            last_heartbeat_ms: now_ms,
        }
    }

    /// Record a heartbeat seen at `now_ms`.
    pub fn update_heartbeat(&mut self, now_ms: i64)
        ensures
            *final(self) == (Agent { last_heartbeat_ms: now_ms, ..*old(self) }),
    {
        self.last_heartbeat_ms = now_ms;
    }

    /// Give the agent a task: it becomes busy with it.
    pub fn assign_task(&mut self, task_id: String)
        ensures
            *final(self) == (Agent {
                current_task: Some(task_id),
                status: AgentStatus::Busy,
                ..*old(self)
            }),
    {
        self.current_task = Some(task_id);
        self.status = AgentStatus::Busy;
    }

    /// The agent finishes its task and becomes idle.
    pub fn complete_task(&mut self)
        ensures
            *final(self) == (Agent { current_task: None, status: AgentStatus::Idle, ..*old(self) }),
    {
        self.current_task = None;
        self.status = AgentStatus::Idle;
    }

    pub fn set_status(&mut self, status: AgentStatus)
        ensures
            *final(self) == (Agent { status, ..*old(self) }),
    {
        self.status = status;
    }

    /// Whether the agent lists `capability` among its capabilities.
    pub fn has_capability(&self, capability: &str) -> (r: bool)
        ensures
            r == lists_capability(*self, capability@),
    {
        let mut i: usize = 0;
        while i < self.capabilities.len()
            invariant
                i <= self.capabilities@.len(),
                forall|j: int| 0 <= j < i ==> (#[trigger] self.capabilities@[j])@ != capability@,
            decreases self.capabilities@.len() - i,
        {
            if crate::text::str_eq(self.capabilities[i].as_str(), capability) {
                assert(capability_names(*self)[i as int] == capability@);
                return true;
            }
            i = i + 1;
        }
        proof {
            let m = capability_names(*self);
            if m.contains(capability@) {
                let j = choose|j: int| 0 <= j < m.len() && m[j] == capability@;
                assert(self.capabilities@[j]@ == capability@);
            }
        }
        false
    }
}

impl Clone for Agent {
    fn clone(&self) -> (r: Self)
        ensures
            r.same_as(self),
    {
        Agent {
            id: self.id.clone(),
            name: self.name.clone(),
            capabilities: crate::mcp::config::clone_strings(&self.capabilities),
            status: self.status,
            current_task: clone_opt_string(&self.current_task),
            last_heartbeat_ms: self.last_heartbeat_ms,
        }
    }
}

impl Keyed for Agent {
    open spec fn key(&self) -> Seq<char> {
        self.id@
    }

    fn key_str(&self) -> (r: &str) {
        self.id.as_str()
    }
}

/// A "not found" message naming the missing item: `prefix` followed by `id`.
fn not_found(prefix: &str, id: &str) -> (e: NexaError)
    ensures
        e matches NexaError::System(m) && m@ == prefix@ + id@,
{
    let mut s = owned(prefix);
    push_str(&mut s, id);
    NexaError::System(s)
}

/// Registry for managing connected agents and their tasks.
#[derive(Debug)]
pub struct AgentRegistry {
    pub agents: KeyedStore<Agent>,
    pub tasks: KeyedStore<Task>,
}

impl AgentRegistry {
    /// Both collections are well formed.
    pub open spec fn wf(&self) -> bool {
        self.agents.wf() && self.tasks.wf()
    }

    /// An empty registry.
    pub fn new() -> (r: Self)
        ensures
            r.wf(),
            r.agents.view() == Map::<Seq<char>, Agent>::empty(),
            r.tasks.view() == Map::<Seq<char>, Task>::empty(),
    {
        AgentRegistry { agents: KeyedStore::new(), tasks: KeyedStore::new() }
    }

    /// Register a new agent; an agent whose id is already registered is refused.
    pub fn register(&mut self, agent: Agent) -> (r: Result<(), NexaError>)
        requires
            old(self).wf(),
        ensures
            final(self).wf(),
            final(self).tasks == old(self).tasks,
            old(self).agents.view().contains_key(agent.id@) ==> (r matches Err(NexaError::Agent(m))
                && m@ == "Agent already registered"@),
            old(self).agents.view().contains_key(agent.id@) ==> final(self).agents.view() == old(self).agents.view(),
            !old(self).agents.view().contains_key(agent.id@) ==> r is Ok,
            !old(self).agents.view().contains_key(agent.id@) ==> final(self).agents.view() == old(self).agents.view().insert(agent.id@, agent),
    {
        if self.agents.contains_key(agent.id.as_str()) {
            return Err(NexaError::Agent(owned("Agent already registered")));
        }
        self.agents.insert(agent);
        Ok(())
    }

    /// Deregister an agent.
    pub fn deregister(&mut self, agent_id: &str) -> (r: Result<(), NexaError>)
        requires
            old(self).wf(),
        ensures
            final(self).wf(),
            final(self).tasks == old(self).tasks,
            final(self).agents.view() == old(self).agents.view().remove(agent_id@),
            r is Ok <==> old(self).agents.view().contains_key(agent_id@),
            r matches Err(e) ==> (e matches NexaError::Agent(m) && m@ == "Agent not found"@),
    {
        match self.agents.remove(agent_id) {
            Some(_) => Ok(()),
            None => Err(NexaError::Agent(owned("Agent not found"))),
        }
    }

    /// A copy of the agent with id `agent_id`.
    pub fn get_agent(&self, agent_id: &str) -> (r: Result<Agent, NexaError>)
        requires
            self.wf(),
        ensures
            r is Ok <==> self.agents.view().contains_key(agent_id@),
            r matches Ok(a) ==> a.same_as(&self.agents.view()[agent_id@]),
            r matches Err(e) ==> (e matches NexaError::Agent(m) && m@ == "Agent not found"@),
    {
        match self.agents.get(agent_id) {
            Some(a) => Ok(a.clone()),
            None => Err(NexaError::Agent(owned("Agent not found"))),
        }
    }

    /// Set the status of an agent.
    pub fn update_status(&mut self, agent_id: &str, status: AgentStatus) -> (r: Result<(), NexaError>)
        requires
            old(self).wf(),
        ensures
            final(self).wf(),
            final(self).tasks == old(self).tasks,
            r is Ok <==> old(self).agents.view().contains_key(agent_id@),
            r is Ok ==> final(self).agents.view() == old(self).agents.view().insert(
                agent_id@,
                Agent { status, ..old(self).agents.view()[agent_id@] },
            ),
            r matches Err(e) ==> (e matches NexaError::Agent(m) && m@ == "Agent not found"@),
            r is Err ==> final(self).agents.view() == old(self).agents.view(),
    {
        match self.agents.remove(agent_id) {
            Some(mut a) => {
                a.status = status;
                self.agents.insert(a);
                proof {
                    assert(final(self).agents.view() =~= old(self).agents.view().insert(
                        agent_id@,
                        Agent { status, ..old(self).agents.view()[agent_id@] },
                    ));
                }
                Ok(())
            },
            None => {
                assert(self.agents.view() =~= old(self).agents.view());
                Err(NexaError::Agent(owned("Agent not found")))
            },
        }
    }

    /// The registered agents, in registry order.
    pub fn list_agents(&self) -> (r: &Vec<Agent>)
        requires
            self.wf(),
        ensures
            r@ == self.agents.entries(),
    {
        self.agents.entries_ref()
    }

    /// Copies of the agents that list `capability`, in registry order.
    pub fn find_by_capability(&self, capability: &str) -> (r: Vec<Agent>)
        requires
            self.wf(),
        ensures
            r@.len() == self.agents.entries().filter(
                capable(capability@),
            ).len(),
            forall|k: int|
                0 <= k < r@.len() ==> (#[trigger] r@[k]).same_as(
                    &self.agents.entries().filter(
                        capable(capability@),
                    )[k],
                ),
    {
        let all = self.agents.entries_ref();
        let ghost pred = capable(capability@);
        let mut r: Vec<Agent> = Vec::new();
        let mut i: usize = 0;
        while i < all.len()
            invariant
                i <= all@.len(),
                all@ == self.agents.entries(),
                pred == capable(capability@),
                r@.len() == all@.take(i as int).filter(pred).len(),
                forall|k: int|
                    0 <= k < r@.len() ==> (#[trigger] r@[k]).same_as(&all@.take(i as int).filter(pred)[k]),
            decreases all@.len() - i,
        {
            proof {
                assert(all@.take(i as int + 1).drop_last() =~= all@.take(i as int));
                reveal_with_fuel(Seq::filter, 1);
            }
            let ai = &all[i];
            let has = ai.has_capability(capability);
            assert(has == pred(all@[i as int]));
            if has {
                let c = all[i].clone();
                r.push(c);
            }
            i = i + 1;
        }
        assert(all@.take(all@.len() as int) =~= all@);
        r
    }

    /// Add a task, replacing any task with the same id.
    pub fn add_task(&mut self, task: Task) -> (r: Result<(), NexaError>)
        requires
            old(self).wf(),
        ensures
            final(self).wf(),
            r is Ok,
            final(self).agents == old(self).agents,
            final(self).tasks.view() == old(self).tasks.view().insert(task.id@, task),
    {
        self.tasks.insert(task);
        Ok(())
    }

    /// Replace a task by id (or add it).
    pub fn update_task(&mut self, task: Task) -> (r: Result<(), NexaError>)
        requires
            old(self).wf(),
        ensures
            final(self).wf(),
            r is Ok,
            final(self).agents == old(self).agents,
            final(self).tasks.view() == old(self).tasks.view().insert(task.id@, task),
    {
        self.tasks.insert(task);
        Ok(())
    }

    /// Remove a task; removing an unknown task is not an error.
    pub fn remove_task(&mut self, id: &str) -> (r: Result<(), NexaError>)
        requires
            old(self).wf(),
        ensures
            final(self).wf(),
            r is Ok,
            final(self).agents == old(self).agents,
            final(self).tasks.view() == old(self).tasks.view().remove(id@),
    {
        self.tasks.remove(id);
        Ok(())
    }

    /// A copy of the task with id `id`.
    pub fn get_task(&self, id: &str) -> (r: Result<Task, NexaError>)
        requires
            self.wf(),
        ensures
            r is Ok <==> self.tasks.view().contains_key(id@),
            r matches Ok(t) ==> t.same_as(&self.tasks.view()[id@]),
            r matches Err(e) ==> (e matches NexaError::System(m) && m@ == "Task not found: "@ + id@),
    {
        match self.tasks.get(id) {
            Some(t) => Ok(t.clone()),
            None => Err(not_found("Task not found: ", id)),
        }
    }

    /// The tasks, in registry order.
    pub fn list_tasks(&self) -> (r: &Vec<Task>)
        requires
            self.wf(),
        ensures
            r@ == self.tasks.entries(),
    {
        self.tasks.entries_ref()
    }

    /// Assign a task to an agent: the task records the agent and the agent records the
    /// task. The task must exist (checked first), then the agent.
    pub fn assign_task(&mut self, task_id: &str, agent_id: &str) -> (r: Result<(), NexaError>)
        requires
            old(self).wf(),
        ensures
            final(self).wf(),
            !old(self).tasks.view().contains_key(task_id@) ==> (r matches Err(NexaError::System(m))
                && m@ == "Task not found: "@ + task_id@),
            old(self).tasks.view().contains_key(task_id@) && !old(self).agents.view().contains_key(
                agent_id@,
            ) ==> (r matches Err(NexaError::System(m)) && m@ == "Agent not found: "@ + agent_id@),
            r is Ok <==> old(self).tasks.view().contains_key(task_id@) && old(self).agents.view().contains_key(agent_id@),
            r is Err ==> final(self).tasks.view() == old(self).tasks.view() && final(self).agents.view() == old(self).agents.view(),
            r is Ok ==> {
                let t = final(self).tasks.view()[task_id@];
                let a = final(self).agents.view()[agent_id@];
                &&& final(self).tasks.view() == old(self).tasks.view().insert(task_id@, t)
                &&& final(self).agents.view() == old(self).agents.view().insert(agent_id@, a)
                &&& t == Task { assigned_agent: t.assigned_agent, ..old(self).tasks.view()[task_id@] }
                &&& t.assigned_agent matches Some(s) && s@ == agent_id@
                &&& a == Agent { current_task: a.current_task, ..old(self).agents.view()[agent_id@] }
                &&& a.current_task matches Some(s) && s@ == task_id@
            },
    {
        if !self.tasks.contains_key(task_id) {
            return Err(not_found("Task not found: ", task_id));
        }
        if !self.agents.contains_key(agent_id) {
            return Err(not_found("Agent not found: ", agent_id));
        }
        let mut t = self.tasks.remove(task_id).unwrap();
        let mut a = self.agents.remove(agent_id).unwrap();
        t.assigned_agent = Some(owned(agent_id));
        a.current_task = Some(owned(task_id));
        let ghost tv = t;
        let ghost av = a;
        self.tasks.insert(t);
        self.agents.insert(a);
        proof {
            assert(self.tasks.view() =~= old(self).tasks.view().insert(task_id@, tv));
            assert(self.agents.view() =~= old(self).agents.view().insert(agent_id@, av));
        }
        Ok(())
    }

    /// Take a task back from its agent: the agent it was assigned to, if registered,
    /// drops it, and the task is left unassigned.
    pub fn unassign_task(&mut self, task_id: &str) -> (r: Result<(), NexaError>)
        requires
            old(self).wf(),
        ensures
            final(self).wf(),
            r is Ok <==> old(self).tasks.view().contains_key(task_id@),
            r matches Err(e) ==> (e matches NexaError::System(m) && m@ == "Task not found: "@
                + task_id@),
            r is Err ==> final(self).tasks.view() == old(self).tasks.view() && final(self).agents.view() == old(self).agents.view(),
            r is Ok ==> {
                let t0 = old(self).tasks.view()[task_id@];
                &&& final(self).tasks.view() == old(self).tasks.view().insert(
                    task_id@,
                    Task { assigned_agent: None, ..t0 },
                )
                &&& match t0.assigned_agent {
                    Some(aid) => if old(self).agents.view().contains_key(aid@) {
                        final(self).agents.view() == old(self).agents.view().insert(
                            aid@,
                            Agent { current_task: None, ..old(self).agents.view()[aid@] },
                        )
                    } else {
                        final(self).agents.view() == old(self).agents.view()
                    },
                    None => final(self).agents.view() == old(self).agents.view(),
                }
            },
    {
        let mut t = match self.tasks.remove(task_id) {
            Some(t) => t,
            None => {
                assert(self.tasks.view() =~= old(self).tasks.view());
                return Err(not_found("Task not found: ", task_id));
            },
        };
        match &t.assigned_agent {
            Some(aid) => {
                match self.agents.remove(aid.as_str()) {
                    Some(mut a) => {
                        a.current_task = None;
                        let ghost av = a;
                        self.agents.insert(a);
                        proof {
                            assert(self.agents.view() =~= old(self).agents.view().insert(aid@, av));
                        }
                    },
                    None => {
                        assert(self.agents.view() =~= old(self).agents.view());
                    },
                }
            },
            None => {},
        }
        t.assigned_agent = None;
        let ghost tv = t;
        self.tasks.insert(t);
        proof {
            assert(self.tasks.view() =~= old(self).tasks.view().insert(task_id@, tv));
        }
        Ok(())
    }
}

} // verus!

verus! {

/// Registering an agent under a new id and then looking it up gives that agent back;
/// deregistering it again leaves the registry as it was.
pub proof fn law_register_get_deregister(agents: Map<Seq<char>, Agent>, a: Agent)
    requires
        !agents.contains_key(a.id@),
    ensures
        agents.insert(a.id@, a).contains_key(a.id@),
        agents.insert(a.id@, a)[a.id@] == a,
        agents.insert(a.id@, a).remove(a.id@) == agents,
{
    assert(agents.insert(a.id@, a).remove(a.id@) =~= agents);
}

/// Assigning a task and then taking it back leaves the task unassigned and the agent
/// without a task, all their other fields as they were.
pub proof fn law_assign_then_unassign(t0: Task, a0: Agent, t1: Task, a1: Agent)
    requires
        t1 == (Task { assigned_agent: t1.assigned_agent, ..t0 }),
        t1.assigned_agent is Some,
        a1 == (Agent { current_task: a1.current_task, ..a0 }),
    ensures
        (Task { assigned_agent: None, ..t1 }) == (Task { assigned_agent: None, ..t0 }),
        (Agent { current_task: None, ..a1 }) == (Agent { current_task: None, ..a0 }),
{
}

} // verus!
