//! The figures the dashboard page summarises: connections from the server's metrics,
//! agents and tasks counted by status, and the LLM servers and models known. Of the
//! average response time, a fractional figure, the window divides the total given
//! here by the count given here.

use crate::models::agent::{ModelAgentStatus, TaskStatus};
use vstd::prelude::*;

verus! {

/// When a task was made and, if set, its deadline, with its status.
#[derive(Debug, Clone, Copy)]
pub struct TaskTiming {
    pub status: TaskStatus,
    pub created_at_ms: i64,
    pub deadline_ms: Option<i64>,
}

/// The figures of the dashboard page. Times are in milliseconds.
#[derive(Debug)]
pub struct DashboardMetrics {
    pub total_connections: u64,
    pub active_connections: u64,
    pub failed_connections: u64,
    pub server_uptime_ms: u64,
    pub server_last_error: Option<String>,
    pub total_agents: usize,
    pub active_agents: usize,
    pub total_tasks_completed: u64,
    pub total_tasks_failed: u64,
    pub tasks_pending: usize,
    pub tasks_in_progress: usize,
    pub tasks_completed: usize,
    pub tasks_failed: usize,
    /// The milliseconds from creation to deadline, added over the completed tasks that
    /// have a deadline.
    pub response_time_total_ms: i128,
    /// The number of completed tasks that have a deadline.
    pub timed_tasks: usize,
    pub connected_llm_servers: usize,
    pub available_models: usize,
    pub last_update_ms: i64,
}

/// The number of tasks of `t` with status `s`.
pub open spec fn with_status(t: Seq<TaskTiming>, s: TaskStatus) -> nat {
    t.filter(|x: TaskTiming| x.status == s).len()
}

/// The number of agents of `a` that are active.
pub open spec fn active_count(a: Seq<ModelAgentStatus>) -> nat {
    a.filter(|x: ModelAgentStatus| x == ModelAgentStatus::Active).len()
}

/// Whether a task counts towards the average response time: it is completed and has
/// a deadline.
pub open spec fn is_timed(t: TaskTiming) -> bool {
    t.status == TaskStatus::Completed && t.deadline_ms is Some
}

/// The milliseconds from creation to deadline, added over the timed tasks of `t`.
pub open spec fn response_total(t: Seq<TaskTiming>) -> int
    decreases t.len(),
{
    if t.len() == 0 {
        0
    } else {
        response_total(t.drop_last()) + if is_timed(t.last()) {
            t.last().deadline_ms.unwrap() - t.last().created_at_ms
        } else {
            0
        }
    }
}

/// The number of timed tasks of `t`.
pub open spec fn timed_count(t: Seq<TaskTiming>) -> nat {
    t.filter(|x: TaskTiming| is_timed(x)).len()
}

fn response_figures(tasks: &Vec<TaskTiming>) -> (r: (i128, usize))
    requires
        tasks@.len() <= i64::MAX,
    ensures
        r.0 == response_total(tasks@),
        r.1 == timed_count(tasks@),
{
    let mut total: i128 = 0;
    let mut n: usize = 0;
    let mut i: usize = 0;
    while i < tasks.len()
        invariant
            i <= tasks@.len(),
            tasks@.len() <= i64::MAX,
            total == response_total(tasks@.take(i as int)),
            -(i as int) * 0x1_0000_0000_0000_0000 <= total <= (i as int) * 0x1_0000_0000_0000_0000,
            n == tasks@.take(i as int).filter(|x: TaskTiming| is_timed(x)).len(),
            n <= i,
        decreases tasks@.len() - i,
    {
        proof {
            assert(tasks@.take(i as int + 1).drop_last() =~= tasks@.take(i as int));
            reveal_with_fuel(Seq::filter, 1);
        }
        let t = tasks[i];
        if t.status == TaskStatus::Completed {
            if let Some(d) = t.deadline_ms {
                total = total + (d as i128 - t.created_at_ms as i128);
                n = n + 1;
            }
        }
        i = i + 1;
    }
    assert(tasks@.take(tasks@.len() as int) =~= tasks@);
    (total, n)
}

fn count_tasks(tasks: &Vec<TaskTiming>, s: TaskStatus) -> (n: usize)
    ensures
        n == with_status(tasks@, s),
{
    let mut n: usize = 0;
    let mut i: usize = 0;
    while i < tasks.len()
        invariant
            i <= tasks@.len(),
            n == tasks@.take(i as int).filter(|x: TaskTiming| x.status == s).len(),
            n <= i,
        decreases tasks@.len() - i,
    {
        proof {
            assert(tasks@.take(i as int + 1).drop_last() =~= tasks@.take(i as int));
            reveal_with_fuel(Seq::filter, 1);
        }
        if tasks[i].status == s {
            n = n + 1;
        }
        i = i + 1;
    }
    assert(tasks@.take(tasks@.len() as int) =~= tasks@);
    n
}

fn count_active(agents: &Vec<ModelAgentStatus>) -> (n: usize)
    ensures
        n == active_count(agents@),
{
    let mut n: usize = 0;
    let mut i: usize = 0;
    while i < agents.len()
        invariant
            i <= agents@.len(),
            n == agents@.take(i as int).filter(|x: ModelAgentStatus| x == ModelAgentStatus::Active).len(),
            n <= i,
        decreases agents@.len() - i,
    {
        proof {
            assert(agents@.take(i as int + 1).drop_last() =~= agents@.take(i as int));
            reveal_with_fuel(Seq::filter, 1);
        }
        if agents[i] == ModelAgentStatus::Active {
            n = n + 1;
        }
        i = i + 1;
    }
    assert(agents@.take(agents@.len() as int) =~= agents@);
    n
}

impl DashboardMetrics {
    /// The figures from the agents' statuses, the server's metrics, the number of LLM
    /// servers and of models, and the tasks, taken at `now_ms`.
    pub fn from_state(
        agents: &Vec<ModelAgentStatus>,
        server_metrics: &crate::server::ServerMetrics,
        llm_servers: usize,
        available_models: usize,
        tasks: &Vec<TaskTiming>,
        now_ms: i64,
    ) -> (m: DashboardMetrics)
        requires
            tasks@.len() <= i64::MAX,
        ensures
            m.total_connections == server_metrics.total_connections,
            m.active_connections == server_metrics.active_connections,
            m.failed_connections == server_metrics.failed_connections,
            m.server_uptime_ms == server_metrics.uptime_ms,
            m.server_last_error == server_metrics.last_error,
            m.total_agents == agents@.len(),
            m.active_agents == active_count(agents@),
            m.total_tasks_completed == with_status(tasks@, TaskStatus::Completed),
            m.total_tasks_failed == with_status(tasks@, TaskStatus::Failed),
            m.tasks_pending == with_status(tasks@, TaskStatus::Pending),
            m.tasks_in_progress == with_status(tasks@, TaskStatus::InProgress),
            m.tasks_completed == with_status(tasks@, TaskStatus::Completed),
            m.tasks_failed == with_status(tasks@, TaskStatus::Failed),
            m.response_time_total_ms == response_total(tasks@),
            m.timed_tasks == timed_count(tasks@),
            m.connected_llm_servers == llm_servers,
            m.available_models == available_models,
            m.last_update_ms == now_ms,
    {
        let (response_time_total_ms, timed_tasks) = response_figures(tasks);
        let completed = count_tasks(tasks, TaskStatus::Completed);
        let failed = count_tasks(tasks, TaskStatus::Failed);
        let last_error = match &server_metrics.last_error {
            Some(e) => Some(e.clone()),
            None => None,
        };
        DashboardMetrics {
            total_connections: server_metrics.total_connections,
            active_connections: server_metrics.active_connections as u64,
            failed_connections: server_metrics.failed_connections,
            server_uptime_ms: server_metrics.uptime_ms,
            server_last_error: last_error,
            total_agents: agents.len(),
            active_agents: count_active(agents),
            total_tasks_completed: completed as u64,
            total_tasks_failed: failed as u64,
            tasks_pending: count_tasks(tasks, TaskStatus::Pending),
            tasks_in_progress: count_tasks(tasks, TaskStatus::InProgress),
            tasks_completed: completed,
            tasks_failed: failed,
            response_time_total_ms,
            timed_tasks,
            connected_llm_servers: llm_servers,
            available_models,
            last_update_ms: now_ms,
        }
    }
}

} // verus!
