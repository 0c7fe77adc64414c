//! Running a workflow: its steps go in passes over the list, each step once all the
//! steps it depends on have completed, until every step has run or a whole pass runs
//! none. Running a step (a model call under a timeout) is the caller's part: it asks
//! [`WorkflowRun::next_step`] what to run and reports each outcome back. Also the
//! prompts sent for an agent's actions.

use crate::error::NexaError;
use crate::gui::dashboard::RetryPolicy;
use crate::text::{owned, parse_unsigned, push_decimal, push_str, decimal, unsigned_value};
use vstd::prelude::*;

verus! {

/// What an agent is asked to do in a workflow step. The parameters of a custom task
/// are kept as JSON text.
#[derive(Debug, Clone)]
pub enum AgentAction {
    ProcessText { input: String, max_tokens: usize },
    GenerateCode { prompt: String, language: String },
    AnalyzeCode { code: String, aspects: Vec<String> },
    CustomTask { task_type: String, parameters: String },
}

/// One step of a workflow: the agent that runs it, what it does, the steps it waits
/// for (by number), and how long and how often it may try.
#[derive(Debug, Clone)]
pub struct WorkflowStep {
    pub agent_id: String,
    pub action: AgentAction,
    pub dependencies: Vec<String>,
    pub timeout_seconds: Option<u64>,
    pub retry_policy: Option<RetryPolicy>,
}

/// Where a workflow stands.
#[derive(Debug, Clone, Copy, PartialEq, Eq, Structural)]
pub enum WorkflowStatus {
    Ready,
    Running,
    Completed,
    Failed,
}

/// How long a step may run when it names no timeout, in seconds.
pub const DEFAULT_STEP_TIMEOUT_SECS: u64 = 60;

impl WorkflowStep {
    /// The step the command line makes of one step text: the default agent processes
    /// the text with up to 1000 tokens, waits for nothing, may run 60 seconds and
    /// retries as [`RetryPolicy::default`] says.
    pub fn from_text(input: String) -> (s: WorkflowStep)
        ensures
            s.agent_id@ == "default"@,
            s.action == (AgentAction::ProcessText { input, max_tokens: 1000 }),
            s.dependencies@.len() == 0,
            s.timeout_seconds == Some(60u64),
            s.retry_policy matches Some(p) && p.max_retries == 3 && p.backoff_ms == 1000
                && p.max_backoff_ms == 10000,
    {
        WorkflowStep {
            agent_id: owned("default"),
            action: AgentAction::ProcessText { input, max_tokens: 1000 },
            dependencies: Vec::new(),
            timeout_seconds: Some(60),
            retry_policy: Some(RetryPolicy::default()),
        }
    }

    /// The time the step may run, in seconds.
    pub fn timeout(&self) -> (t: u64)
        ensures
            t == match self.timeout_seconds {
                Some(x) => x,
                None => DEFAULT_STEP_TIMEOUT_SECS,
            },
    {
        match self.timeout_seconds {
            Some(x) => x,
            None => DEFAULT_STEP_TIMEOUT_SECS,
        }
    }
}

/// What an action asks of the model: `Some` prompt for the three model actions, `None`
/// for a custom task, which is answered without a model.
pub open spec fn action_prompt_text(a: AgentAction) -> Option<Seq<char>> {
    match a {
        AgentAction::ProcessText { input, .. } => Some(input@),
        AgentAction::GenerateCode { prompt, language } => Some(
            code_generation_prompt_text(language@, prompt@),
        ),
        AgentAction::AnalyzeCode { code, aspects } => Some(
            code_analysis_prompt_text(texts(aspects@), code@),
        ),
        AgentAction::CustomTask { .. } => None,
    }
}

/// The prompt an action sends to the model, as [`action_prompt_text`] gives it; for a
/// custom task, its report instead (`Err`), which needs no model.
pub fn action_prompt(a: &AgentAction) -> (r: Result<String, String>)
    ensures
        r matches Ok(p) ==> action_prompt_text(*a) == Some(p@),
        r is Err <==> action_prompt_text(*a) is None,
        r matches Err(t) ==> (a matches AgentAction::CustomTask { task_type, parameters } && t@
            == custom_task_report_text(task_type@, parameters@)),
{
    match a {
        AgentAction::ProcessText { input, .. } => Ok(input.clone()),
        AgentAction::GenerateCode { prompt, language } => Ok(
            code_generation_prompt(language.as_str(), prompt.as_str()),
        ),
        AgentAction::AnalyzeCode { code, aspects } => Ok(code_analysis_prompt(aspects, code.as_str())),
        AgentAction::CustomTask { task_type, parameters } => Err(
            custom_task_report(task_type.as_str(), parameters.as_str()),
        ),
    }
}

/// The dependencies of each step, in step order, as [`WorkflowRun::next_step`] takes
/// them.
pub fn step_dependencies(steps: &Vec<WorkflowStep>) -> (d: Vec<Vec<String>>)
    ensures
        d@.len() == steps@.len(),
        forall|i: int| 0 <= i < d@.len() ==> #[trigger] d@[i]@ == steps@[i].dependencies@,
{
    let mut d: Vec<Vec<String>> = Vec::new();
    let mut i: usize = 0;
    while i < steps.len()
        invariant
            i <= steps@.len(),
            d@.len() == i,
            forall|k: int| 0 <= k < i ==> #[trigger] d@[k]@ == steps@[k].dependencies@,
        decreases steps@.len() - i,
    {
        let mut deps: Vec<String> = Vec::new();
        let src = &steps[i].dependencies;
        let mut j: usize = 0;
        while j < src.len()
            invariant
                j <= src@.len(),
                deps@ == src@.take(j as int),
            decreases src@.len() - j,
        {
            deps.push(src[j].clone());
            proof {
                assert(src@.take(j as int + 1) =~= src@.take(j as int).push(src@[j as int]));
            }
            j = j + 1;
        }
        assert(src@.take(src@.len() as int) =~= src@);
        d.push(deps);
        i = i + 1;
    }
    d
}

/// The step that a dependency written `d` names: its number, or step 0 where `d` is
/// not a number.
pub open spec fn dep_index(d: Seq<char>) -> int {
    match unsigned_value(d, usize::MAX as nat) {
        Some(v) => v as int,
        None => 0,
    }
}

/// Whether every dependency of step `i` names a step that has completed.
pub open spec fn deps_met(deps: Seq<Vec<String>>, done: Seq<bool>, i: int) -> bool {
    forall|k: int|
        0 <= k < deps[i]@.len() ==> {
            let d = #[trigger] dep_index(deps[i]@[k]@);
            0 <= d < done.len() && done[d]
        }
}

/// Whether step `i` can run now: it has not completed and its dependencies have.
pub open spec fn runnable(deps: Seq<Vec<String>>, done: Seq<bool>, i: int) -> bool {
    0 <= i < done.len() && !done[i] && deps_met(deps, done, i)
}

/// Whether no step in `lo..hi` can run now.
pub open spec fn none_runnable(deps: Seq<Vec<String>>, done: Seq<bool>, lo: int, hi: int) -> bool {
    forall|j: int| lo <= j < hi ==> !#[trigger] runnable(deps, done, j)
}

/// Whether every step has completed.
pub open spec fn all_done(done: Seq<bool>) -> bool {
    forall|j: int| 0 <= j < done.len() ==> #[trigger] done[j]
}

/// What to do next in a workflow run.
#[derive(Debug, Clone, Copy, PartialEq, Eq, Structural)]
pub enum StepDecision {
    /// Run the step at this position.
    Run(usize),
    /// Every step has completed.
    Finished,
    /// Steps remain, and none of them can ever run: their dependencies form a cycle
    /// or name steps that do not complete.
    Deadlocked,
}

/// A workflow run in progress: which steps have completed, where the current pass
/// stands, and whether it has run a step yet.
#[derive(Debug, Clone)]
pub struct WorkflowRun {
    pub completed: Vec<bool>,
    pub position: usize,
    pub executed_any: bool,
}

impl WorkflowRun {
    /// The run is one over the steps with dependencies `deps`; before the current
    /// position, a pass that has run nothing has passed over steps that cannot run.
    pub open spec fn wf(&self, deps: Seq<Vec<String>>) -> bool {
        &&& self.completed@.len() == deps.len()
        &&& self.position <= deps.len()
        &&& !self.executed_any ==> none_runnable(deps, self.completed@, 0, self.position as int)
    }

    /// A run over `n` steps, none of them completed.
    pub fn new(n: usize) -> (r: WorkflowRun)
        ensures
            r.completed@ == Seq::new(n as nat, |j: int| false),
            r.position == 0,
            !r.executed_any,
    {
        let mut completed: Vec<bool> = Vec::new();
        let mut j: usize = 0;
        while j < n
            invariant
                j <= n,
                completed@ == Seq::new(j as nat, |x: int| false),
            decreases n - j,
        {
            completed.push(false);
            j = j + 1;
        }
        WorkflowRun { completed, position: 0, executed_any: false }
    }

    fn deps_met_at(&self, deps: &Vec<Vec<String>>, i: usize) -> (r: bool)
        requires
            self.completed@.len() == deps@.len(),
            i < deps@.len(),
        ensures
            r == deps_met(deps@, self.completed@, i as int),
    {
        let ds = &deps[i];
        let mut k: usize = 0;
        while k < ds.len()
            invariant
                self.completed@.len() == deps@.len(),
                i < deps@.len(),
                ds == deps@[i as int],
                k <= ds@.len(),
                forall|m: int|
                    0 <= m < k ==> {
                        let d = #[trigger] dep_index(ds@[m]@);
                        0 <= d < self.completed@.len() && self.completed@[d]
                    },
            decreases ds@.len() - k,
        {
            let d: usize = match parse_unsigned(ds[k].as_str(), usize::MAX as u64) {
                Some(v) => v as usize,
                None => 0,
            };
            assert(d == dep_index(ds@[k as int]@));
            if d >= self.completed.len() || !self.completed[d] {
                return false;
            }
            k = k + 1;
        }
        true
    }

    fn all_completed(&self) -> (r: bool)
        ensures
            r == all_done(self.completed@),
    {
        let mut j: usize = 0;
        while j < self.completed.len()
            invariant
                j <= self.completed@.len(),
                forall|m: int| 0 <= m < j ==> #[trigger] self.completed@[m],
            decreases self.completed@.len() - j,
        {
            if !self.completed[j] {
                return false;
            }
            j = j + 1;
        }
        true
    }

    /// The first step at or after `from` that can run, or the number of steps.
    fn scan(&self, deps: &Vec<Vec<String>>, from: usize) -> (r: usize)
        requires
            self.completed@.len() == deps@.len(),
            from <= deps@.len(),
        ensures
            from <= r <= deps@.len(),
            none_runnable(deps@, self.completed@, from as int, r as int),
            r < deps@.len() ==> runnable(deps@, self.completed@, r as int),
    {
        let mut i = from;
        while i < deps.len()
            invariant
                self.completed@.len() == deps@.len(),
                from <= i <= deps@.len(),
                none_runnable(deps@, self.completed@, from as int, i as int),
            decreases deps@.len() - i,
        {
            if !self.completed[i] && self.deps_met_at(deps, i) {
                return i;
            }
            i = i + 1;
        }
        i
    }

    /// What to do next: the next step that can run, in pass order, or the end of the
    /// run. The pass stays at the step handed out until its outcome is recorded. A pass goes over the steps from the first to the last; a pass that ran a
    /// step is followed by another from the first step, and a pass that ran none ends
    /// the run.
    pub fn next_step(&mut self, deps: &Vec<Vec<String>>) -> (d: StepDecision)
        requires
            old(self).wf(deps@),
        ensures
            final(self).wf(deps@),
            final(self).completed@ == old(self).completed@,
            (d == StepDecision::Finished) == all_done(old(self).completed@),
            (d == StepDecision::Deadlocked) == (!all_done(old(self).completed@)
                && none_runnable(deps@, old(self).completed@, 0, deps@.len() as int)),
            d matches StepDecision::Run(i) ==> {
                &&& runnable(deps@, old(self).completed@, i as int)
                &&& final(self).position == i
                &&& if old(self).position <= i {
                    &&& none_runnable(deps@, old(self).completed@, old(self).position as int, i as int)
                    &&& final(self).executed_any == old(self).executed_any
                } else {
                    &&& none_runnable(deps@, old(self).completed@, old(self).position as int, deps@.len() as int)
                    &&& none_runnable(deps@, old(self).completed@, 0, i as int)
                    &&& !final(self).executed_any
                }
            },
            d == StepDecision::Finished ==> *final(self) == *old(self),
    {
        let ghost done = self.completed@;
        if self.all_completed() {
            return StepDecision::Finished;
        }
        let n = deps.len();
        let i = self.scan(deps, self.position);
        if i < n {
            self.position = i;
            return StepDecision::Run(i);
        }
        if self.executed_any {
            let j = self.scan(deps, 0);
            self.executed_any = false;
            if j < n {
                self.position = j;
                return StepDecision::Run(j);
            }
            self.position = n;
            StepDecision::Deadlocked
        } else {
            assert(none_runnable(deps@, done, 0, n as int)) by {
                assert forall|j: int| 0 <= j < n implies !#[trigger] runnable(deps@, done, j) by {
                    if j < old(self).position {
                    } else {
                    }
                }
            }
            self.position = n;
            StepDecision::Deadlocked
        }
    }

    /// Records that step `i` has run to completion.
    pub fn step_succeeded(&mut self, i: usize)
        requires
            i < old(self).completed@.len(),
        ensures
            final(self).completed@ == old(self).completed@.update(i as int, true),
            final(self).position == old(self).position,
            final(self).executed_any,
            forall|deps: Seq<Vec<String>>| #[trigger] old(self).wf(deps) ==> final(self).wf(deps),
    {
        self.completed.set(i, true);
        self.executed_any = true;
    }
}

/// Whether `order` ranks the steps so that every dependency names an existing step of
/// lower rank: the dependencies form no cycle and name no missing step.
pub open spec fn ordered_by(deps: Seq<Vec<String>>, order: Seq<nat>) -> bool {
    &&& order.len() == deps.len()
    &&& forall|i: int, k: int|
        0 <= i < deps.len() && 0 <= k < deps[i]@.len() ==> {
            let d = #[trigger] dep_index(deps[i]@[k]@);
            0 <= d < deps.len() && order[d] < order[i]
        }
}

proof fn lemma_runnable_below(deps: Seq<Vec<String>>, order: Seq<nat>, done: Seq<bool>, i: int, b: nat)
    requires
        ordered_by(deps, order),
        done.len() == deps.len(),
        0 <= i < deps.len(),
        !done[i],
        order[i] <= b,
    ensures
        exists|j: int| #[trigger] runnable(deps, done, j),
    decreases b,
{
    if deps_met(deps, done, i) {
        assert(runnable(deps, done, i));
    } else {
        let k = choose|k: int|
            0 <= k < deps[i]@.len() && !({
                let d = #[trigger] dep_index(deps[i]@[k]@);
                0 <= d < done.len() && done[d]
            });
        let d = dep_index(deps[i]@[k]@);
        assert(0 <= d < deps.len() && order[d] < order[i]);
        lemma_runnable_below(deps, order, done, d, (b - 1) as nat);
    }
}

/// Where the dependencies are ordered (no cycle, no missing step), a run that has not
/// finished always has a step that can run: it never ends deadlocked, and since each
/// step runs at most once and only after its dependencies, it completes every step.
pub proof fn law_ordered_never_deadlocks(deps: Seq<Vec<String>>, order: Seq<nat>, done: Seq<bool>)
    requires
        ordered_by(deps, order),
        done.len() == deps.len(),
        !all_done(done),
    ensures
        !none_runnable(deps, done, 0, deps.len() as int),
{
    let i = choose|i: int| 0 <= i < done.len() && !#[trigger] done[i];
    lemma_runnable_below(deps, order, done, i, order[i]);
    let j = choose|j: int| #[trigger] runnable(deps, done, j);
    assert(0 <= j < deps.len());
}

/// Steps caught in a cycle, or behind one, never run: when every step of a set waits
/// for some step of the same set, none of them can run while all of them are
/// unfinished, so a run that has not finished one of them never will.
pub proof fn law_cycle_never_runs(deps: Seq<Vec<String>>, done: Seq<bool>, cycle: Set<int>)
    requires
        done.len() == deps.len(),
        forall|c: int| #[trigger] cycle.contains(c) ==> 0 <= c < deps.len() && !done[c],
        forall|c: int|
            #[trigger] cycle.contains(c) ==> exists|k: int|
                0 <= k < deps[c]@.len() && cycle.contains(#[trigger] dep_index(deps[c]@[k]@)),
    ensures
        forall|c: int| #[trigger] cycle.contains(c) ==> !runnable(deps, done, c),
{
    assert forall|c: int| #[trigger] cycle.contains(c) implies !runnable(deps, done, c) by {
        let k = choose|k: int| 0 <= k < deps[c]@.len() && cycle.contains(#[trigger] dep_index(deps[c]@[k]@));
        let d = dep_index(deps[c]@[k]@);
        assert(!done[d]);
    }
}

/// Which of `n` steps have completed once the steps in `runs` have run.
pub open spec fn completed_by(n: nat, runs: Seq<int>) -> Seq<bool> {
    Seq::new(n, |j: int| runs.contains(j))
}

/// Whether `runs` is a run from the start as [`WorkflowRun::next_step`] hands steps
/// out: each step in it could run once the ones before it had completed.
pub open spec fn valid_run(deps: Seq<Vec<String>>, runs: Seq<int>) -> bool {
    forall|k: int|
        0 <= k < runs.len() ==> #[trigger] runnable(deps, completed_by(deps.len(), runs.take(k)), runs[k])
}

/// Whether every step of `cycle` waits for a step of `cycle`.
pub open spec fn closed_cycle(deps: Seq<Vec<String>>, cycle: Set<int>) -> bool {
    forall|c: int|
        #[trigger] cycle.contains(c) ==> 0 <= c < deps.len() && exists|k: int|
            0 <= k < deps[c]@.len() && cycle.contains(#[trigger] dep_index(deps[c]@[k]@))
}

/// Whether the `m`-th dependency of the `k`-th step run names a step run before it.
pub open spec fn depends_earlier(deps: Seq<Vec<String>>, runs: Seq<int>, k: int, m: int) -> bool {
    exists|a: int| 0 <= a < k && #[trigger] runs[a] == dep_index(deps[runs[k]]@[m]@)
}

/// A run from the start, as [`WorkflowRun::new`] and [`WorkflowRun::step_succeeded`]
/// record it, runs each step at most once, and each only after every step it
/// depends on has run; so it ends after at most as many steps as there are.
pub proof fn law_run_from_start(deps: Seq<Vec<String>>, runs: Seq<int>)
    requires
        valid_run(deps, runs),
    ensures
        completed_by(deps.len(), runs.take(0)) == Seq::new(deps.len(), |j: int| false),
        forall|k: int|
            0 <= k < runs.len() ==> completed_by(deps.len(), #[trigger] runs.take(k + 1))
                == completed_by(deps.len(), runs.take(k)).update(runs[k], true),
        runs.no_duplicates(),
        forall|k: int| 0 <= k < runs.len() ==> 0 <= #[trigger] runs[k] < deps.len(),
        forall|k: int, m: int|
            0 <= k < runs.len() && 0 <= m < deps[runs[k]]@.len() ==> #[trigger] depends_earlier(
                deps,
                runs,
                k,
                m,
            ),
        runs.len() <= deps.len(),
{
    let n = deps.len();
    assert(completed_by(n, runs.take(0)) =~= Seq::new(n, |j: int| false));
    assert forall|k: int| 0 <= k < runs.len() implies 0 <= #[trigger] runs[k] < n by {
        assert(runnable(deps, completed_by(n, runs.take(k)), runs[k]));
    }
    assert forall|k: int|
        0 <= k < runs.len() implies completed_by(n, #[trigger] runs.take(k + 1))
            == completed_by(n, runs.take(k)).update(runs[k], true) by {
        let p = runs.take(k);
        let q = runs.take(k + 1);
        assert(q =~= p.push(runs[k]));
        assert forall|j: int| 0 <= j < n implies q.contains(j) == (p.contains(j) || j == runs[k]) by {
            if p.contains(j) {
                let a = choose|a: int| 0 <= a < p.len() && p[a] == j;
                assert(q[a] == j);
            }
            if j == runs[k] {
                assert(q[k] == j);
            }
            if q.contains(j) && j != runs[k] {
                let a = choose|a: int| 0 <= a < q.len() && q[a] == j;
                assert(a < k);
                assert(p[a] == j);
            }
        }
        assert(completed_by(n, q) =~= completed_by(n, p).update(runs[k], true));
    }
    assert forall|a: int, b: int| 0 <= a < b < runs.len() implies runs[a] != runs[b] by {
        assert(runnable(deps, completed_by(n, runs.take(b)), runs[b]));
        assert(runs.take(b)[a] == runs[a]);
    }
    assert forall|k: int, m: int|
        0 <= k < runs.len() && 0 <= m < deps[runs[k]]@.len() implies #[trigger] depends_earlier(
            deps,
            runs,
            k,
            m,
        ) by {
        let done = completed_by(n, runs.take(k));
        assert(runnable(deps, done, runs[k]));
        let d = dep_index(deps[runs[k]]@[m]@);
        assert(done[d]);
        let a = choose|a: int| 0 <= a < runs.take(k).len() && runs.take(k)[a] == d;
        assert(runs[a] == d);
    }
    runs.unique_seq_to_set();
    vstd::set_lib::lemma_int_range(0, n as int);
    vstd::set_lib::lemma_len_subset(runs.to_set(), vstd::set_lib::set_int_range(0, n as int));
}

/// Where the dependencies are ordered (no cycle, no missing step), a run from the
/// start that stops only when no step can run has completed every step exactly once:
/// it ends finished, never deadlocked.
pub proof fn law_ordered_run_completes(deps: Seq<Vec<String>>, order: Seq<nat>, runs: Seq<int>)
    requires
        ordered_by(deps, order),
        valid_run(deps, runs),
        none_runnable(deps, completed_by(deps.len(), runs), 0, deps.len() as int),
    ensures
        all_done(completed_by(deps.len(), runs)),
        runs.len() == deps.len(),
        forall|j: int| 0 <= j < deps.len() ==> #[trigger] runs.contains(j),
{
    let n = deps.len();
    let done = completed_by(n, runs);
    if !all_done(done) {
        law_ordered_never_deadlocks(deps, order, done);
    }
    assert forall|j: int| 0 <= j < n implies #[trigger] runs.contains(j) by {
        assert(done[j]);
    }
    law_run_from_start(deps, runs);
    runs.unique_seq_to_set();
    vstd::set_lib::lemma_int_range(0, n as int);
    assert(runs.to_set() =~= vstd::set_lib::set_int_range(0, n as int));
}

/// A run from the start never runs a step that waits, directly or through others, on
/// a cycle: where every step of a set waits for a step of the same set, no step of
/// the set is ever run, so the run cannot finish and, once no step can run, ends
/// deadlocked.
pub proof fn law_cycle_run_deadlocks(deps: Seq<Vec<String>>, runs: Seq<int>, cycle: Set<int>)
    requires
        valid_run(deps, runs),
        closed_cycle(deps, cycle),
    ensures
        forall|k: int| 0 <= k < runs.len() ==> !cycle.contains(#[trigger] runs[k]),
        forall|c: int| cycle.contains(c) ==> !(#[trigger] runs.contains(c)),
        !cycle.is_empty() ==> !all_done(completed_by(deps.len(), runs)),
{
    let n = deps.len();
    assert forall|k: int| 0 <= k < runs.len() implies !cycle.contains(#[trigger] runs[k]) by {
        lemma_cycle_prefix(deps, runs, cycle, k);
    }
    assert forall|c: int| cycle.contains(c) implies !(#[trigger] runs.contains(c)) by {
        if runs.contains(c) {
            let k = choose|k: int| 0 <= k < runs.len() && runs[k] == c;
            assert(!cycle.contains(runs[k]));
        }
    }
    if !cycle.is_empty() {
        let c = cycle.choose();
        assert(cycle.contains(c));
        assert(!completed_by(n, runs)[c]);
    }
}

proof fn lemma_cycle_prefix(deps: Seq<Vec<String>>, runs: Seq<int>, cycle: Set<int>, k: int)
    requires
        valid_run(deps, runs),
        closed_cycle(deps, cycle),
        0 <= k < runs.len(),
    ensures
        !cycle.contains(runs[k]),
    decreases k,
{
    let n = deps.len();
    let done = completed_by(n, runs.take(k));
    assert forall|c: int| #[trigger] cycle.contains(c) implies 0 <= c < n && !done[c] by {
        if done[c] {
            let a = choose|a: int| 0 <= a < runs.take(k).len() && runs.take(k)[a] == c;
            lemma_cycle_prefix(deps, runs, cycle, a);
        }
    }
    law_cycle_never_runs(deps, done, cycle);
    assert(runnable(deps, done, runs[k]));
}

/// The error a run ends with when step `index` fails with the message `err`.
pub open spec fn step_failure_text(index: nat, err: Seq<char>) -> Seq<char> {
    "Step "@ + decimal(index) + " failed: "@ + err
}

/// The error a run ends with when step `index` fails with the message `err`.
pub fn step_failure(index: usize, err: &str) -> (e: NexaError)
    ensures
        e matches NexaError::System(m) && m@ == step_failure_text(index as nat, err@),
{
    let mut m = owned("Step ");
    push_decimal(&mut m, index as u64);
    push_str(&mut m, " failed: ");
    push_str(&mut m, err);
    NexaError::System(m)
}

/// The error a run ends with when a pass runs no step and steps remain.
pub fn deadlock_error() -> (e: NexaError)
    ensures
        e matches NexaError::System(m) && m@ == "Workflow deadlocked - circular dependencies detected"@,
{
    NexaError::System(owned("Workflow deadlocked - circular dependencies detected"))
}

/// `parts` written one after another with `sep` between each two.
pub open spec fn joined(parts: Seq<Seq<char>>, sep: Seq<char>) -> Seq<char>
    decreases parts.len(),
{
    if parts.len() == 0 {
        Seq::empty()
    } else if parts.len() == 1 {
        parts[0]
    } else {
        joined(parts.drop_last(), sep) + sep + parts.last()
    }
}

/// The texts of `v`, each by its view.
pub open spec fn texts(v: Seq<String>) -> Seq<Seq<char>> {
    v.map_values(|s: String| s@)
}

/// Appends the strings of `parts` with `sep` between each two.
pub fn push_joined(s: &mut String, parts: &Vec<String>, sep: &str)
    ensures
        final(s)@ == old(s)@ + joined(texts(parts@), sep@),
{
    let ghost start = s@;
    let mut i: usize = 0;
    while i < parts.len()
        invariant
            i <= parts@.len(),
            s@ == start + joined(texts(parts@.take(i as int)), sep@),
        decreases parts@.len() - i,
    {
        let ghost before = parts@.take(i as int);
        if i > 0 {
            push_str(s, sep);
        }
        push_str(s, parts[i].as_str());
        proof {
            let after = parts@.take(i + 1);
            assert(texts(after).drop_last() =~= texts(before));
            assert(texts(after).last() == parts@[i as int]@);
            if i == 0 {
                assert(texts(before) =~= Seq::<Seq<char>>::empty());
            }
        }
        i = i + 1;
    }
    assert(parts@.take(parts@.len() as int) =~= parts@);
}

/// The prompt that tests an agent with the given capabilities.
pub open spec fn capability_test_prompt_text(capabilities: Seq<Seq<char>>) -> Seq<char> {
    "Respond with 'OK' and list your capabilities: "@ + joined(capabilities, ", "@)
}

/// The prompt that tests an agent with the given capabilities.
pub fn capability_test_prompt(capabilities: &Vec<String>) -> (r: String)
    ensures
        r@ == capability_test_prompt_text(texts(capabilities@)),
{
    let mut r = owned("Respond with 'OK' and list your capabilities: ");
    push_joined(&mut r, capabilities, ", ");
    r
}

/// The prompt of an action that generates code in `language` for `prompt`.
pub open spec fn code_generation_prompt_text(language: Seq<char>, prompt: Seq<char>) -> Seq<char> {
    "Generate "@ + language + " code for: "@ + prompt
}

/// The prompt of an action that generates code in `language` for `prompt`.
pub fn code_generation_prompt(language: &str, prompt: &str) -> (r: String)
    ensures
        r@ == code_generation_prompt_text(language@, prompt@),
{
    let mut r = owned("Generate ");
    push_str(&mut r, language);
    push_str(&mut r, " code for: ");
    push_str(&mut r, prompt);
    r
}

/// The prompt of an action that analyses `code` for the given aspects.
pub open spec fn code_analysis_prompt_text(aspects: Seq<Seq<char>>, code: Seq<char>) -> Seq<char> {
    "Analyze this code focusing on these aspects: "@ + joined(aspects, ", "@) + "\n\nCode:\n"@ + code
}

/// The prompt of an action that analyses `code` for the given aspects.
pub fn code_analysis_prompt(aspects: &Vec<String>, code: &str) -> (r: String)
    ensures
        r@ == code_analysis_prompt_text(texts(aspects@), code@),
{
    let mut r = owned("Analyze this code focusing on these aspects: ");
    push_joined(&mut r, aspects, ", ");
    push_str(&mut r, "\n\nCode:\n");
    push_str(&mut r, code);
    r
}

/// What a custom task of type `task_type` reports, its parameters written as
/// `parameters`.
pub open spec fn custom_task_report_text(task_type: Seq<char>, parameters: Seq<char>) -> Seq<char> {
    "Executed custom task '"@ + task_type + "' with parameters: "@ + parameters
}

/// What a custom task of type `task_type` reports, its parameters written as
/// `parameters`.
pub fn custom_task_report(task_type: &str, parameters: &str) -> (r: String)
    ensures
        r@ == custom_task_report_text(task_type@, parameters@),
{
    let mut r = owned("Executed custom task '");
    push_str(&mut r, task_type);
    push_str(&mut r, "' with parameters: ");
    push_str(&mut r, parameters);
    r
}

} // verus!
