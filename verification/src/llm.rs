//! Talking to local LLM servers: where requests go, how failed responses are
//! reported, how a completion is read from a reply, the prompts sent for function
//! calls and reasoning, and the helper that turns requests into tasks. The HTTP
//! exchange itself is done by the caller, which hands the status and bodies in.

use crate::error::NexaError;
use crate::mcp::registry::Task;
use crate::text::{chars_of, decimal, lowercase, owned, push_decimal, push_str, str_eq, to_lowercase, trim, trimmed};
use vstd::prelude::*;

verus! {

/// The kind of LLM server.
#[derive(Debug, Clone, Copy, PartialEq, Eq, Structural)]
pub enum ServerType {
    LMStudio,
    Ollama,
}

impl Default for ServerType {
    /// LM Studio.
    fn default() -> (t: ServerType)
        ensures
            t == ServerType::LMStudio,
    {
        ServerType::LMStudio
    }
}

/// The bit pattern of the single-precision float 0.7, the default temperature.
pub const TEMPERATURE_BITS: u32 = 0x3f333333;

/// The bit pattern of the single-precision float 0.9, the default top-p.
pub const TOP_P_BITS: u32 = 0x3f666666;

/// How a client talks to an LLM server. The sampling temperature and top-p are
/// single-precision floats, kept here by their bit patterns.
#[derive(Debug, Clone)]
pub struct LLMConfig {
    pub server_url: String,
    pub server_type: ServerType,
    pub timeout_secs: u64,
    pub max_tokens: usize,
    pub temperature_bits: u32,
    pub top_p_bits: u32,
    pub stop: Vec<String>,
    pub model: String,
    pub cors_origin: Option<String>,
    pub cors_credentials: bool,
}

/// Whether `c` has the settings shared by every preset: a 30 second timeout, 1000
/// tokens, temperature 0.7, top-p 0.9, no stop sequences, no CORS origin and no CORS
/// credentials.
pub open spec fn preset_settings(c: LLMConfig) -> bool {
    &&& c.timeout_secs == 30
    &&& c.max_tokens == 1000
    &&& c.temperature_bits == TEMPERATURE_BITS
    &&& c.top_p_bits == TOP_P_BITS
    &&& c.stop@.len() == 0
    &&& c.cors_origin is None
    &&& !c.cors_credentials
}

impl LLMConfig {
    /// LM Studio at `server_url`, serving `qwen2.5-coder-3b-instruct`.
    pub fn with_lmstudio_server(server_url: String) -> (c: LLMConfig)
        ensures
            preset_settings(c),
            c.server_url == server_url,
            c.server_type == ServerType::LMStudio,
            c.model@ == "qwen2.5-coder-3b-instruct"@,
    {
        LLMConfig {
            server_url,
            server_type: ServerType::LMStudio,
            timeout_secs: 30,
            max_tokens: 1000,
            temperature_bits: TEMPERATURE_BITS,
            top_p_bits: TOP_P_BITS,
            stop: Vec::new(),
            model: owned("qwen2.5-coder-3b-instruct"),
            cors_origin: None,
            cors_credentials: false,
        }
    }

    /// Ollama at `http://localhost:11434`, serving `model`.
    pub fn with_ollama_server(model: String) -> (c: LLMConfig)
        ensures
            preset_settings(c),
            c.server_url@ == "http://localhost:11434"@,
            c.server_type == ServerType::Ollama,
            c.model == model,
    {
        LLMConfig {
            server_url: owned("http://localhost:11434"),
            server_type: ServerType::Ollama,
            timeout_secs: 30,
            max_tokens: 1000,
            temperature_bits: TEMPERATURE_BITS,
            top_p_bits: TOP_P_BITS,
            stop: Vec::new(),
            model,
            cors_origin: None,
            cors_credentials: false,
        }
    }

    /// Qwen on LM Studio at `http://localhost:1234`.
    pub fn with_qwen_lmstudio() -> (c: LLMConfig)
        ensures
            preset_settings(c),
            c.server_url@ == "http://localhost:1234"@,
            c.server_type == ServerType::LMStudio,
            c.model@ == "qwen2.5-coder-3b-instruct"@,
    {
        LLMConfig::with_lmstudio_server(owned("http://localhost:1234"))
    }

    /// Deepseek on Ollama.
    pub fn with_deepseek_ollama() -> (c: LLMConfig)
        ensures
            preset_settings(c),
            c.server_url@ == "http://localhost:11434"@,
            c.server_type == ServerType::Ollama,
            c.model@ == "deepseek-r1:1.5b"@,
    {
        LLMConfig::with_ollama_server(owned("deepseek-r1:1.5b"))
    }

    /// The same settings, sending `origin` as the CORS origin.
    pub fn with_cors_origin(self, origin: String) -> (c: LLMConfig)
        ensures
            c == (LLMConfig { cors_origin: Some(origin), ..self }),
    {
        LLMConfig { cors_origin: Some(origin), ..self }
    }

    /// The same settings, with CORS credentials enabled.
    pub fn with_credentials(self) -> (c: LLMConfig)
        ensures
            c == (LLMConfig { cors_credentials: true, ..self }),
    {
        LLMConfig { cors_credentials: true, ..self }
    }
}

impl Default for LLMConfig {
    /// Qwen on LM Studio at `http://localhost:1234`.
    fn default() -> (c: LLMConfig)
        ensures
            preset_settings(c),
            c.server_url@ == "http://localhost:1234"@,
            c.server_type == ServerType::LMStudio,
            c.model@ == "qwen2.5-coder-3b-instruct"@,
    {
        LLMConfig::with_qwen_lmstudio()
    }
}

/// The address completions are requested from on a server at `base`.
pub open spec fn completion_url(t: ServerType, base: Seq<char>) -> Seq<char> {
    match t {
        ServerType::LMStudio => base + "/v1/chat/completions"@,
        ServerType::Ollama => base + "/api/generate"@,
    }
}

/// The address completions are requested from, as [`completion_url`] gives it.
pub fn completion_endpoint(t: ServerType, base: &str) -> (r: String)
    ensures
        r@ == completion_url(t, base@),
{
    let mut r = owned(base);
    match t {
        ServerType::LMStudio => push_str(&mut r, "/v1/chat/completions"),
        ServerType::Ollama => push_str(&mut r, "/api/generate"),
    }
    r
}

/// The error for a reply with unsuccessful status `code`, written `status` (the code
/// and its reason), carrying `body`: a rate limit, a token limit, a missing model on
/// Ollama, or a failed request.
pub open spec fn status_failure(t: ServerType, code: u16, status: Seq<char>, body: Seq<char>) -> (int, Seq<char>) {
    if code == 429 {
        (0, "Rate limit exceeded: "@ + body)
    } else if code == 413 {
        (1, "Token limit exceeded: "@ + body)
    } else if t == ServerType::Ollama && code == 404 {
        (2, "Model not found: "@ + body)
    } else {
        match t {
            ServerType::LMStudio => (2, "Request failed ("@ + status + "): "@ + body),
            ServerType::Ollama => (2, "Ollama request failed ("@ + status + "): "@ + body),
        }
    }
}

/// The kind (0 rate limit, 1 token limit, 2 other) and message of an error.
pub open spec fn failure_of(e: NexaError) -> Option<(int, Seq<char>)> {
    match e {
        NexaError::LLMRateLimit(m) => Some((0, m@)),
        NexaError::LLMTokenLimit(m) => Some((1, m@)),
        NexaError::LLMError(m) => Some((2, m@)),
        _ => None,
    }
}

/// The error for an unsuccessful reply, as [`status_failure`] states it.
pub fn status_error(t: ServerType, code: u16, status: &str, body: &str) -> (e: NexaError)
    ensures
        failure_of(e) == Some(status_failure(t, code, status@, body@)),
{
    if code == 429 {
        let mut m = owned("Rate limit exceeded: ");
        push_str(&mut m, body);
        NexaError::LLMRateLimit(m)
    } else if code == 413 {
        let mut m = owned("Token limit exceeded: ");
        push_str(&mut m, body);
        NexaError::LLMTokenLimit(m)
    } else if t == ServerType::Ollama && code == 404 {
        let mut m = owned("Model not found: ");
        push_str(&mut m, body);
        NexaError::LLMError(m)
    } else {
        let mut m = match t {
            ServerType::LMStudio => owned("Request failed ("),
            ServerType::Ollama => owned("Ollama request failed ("),
        };
        push_str(&mut m, status);
        push_str(&mut m, "): ");
        push_str(&mut m, body);
        NexaError::LLMError(m)
    }
}

/// The completion in an LM Studio reply: the content of its first choice.
pub fn first_choice(contents: Vec<String>) -> (r: Result<String, NexaError>)
    ensures
        r is Ok <==> contents@.len() > 0,
        r matches Ok(c) ==> c == contents@[0],
        r matches Err(e) ==> (e matches NexaError::LLMResponse(m) && m@
            == "No completion choices returned"@),
{
    if contents.len() == 0 {
        return Err(NexaError::LLMResponse(owned("No completion choices returned")));
    }
    let mut contents = contents;
    Ok(contents.swap_remove(0))
}

/// The completion in an Ollama reply, which must say it is done.
pub fn ollama_completion(done: bool, response: String) -> (r: Result<String, NexaError>)
    ensures
        r is Ok <==> done,
        r matches Ok(c) ==> c == response,
        r matches Err(e) ==> (e matches NexaError::LLMResponse(m) && m@
            == "Ollama response not complete"@),
{
    if !done {
        return Err(NexaError::LLMResponse(owned("Ollama response not complete")));
    }
    Ok(response)
}

/// The position of the first occurrence of `pat` in `s` at or after `i`, if any.
pub open spec fn find_from(s: Seq<char>, pat: Seq<char>, i: int) -> Option<int>
    decreases s.len() - i,
{
    if i < 0 || i + pat.len() > s.len() {
        None
    } else if s.subrange(i, i + pat.len()) == pat {
        Some(i)
    } else if i >= s.len() {
        None
    } else {
        find_from(s, pat, i + 1)
    }
}

/// The text of `s` up to its first fence, or all of it.
pub open spec fn before_fence(s: Seq<char>) -> Seq<char> {
    match find_from(s, "```"@, 0) {
        Some(j) => s.take(j),
        None => s,
    }
}

/// The text of `s` after the first occurrence of `open`, up to the next fence.
pub open spec fn fenced(s: Seq<char>, open: Seq<char>) -> Seq<char> {
    match find_from(s, open, 0) {
        Some(i) => before_fence(s.skip(i + open.len())),
        None => s,
    }
}

/// The JSON a model answered with: the text of a ```` ```json ```` block, else of the
/// first fenced block, else the whole reply; trimmed.
pub open spec fn json_text(r: Seq<char>) -> Seq<char> {
    if find_from(r, "```json"@, 0) is Some {
        trimmed(fenced(r, "```json"@))
    } else if find_from(r, "```"@, 0) is Some {
        trimmed(fenced(r, "```"@))
    } else {
        trimmed(r)
    }
}

fn matches_at(v: &Vec<char>, p: &Vec<char>, i: usize) -> (r: bool)
    requires
        i <= v.len(),
        i + p.len() <= v.len(),
    ensures
        r == (v@.subrange(i as int, i + p.len()) == p@),
{
    let mut k: usize = 0;
    while k < p.len()
        invariant
            i + p.len() <= v.len(),
            k <= p.len(),
            forall|m: int| 0 <= m < k ==> v@[i + m] == p@[m],
        decreases p.len() - k,
    {
        if v[i + k] != p[k] {
            assert(v@.subrange(i as int, i + p.len())[k as int] != p@[k as int]);
            return false;
        }
        k = k + 1;
    }
    assert(v@.subrange(i as int, i + p.len()) =~= p@);
    true
}

fn find(v: &Vec<char>, p: &Vec<char>) -> (r: Option<usize>)
    ensures
        r matches Some(i) ==> find_from(v@, p@, 0) == Some(i as int) && i + p@.len() <= v.len(),
        r is None ==> find_from(v@, p@, 0) is None,
{
    let mut i: usize = 0;
    while i <= v.len()
        invariant
            i <= v.len() + 1,
            find_from(v@, p@, 0) == find_from(v@, p@, i as int),
        decreases v.len() + 1 - i,
    {
        if p.len() > v.len() - i {
            return None;
        }
        if matches_at(v, p, i) {
            return Some(i);
        }
        if i == v.len() {
            return None;
        }
        i = i + 1;
    }
    None
}

fn copy_range(v: &Vec<char>, from: usize, to: usize) -> (r: Vec<char>)
    requires
        from <= to <= v.len(),
    ensures
        r@ == v@.subrange(from as int, to as int),
{
    let mut r: Vec<char> = Vec::new();
    let mut i: usize = from;
    while i < to
        invariant
            from <= i <= to,
            to <= v.len(),
            r@ == v@.subrange(from as int, i as int),
        decreases to - i,
    {
        proof {
            assert(v@.subrange(from as int, i as int + 1) =~= v@.subrange(from as int, i as int).push(
                v@[i as int],
            ));
        }
        r.push(v[i]);
        i = i + 1;
    }
    r
}

fn fenced_text(v: &Vec<char>, start: usize) -> (r: String)
    requires
        start <= v.len(),
    ensures
        r@ == trimmed(before_fence(v@.skip(start as int))),
{
    let rest = copy_range(v, start, v.len());
    assert(rest@ =~= v@.skip(start as int));
    let fence = chars_of("```");
    let seg = match find(&rest, &fence) {
        Some(j) => {
            let s = copy_range(&rest, 0, j);
            assert(s@ =~= rest@.take(j as int));
            s
        },
        None => rest,
    };
    let text = crate::text::string_of_chars(&seg);
    trim(text.as_str())
}

/// The JSON text of a model's reply, as [`json_text`] gives it.
pub fn extract_json(response: &str) -> (r: String)
    ensures
        r@ == json_text(response@),
{
    let v = chars_of(response);
    let open_json = chars_of("```json");
    let fence = chars_of("```");
    proof {
        reveal_strlit("```json");
        reveal_strlit("```");
        assert(open_json@.len() == 7);
        assert(fence@.len() == 3);
    }
    match find(&v, &open_json) {
        Some(i) => fenced_text(&v, i + 7),
        None => match find(&v, &fence) {
            Some(i) => fenced_text(&v, i + 3),
            None => trim(response),
        },
    }
}

/// The prompt asking a model to call `function_name` with `args`, written as JSON.
pub open spec fn function_prompt_text(function_name: Seq<char>, args: Seq<char>) -> Seq<char> {
    "Call function '"@ + function_name + "' with arguments: "@ + args
        + ". Return ONLY a valid JSON object containing the result."@
}

/// The prompt asking a model to call a function, as [`function_prompt_text`] gives it.
pub fn function_prompt(function_name: &str, args: &str) -> (r: String)
    ensures
        r@ == function_prompt_text(function_name@, args@),
{
    let mut r = owned("Call function '");
    push_str(&mut r, function_name);
    push_str(&mut r, "' with arguments: ");
    push_str(&mut r, args);
    push_str(&mut r, ". Return ONLY a valid JSON object containing the result.");
    r
}

/// The prompt asking a model to reason about `topic`, given `context` when there is one.
pub open spec fn reasoning_text(topic: Seq<char>, context: Option<Seq<char>>) -> Seq<char> {
    match context {
        Some(c) => "Given this context:\n"@ + c + "\n\nPlease reason about: "@ + topic,
        None => "Please reason about: "@ + topic,
    }
}

/// The reasoning prompt, as [`reasoning_text`] gives it.
pub fn reasoning_prompt(topic: &str, context: Option<&str>) -> (r: String)
    ensures
        r@ == reasoning_text(topic@, match context {
            Some(c) => Some(c@),
            None => None,
        }),
{
    match context {
        Some(c) => {
            let mut r = owned("Given this context:\n");
            push_str(&mut r, c);
            push_str(&mut r, "\n\nPlease reason about: ");
            push_str(&mut r, topic);
            r
        },
        None => {
            let mut r = owned("Please reason about: ");
            push_str(&mut r, topic);
            r
        },
    }
}

/// A connection of an agent to an LLM provider.
pub struct LLMConnection;

impl LLMConnection {
    /// Connect `agent_id` to `provider`; an agent without identifier is refused.
    pub fn connect(provider: &str, agent_id: String) -> (r: Result<(), NexaError>)
        ensures
            r is Ok <==> agent_id@.len() > 0,
            r matches Err(e) ==> (e matches NexaError::Agent(m) && m@ == "Agent ID is empty for provider "@
                + provider@),
    {
        if agent_id.as_str().is_empty() {
            let mut m = owned("Agent ID is empty for provider ");
            push_str(&mut m, provider);
            return Err(NexaError::Agent(m));
        }
        Ok(())
    }
}

/// Priority of a task the system helper creates.
#[derive(Debug, Clone, Copy, PartialEq, Eq, Structural)]
pub enum TaskPriority {
    Low,
    Medium,
    High,
    Critical,
}

/// The rank of a priority, from 0 for low to 3 for critical.
pub open spec fn rank(p: TaskPriority) -> i32 {
    match p {
        TaskPriority::Low => 0,
        TaskPriority::Medium => 1,
        TaskPriority::High => 2,
        TaskPriority::Critical => 3,
    }
}

/// The priority a label names, compared without regard to case: `low`, `medium`,
/// `high` or `critical`; any other label means medium.
pub open spec fn priority_named(lowered: Seq<char>) -> TaskPriority {
    if lowered == "low"@ {
        TaskPriority::Low
    } else if lowered == "high"@ {
        TaskPriority::High
    } else if lowered == "critical"@ {
        TaskPriority::Critical
    } else {
        TaskPriority::Medium
    }
}

impl TaskPriority {
    /// The priority named by a label already lower-cased, as [`priority_named`] reads it.
    pub fn from_lowered(lowered: &str) -> (p: TaskPriority)
        ensures
            p == priority_named(lowered@),
    {
        if str_eq(lowered, "low") {
            TaskPriority::Low
        } else if str_eq(lowered, "high") {
            TaskPriority::High
        } else if str_eq(lowered, "critical") {
            TaskPriority::Critical
        } else {
            TaskPriority::Medium
        }
    }

    /// The priority given on the command line as `label`: its lower-cased form (by
    /// `str::to_lowercase`) read as [`priority_named`] says.
    pub fn from_label(label: &str) -> (p: TaskPriority)
        ensures
            p == priority_named(lowercase(label@)),
    {
        let l = to_lowercase(label);
        TaskPriority::from_lowered(l.as_str())
    }
}

/// A question about the system.
#[derive(Debug, Clone)]
pub enum SystemQuery {
    AgentStatus(String),
    TaskStatus(String),
    SystemHealth,
}

/// A request for a task, in words.
#[derive(Debug)]
pub struct SystemTaskRequest {
    pub description: String,
    pub priority: TaskPriority,
    pub required_capabilities: Vec<String>,
    pub deadline_ms: Option<i64>,
}

/// Turns requests into tasks and suggests tasks from templates.
#[derive(Debug)]
pub struct SystemHelper {
    pub task_templates: Vec<String>,
    pub tasks: Vec<Task>,
}

impl SystemHelper {
    /// A helper without templates or tasks.
    pub fn new() -> (h: SystemHelper)
        ensures
            h.task_templates@.len() == 0,
            h.tasks@.len() == 0,
    {
        SystemHelper { task_templates: Vec::new(), tasks: Vec::new() }
    }

    /// Create and keep a task for a request, made at `now_ms`: titled `Generated Task`,
    /// with one initial step, the requested capabilities as requirements, an hour's
    /// estimate and the request's priority rank. A copy is returned.
    pub fn create_task(&mut self, request: SystemTaskRequest, now_ms: i64) -> (t: Task)
        ensures
            t.title@ == "Generated Task"@,
            t.description == request.description,
            t.steps@.len() == 1 && t.steps@[0]@ == "Initial step"@,
            t.requirements == request.required_capabilities,
            t.deadline_ms == request.deadline_ms,
            t.estimated_duration == 3600,
            t.priority == rank(request.priority),
            t.created_at_ms == now_ms,
            t.status == crate::mcp::registry::TaskStatus::Pending,
            t.assigned_agent is None,
            final(self).tasks@.len() == old(self).tasks@.len() + 1,
            final(self).tasks@.last().same_as(&t),
            final(self).tasks@.take(old(self).tasks@.len() as int) == old(self).tasks@,
            final(self).task_templates@ == old(self).task_templates@,
    {
        let p: i32 = match request.priority {
            TaskPriority::Low => 0,
            TaskPriority::Medium => 1,
            TaskPriority::High => 2,
            TaskPriority::Critical => 3,
        };
        let task = Task::new(
            owned("Generated Task"),
            request.description,
            vec![owned("Initial step")],
            request.required_capabilities,
            request.deadline_ms,
            3600,
            p,
            now_ms,
        );
        let copy = task.clone();
        let ghost before = self.tasks@;
        self.tasks.push(copy);
        assert(self.tasks@.take(before.len() as int) =~= before);
        task
    }

    /// The answer to a question about the system; none is implemented yet.
    pub fn query_system(&self, query: &SystemQuery) -> (r: String)
        ensures
            r@ == (match query {
                SystemQuery::AgentStatus(_) => "Agent status query not implemented"@,
                SystemQuery::TaskStatus(_) => "Task status query not implemented"@,
                SystemQuery::SystemHealth => "System health query not implemented"@,
            }),
    {
        match query {
            SystemQuery::AgentStatus(_) => owned("Agent status query not implemented"),
            SystemQuery::TaskStatus(_) => owned("Task status query not implemented"),
            SystemQuery::SystemHealth => owned("System health query not implemented"),
        }
    }

    /// Keep a template for later suggestions.
    pub fn add_task_template(&mut self, template: String)
        ensures
            final(self).task_templates@ == old(self).task_templates@.push(template),
            final(self).tasks@ == old(self).tasks@,
    {
        self.task_templates.push(template);
    }

    /// Suggestions of tasks: before any task exists, the first template as a
    /// medium-priority task needing the `basic` capability; otherwise none.
    pub fn suggest_tasks(&self) -> (r: Vec<SystemTaskRequest>)
        ensures
            r@.len() == (if self.tasks@.len() == 0 && self.task_templates@.len() > 0 {
                1int
            } else {
                0int
            }),
            r@.len() == 1 ==> {
                &&& r@[0].description == self.task_templates@[0]
                &&& r@[0].priority == TaskPriority::Medium
                &&& r@[0].required_capabilities@.len() == 1
                &&& r@[0].required_capabilities@[0]@ == "basic"@
                &&& r@[0].deadline_ms is None
            },
    {
        let mut suggestions: Vec<SystemTaskRequest> = Vec::new();
        if self.tasks.len() == 0 && self.task_templates.len() > 0 {
            suggestions.push(
                SystemTaskRequest {
                    description: self.task_templates[0].clone(),
                    priority: TaskPriority::Medium,
                    required_capabilities: vec![owned("basic")],
                    deadline_ms: None,
                },
            );
        }
        suggestions
    }
}

} // verus!
