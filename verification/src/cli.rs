//! The command line: its commands, the models offered by local LLM servers, the
//! decisions the command handler takes from the server's state file, and what it
//! concludes from the replies of a model server when connecting to it, leaving it or
//! choosing one of its models. Sending the requests is the caller's part.

use crate::error::NexaError;
use crate::server::ServerState;
use crate::text::{owned, push_str, str_eq, trim, trimmed};
use vstd::prelude::*;

verus! {

/// An error reported by a command.
#[derive(Debug, Clone)]
pub struct CliError {
    pub message: String,
}

impl CliError {
    /// An error carrying `message`.
    pub fn new(message: String) -> (e: CliError)
        ensures
            e.message == message,
    {
        CliError { message }
    }
}

/// A model offered by an LLM provider.
#[derive(Debug, Clone)]
pub struct LLMModel {
    pub name: String,
    pub provider: String,
    pub description: String,
    pub quantization: Option<String>,
}

impl LLMModel {
    /// A model with the given name, provider, description and quantization.
    pub fn new(name: String, provider: String, description: String, quantization: Option<String>) -> (m: LLMModel)
        ensures
            m.name == name,
            m.provider == provider,
            m.description == description,
            m.quantization == quantization,
    {
        LLMModel { name, provider, description, quantization }
    }
}

/// The commands of the command line.
#[derive(Debug, Clone)]
pub enum Commands {
    /// Start the Nexa server.
    Start { port: Option<u16> },
    /// Stop the Nexa server.
    Stop,
    /// Get server status.
    Status,
    /// List all agents.
    Agents { status: Option<String> },
    /// Create a new agent.
    CreateAgent { name: String, model: Option<String>, provider: Option<String> },
    /// Stop an agent.
    StopAgent { id: String },
    /// List available models.
    Models { provider: String },
    /// Add LLM server.
    AddServer { provider: String, url: String },
    /// Remove LLM server.
    RemoveServer { provider: String },
    /// Create a new task.
    CreateTask { description: String, priority: String, agent_id: Option<String> },
    /// List tasks.
    Tasks,
    /// List workflows.
    Workflows,
    /// Create a new workflow.
    CreateWorkflow { name: String, steps: Vec<String> },
    /// Execute a workflow.
    ExecuteWorkflow { id: String },
}

/// The command line as parsed: at most one command.
#[derive(Debug, Clone)]
pub struct Cli {
    pub command: Option<Commands>,
}

/// A local LLM server whose models can be listed.
#[derive(Debug, Clone, Copy, PartialEq, Eq, Structural)]
pub enum ModelSource {
    LmStudio,
    Ollama,
}

/// The source a provider name selects, if it is one of the two known.
pub open spec fn source_named(p: Seq<char>) -> Option<ModelSource> {
    if p == "lmstudio"@ {
        Some(ModelSource::LmStudio)
    } else if p == "ollama"@ {
        Some(ModelSource::Ollama)
    } else {
        None
    }
}

/// The address listing a source's models.
pub open spec fn models_url(s: ModelSource) -> Seq<char> {
    match s {
        ModelSource::LmStudio => "http://localhost:1234/v1/models"@,
        ModelSource::Ollama => "http://localhost:11434/api/tags"@,
    }
}

/// The provider label and description given to a source's models.
pub open spec fn model_labels(s: ModelSource) -> (Seq<char>, Seq<char>) {
    match s {
        ModelSource::LmStudio => ("LM Studio"@, "LM Studio model"@),
        ModelSource::Ollama => ("Ollama"@, "Ollama model"@),
    }
}

/// The reply field listing a source's models and the entry field naming each.
pub open spec fn listing_field_names(s: ModelSource) -> (Seq<char>, Seq<char>) {
    match s {
        ModelSource::LmStudio => ("data"@, "id"@),
        ModelSource::Ollama => ("models"@, "name"@),
    }
}

/// How a source is called in the errors on its replies.
pub open spec fn source_label(s: ModelSource) -> Seq<char> {
    match s {
        ModelSource::LmStudio => "LMStudio"@,
        ModelSource::Ollama => "Ollama"@,
    }
}

impl ModelSource {
    /// The source for a provider name; other names are refused with an LLM error.
    pub fn for_provider(provider: &str) -> (r: Result<ModelSource, NexaError>)
        ensures
            r is Ok <==> source_named(provider@) is Some,
            r matches Ok(s) ==> source_named(provider@) == Some(s),
            r matches Err(e) ==> (e matches NexaError::LLMError(m) && m@
                == "Unsupported LLM provider: "@ + provider@),
    {
        if str_eq(provider, "lmstudio") {
            Ok(ModelSource::LmStudio)
        } else if str_eq(provider, "ollama") {
            Ok(ModelSource::Ollama)
        } else {
            let mut m = owned("Unsupported LLM provider: ");
            push_str(&mut m, provider);
            Err(NexaError::LLMError(m))
        }
    }

    /// The field of a source's reply that holds the list of models, and the field of
    /// each entry that holds its name: `data` and `id` on LM Studio, `models` and
    /// `name` on Ollama.
    pub fn listing_fields(&self) -> (r: (String, String))
        ensures
            (r.0@, r.1@) == listing_field_names(*self),
    {
        match self {
            ModelSource::LmStudio => (owned("data"), owned("id")),
            ModelSource::Ollama => (owned("models"), owned("name")),
        }
    }

    /// The error for a reply that could not be read as JSON, quoting `detail`.
    pub fn parse_failure(&self, detail: &str) -> (e: NexaError)
        ensures
            e matches NexaError::LLMError(m) && m@ == "Failed to parse "@ + source_label(*self)
                + " response: "@ + detail@,
    {
        let mut m = owned("Failed to parse ");
        match self {
            ModelSource::LmStudio => push_str(&mut m, "LMStudio"),
            ModelSource::Ollama => push_str(&mut m, "Ollama"),
        }
        push_str(&mut m, " response: ");
        push_str(&mut m, detail);
        NexaError::LLMError(m)
    }

    /// The address listing the models, as [`models_url`] gives it.
    pub fn url(&self) -> (r: String)
        ensures
            r@ == models_url(*self),
    {
        match self {
            ModelSource::LmStudio => owned("http://localhost:1234/v1/models"),
            ModelSource::Ollama => owned("http://localhost:11434/api/tags"),
        }
    }
}

/// Whether `m` is the model listed under `name` (or `unknown` where the entry had none)
/// by source `s`.
pub open spec fn listed_model(s: ModelSource, name: Option<String>, m: LLMModel) -> bool {
    &&& m.name@ == (match name {
        Some(n) => n@,
        None => "unknown"@,
    })
    &&& m.provider@ == model_labels(s).0
    &&& m.description@ == model_labels(s).1
    &&& m.quantization is None
}

/// The models a source listed, from the name of each entry (`None` where an entry had
/// no name). LM Studio listing nothing is an error; Ollama may list nothing.
pub fn build_model_list(source: ModelSource, names: Vec<Option<String>>) -> (r: Result<Vec<LLMModel>, NexaError>)
    ensures
        r is Err <==> (source == ModelSource::LmStudio && names@.len() == 0),
        r matches Err(e) ==> (e matches NexaError::LLMError(m) && m@ == "No models found in LM Studio"@),
        r matches Ok(v) ==> v@.len() == names@.len() && forall|i: int|
            0 <= i < v@.len() ==> listed_model(source, #[trigger] names@[i], v@[i]),
{
    let mut out: Vec<LLMModel> = Vec::new();
    let mut i: usize = 0;
    while i < names.len()
        invariant
            i <= names@.len(),
            out@.len() == i,
            forall|k: int| 0 <= k < i ==> listed_model(source, #[trigger] names@[k], out@[k]),
        decreases names@.len() - i,
    {
        let name = match &names[i] {
            Some(n) => n.clone(),
            None => owned("unknown"),
        };
        let (provider, description) = match source {
            ModelSource::LmStudio => (owned("LM Studio"), owned("LM Studio model")),
            ModelSource::Ollama => (owned("Ollama"), owned("Ollama model")),
        };
        out.push(LLMModel::new(name, provider, description, None));
        i = i + 1;
    }
    if source == ModelSource::LmStudio && out.len() == 0 {
        return Err(NexaError::LLMError(owned("No models found in LM Studio")));
    }
    Ok(out)
}

/// The error reported when a source could not be reached: a refused connection to LM
/// Studio gets advice on starting it; other failures quote `detail`.
pub open spec fn unreachable_message(s: ModelSource, refused: bool, detail: Seq<char>) -> Seq<char> {
    match s {
        ModelSource::LmStudio => if refused {
            "LM Studio server is not running. Please start LM Studio and enable the local server in Settings -> Local Server"@
        } else {
            "Failed to connect to LMStudio: "@ + detail
        },
        ModelSource::Ollama => "Failed to connect to Ollama API: "@ + detail,
    }
}

/// The error for a source that could not be reached, as [`unreachable_message`] words it.
pub fn unreachable_error(source: ModelSource, refused: bool, detail: &str) -> (e: NexaError)
    ensures
        e matches NexaError::LLMError(m) && m@ == unreachable_message(source, refused, detail@),
{
    let m = match source {
        ModelSource::LmStudio => if refused {
            owned(
                "LM Studio server is not running. Please start LM Studio and enable the local server in Settings -> Local Server",
            )
        } else {
            let mut m = owned("Failed to connect to LMStudio: ");
            push_str(&mut m, detail);
            m
        },
        ModelSource::Ollama => {
            let mut m = owned("Failed to connect to Ollama API: ");
            push_str(&mut m, detail);
            m
        },
    };
    NexaError::LLMError(m)
}

/// The server state recorded in a state file, read with surrounding whitespace
/// trimmed; anything else, or no file, counts as stopped.
pub open spec fn recorded_state(file: Option<Seq<char>>) -> ServerState {
    match file {
        Some(t) => if trimmed(t) == "Running"@ {
            ServerState::Running
        } else if trimmed(t) == "Starting"@ {
            ServerState::Starting
        } else if trimmed(t) == "Stopping"@ {
            ServerState::Stopping
        } else {
            ServerState::Stopped
        },
        None => ServerState::Stopped,
    }
}

/// The state recorded in the state file's contents, if the file could be read.
pub fn load_server_state(file: Option<&str>) -> (s: ServerState)
    ensures
        s == recorded_state(match file {
            Some(t) => Some(t@),
            None => None,
        }),
{
    match file {
        Some(t) => {
            let tt = trim(t);
            let ts = tt.as_str();
            if str_eq(ts, "Running") {
                ServerState::Running
            } else if str_eq(ts, "Starting") {
                ServerState::Starting
            } else if str_eq(ts, "Stopping") {
                ServerState::Stopping
            } else {
                ServerState::Stopped
            }
        },
        None => ServerState::Stopped,
    }
}

/// Whether the server counts as running: its process is alive and the state file,
/// trimmed, says `Running` or `Starting`.
pub fn is_server_running(process_alive: bool, state_file: Option<&str>) -> (r: bool)
    ensures
        r == (process_alive && match state_file {
            Some(t) => trimmed(t@) == "Running"@ || trimmed(t@) == "Starting"@,
            None => false,
        }),
{
    if !process_alive {
        return false;
    }
    match state_file {
        Some(t) => {
            let tt = trim(t);
            str_eq(tt.as_str(), "Running") || str_eq(tt.as_str(), "Starting")
        },
        None => false,
    }
}

/// Whether a start may proceed: refused when the state file, trimmed, says `Running`.
pub fn check_start(state_file: Option<&str>) -> (r: Result<(), CliError>)
    ensures
        r is Err <==> (match state_file {
            Some(t) => trimmed(t@) == "Running"@,
            None => false,
        }),
        r matches Err(e) ==> e.message@ == "Server is already running"@,
{
    if let Some(t) = state_file {
        let tt = trim(t);
        if str_eq(tt.as_str(), "Running") {
            return Err(CliError::new(owned("Server is already running")));
        }
    }
    Ok(())
}

/// Whether a stop may proceed: only when the state file exists and, trimmed, says `Running`.
pub fn check_stop(state_file: Option<&str>) -> (r: Result<(), CliError>)
    ensures
        r is Ok <==> (match state_file {
            Some(t) => trimmed(t@) == "Running"@,
            None => false,
        }),
        r matches Err(e) ==> e.message@ == "Server is not running"@,
{
    if let Some(t) = state_file {
        let tt = trim(t);
        if str_eq(tt.as_str(), "Running") {
            return Ok(());
        }
    }
    Err(CliError::new(owned("Server is not running")))
}

/// The call that connecting to, or leaving, a provider's server takes.
#[derive(Debug, Clone, Copy, PartialEq, Eq, Structural)]
pub enum ProviderCall {
    /// Nothing to send: the provider needs no local server.
    Nothing,
    /// A request to LM Studio's local server.
    LmStudio,
}

/// The call a provider name asks for, if the provider is known.
pub open spec fn provider_call(p: Seq<char>) -> Option<ProviderCall> {
    if p == "openai"@ {
        Some(ProviderCall::Nothing)
    } else if p == "lmstudio"@ {
        Some(ProviderCall::LmStudio)
    } else {
        None
    }
}

/// The message refusing an unknown provider.
pub open spec fn unsupported_text(p: Seq<char>) -> Seq<char> {
    "Unsupported LLM provider: "@ + p
}

fn call_for(provider: &str) -> (r: Option<ProviderCall>)
    ensures
        r == provider_call(provider@),
{
    if str_eq(provider, "openai") {
        Some(ProviderCall::Nothing)
    } else if str_eq(provider, "lmstudio") {
        Some(ProviderCall::LmStudio)
    } else {
        None
    }
}

fn unsupported(provider: &str) -> (r: String)
    ensures
        r@ == unsupported_text(provider@),
{
    let mut m = owned("Unsupported LLM provider: ");
    push_str(&mut m, provider);
    m
}

/// The call that connecting to `provider` takes; an unknown provider is a system error.
pub fn connect_call(provider: &str) -> (r: Result<ProviderCall, NexaError>)
    ensures
        r is Ok <==> provider_call(provider@) is Some,
        r matches Ok(c) ==> provider_call(provider@) == Some(c),
        r matches Err(e) ==> (e matches NexaError::System(m) && m@ == unsupported_text(provider@)),
{
    match call_for(provider) {
        Some(c) => Ok(c),
        None => Err(NexaError::System(unsupported(provider))),
    }
}

/// The call that leaving `provider` takes; an unknown provider is an LLM error.
pub fn disconnect_call(provider: &str) -> (r: Result<ProviderCall, NexaError>)
    ensures
        r is Ok <==> provider_call(provider@) is Some,
        r matches Ok(c) ==> provider_call(provider@) == Some(c),
        r matches Err(e) ==> (e matches NexaError::LLMError(m) && m@ == unsupported_text(provider@)),
{
    match call_for(provider) {
        Some(c) => Ok(c),
        None => Err(NexaError::LLMError(unsupported(provider))),
    }
}

/// Where a request leaving LM Studio's local server goes (by `POST`).
pub fn disconnect_url() -> (r: String)
    ensures
        r@ == "http://localhost:1234/v1/disconnect"@,
{
    owned("http://localhost:1234/v1/disconnect")
}

/// Whether some entry of a model listing is named.
pub open spec fn some_named(ids: Seq<Option<String>>) -> bool {
    exists|i: int| 0 <= i < ids.len() && #[trigger] ids[i] is Some
}

/// What connecting to LM Studio concludes from a successful listing of its models:
/// `None` where the reply had no `data` array, else the `id` of each entry (`None`
/// where an entry has no textual id). At least one named model is needed.
pub fn connect_outcome(listing: Option<Vec<Option<String>>>) -> (r: Result<(), NexaError>)
    ensures
        r is Ok <==> (listing matches Some(ids) && some_named(ids@)),
        r matches Err(e) ==> (e matches NexaError::System(m) && m@ == (if listing is None {
            "Invalid response format from LM Studio"@
        } else {
            "No models found in LM Studio"@
        })),
{
    match listing {
        None => Err(NexaError::System(owned("Invalid response format from LM Studio"))),
        Some(ids) => {
            let mut i: usize = 0;
            let mut found = false;
            while i < ids.len() && !found
                invariant
                    i <= ids@.len(),
                    found ==> some_named(ids@),
                    !found ==> forall|k: int| 0 <= k < i ==> !(#[trigger] ids@[k] is Some),
                decreases ids@.len() - i,
            {
                if ids[i].is_some() {
                    assert(ids@[i as int] is Some);
                    found = true;
                }
                i = i + 1;
            }
            if found {
                return Ok(());
            }
            Err(NexaError::System(owned("No models found in LM Studio")))
        },
    }
}

/// The message of a request that a model server answered with an unsuccessful status
/// (`status`, the code and its reason), its body reading `body`: for `verb` one of
/// `connect`, `disconnect` or `verify model`.
pub open spec fn refused_text(verb: Seq<char>, status: Seq<char>, body: Seq<char>) -> Seq<char> {
    "Failed to "@ + verb + " ("@ + status + "): "@ + body
}

fn refused(verb: &str, status: &str, body: &str) -> (r: String)
    ensures
        r@ == refused_text(verb@, status@, body@),
{
    let mut m = owned("Failed to ");
    push_str(&mut m, verb);
    push_str(&mut m, " (");
    push_str(&mut m, status);
    push_str(&mut m, "): ");
    push_str(&mut m, body);
    m
}

/// The error of a connection that LM Studio refused with `status`, its body `body`.
pub fn connect_refused(status: &str, body: &str) -> (e: NexaError)
    ensures
        e matches NexaError::System(m) && m@ == refused_text("connect"@, status@, body@),
{
    NexaError::System(refused("connect", status, body))
}

/// The error of a disconnection that LM Studio refused with `status`, its body `body`.
pub fn disconnect_refused(status: &str, body: &str) -> (e: NexaError)
    ensures
        e matches NexaError::LLMError(m) && m@ == refused_text("disconnect"@, status@, body@),
{
    NexaError::LLMError(refused("disconnect", status, body))
}

/// The source on which a model is chosen, by its display name (`LMStudio` or `Ollama`).
pub open spec fn selection_source_named(p: Seq<char>) -> Option<ModelSource> {
    if p == "LMStudio"@ {
        Some(ModelSource::LmStudio)
    } else if p == "Ollama"@ {
        Some(ModelSource::Ollama)
    } else {
        None
    }
}

/// The source on which a model is chosen; an unknown provider is an LLM error. On LM
/// Studio the model must be listed; Ollama is asked to pull it.
pub fn selection_source(provider: &str) -> (r: Result<ModelSource, NexaError>)
    ensures
        r is Ok <==> selection_source_named(provider@) is Some,
        r matches Ok(s) ==> selection_source_named(provider@) == Some(s),
        r matches Err(e) ==> (e matches NexaError::LLMError(m) && m@ == unsupported_text(provider@)),
{
    if str_eq(provider, "LMStudio") {
        Ok(ModelSource::LmStudio)
    } else if str_eq(provider, "Ollama") {
        Ok(ModelSource::Ollama)
    } else {
        Err(NexaError::LLMError(unsupported(provider)))
    }
}

/// Whether some entry of a model listing is named `model`.
pub open spec fn lists_model(ids: Seq<Option<String>>, model: Seq<char>) -> bool {
    exists|i: int| 0 <= i < ids.len() && (#[trigger] ids[i] matches Some(id) && id@ == model)
}

/// What choosing `model` on LM Studio concludes from a successful listing (as for
/// [`connect_outcome`]): the model must be listed.
pub fn model_selected(model: &str, listing: Option<Vec<Option<String>>>) -> (r: Result<(), NexaError>)
    ensures
        r is Ok <==> (listing matches Some(ids) && lists_model(ids@, model@)),
        r matches Err(e) ==> (e matches NexaError::LLMError(m) && m@ == (if listing is None {
            "Invalid response format: missing 'data' array"@
        } else {
            "Model "@ + model@ + " not found"@
        })),
{
    match listing {
        None => Err(NexaError::LLMError(owned("Invalid response format: missing 'data' array"))),
        Some(ids) => {
            let mut i: usize = 0;
            let mut found = false;
            while i < ids.len() && !found
                invariant
                    i <= ids@.len(),
                    found ==> lists_model(ids@, model@),
                    !found ==> forall|k: int| 0 <= k < i ==> !(#[trigger] ids@[k] matches Some(id) && id@ == model@),
                decreases ids@.len() - i,
            {
                if let Some(id) = &ids[i] {
                    if str_eq(id.as_str(), model) {
                        assert(ids@[i as int] matches Some(x) && x@ == model@);
                        found = true;
                    }
                }
                i = i + 1;
            }
            if found {
                return Ok(());
            }
            let mut m = owned("Model ");
            push_str(&mut m, model);
            push_str(&mut m, " not found");
            Err(NexaError::LLMError(m))
        },
    }
}

/// The error of a model that LM Studio could not be asked about: it answered with
/// `status`, its body `body`.
pub fn verify_refused(status: &str, body: &str) -> (e: NexaError)
    ensures
        e matches NexaError::LLMError(m) && m@ == refused_text("verify model"@, status@, body@),
{
    NexaError::LLMError(refused("verify model", status, body))
}

/// The error of a model that Ollama would not pull: it answered with `status`.
pub fn pull_refused(status: &str) -> (e: NexaError)
    ensures
        e matches NexaError::LLMError(m) && m@ == "Failed to pull model: "@ + status@,
{
    let mut m = owned("Failed to pull model: ");
    push_str(&mut m, status);
    NexaError::LLMError(m)
}

} // verus!
