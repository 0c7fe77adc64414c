use nexa_core::agent::{stop_agent_status, without_child, Agent, AgentCapability, AgentStatus};
use nexa_core::agent_types::{AttemptResult, GenerationMetrics, GenerationRun, prepare_context, prepare_review_prompt, prepare_test_prompt, TaskKind};
use nexa_core::api::{server_status_word, ApiResponse, ServerResponse};
use nexa_core::cli::{
    build_model_list, check_start, check_stop, connect_call, connect_outcome, connect_refused, disconnect_call,
    disconnect_refused, disconnect_url, is_server_running, load_server_state, model_selected, pull_refused,
    selection_source, unreachable_error, verify_refused, LLMModel, ModelSource, ProviderCall,
};
use nexa_core::config::defaults::Config;
use nexa_core::config::ServerConfig;
use nexa_core::context::{ContextFrame, ContextManager, FrameMetadata, FrameType};
use nexa_core::error::{http_error, websocket_error, HttpFailure, NexaError, WebSocketFailure};
use nexa_core::gui::components::{AgentConfigState, SortOrder};
use nexa_core::gui::dashboard::{Action, AgentEntry, Message, NexaApp};
use nexa_core::gui::format::{format_bytes, format_duration};
use nexa_core::gui::summary::{DashboardMetrics, TaskTiming};
use nexa_core::gui::types::{add_log_entry, LogLevel, TaskPriority, MAX_LOG_ENTRIES};
use nexa_core::gui::View;
use nexa_core::logging::{log_file_name, logs_to_remove, MAX_LOG_FILES};
use nexa_core::llm::{
    completion_endpoint, extract_json, first_choice, function_prompt, ollama_completion, reasoning_prompt,
    status_error, LLMConfig, LLMConnection, ServerType, SystemHelper, SystemQuery, SystemTaskRequest,
};
use nexa_core::memory::{MemoryManager, ResourceType};
use nexa_core::models::agent::{ModelAgentStatus, TaskStatus};
use nexa_core::monitoring::{
    check_resource_supported, push_capped, AlertLevel, AlertLog, ResourceTable, ResourceType as Watched,
    SystemHealth,
};
use nexa_core::pipeline::{CodeRequest, GenerationJob, Pipeline, PipelineError};
use nexa_core::server::{begin_start, pid_file_action, start_failure, StartFailure, BuildInfo, PidFileAction, ServerMetrics, ServerState};
use nexa_core::text::parse_unsigned;
use nexa_core::workflow::{
    action_prompt, step_dependencies, AgentAction, WorkflowStatus, WorkflowStep,
    capability_test_prompt, code_analysis_prompt, code_generation_prompt, custom_task_report, deadlock_error,
    step_failure, StepDecision, WorkflowRun,
};
use std::collections::HashMap;

fn build_info() -> BuildInfo {
    BuildInfo {
        version: "0.1.0".to_string(),
        git_hash: None,
        build_timestamp: "2024-01-01T00:00:00Z".to_string(),
        rust_version: "1.80.0".to_string(),
        target_os: "linux".to_string(),
        target_arch: "x86_64".to_string(),
    }
}

#[test]
fn test_memory_allocation() {
    let mut manager = MemoryManager::new();
    let size = 1024;
    let overhead = size / 5;
    assert!(manager.allocate("test-1".to_string(), ResourceType::TokenBuffer, size, vec![], 0).is_ok());
    let stats = manager.get_stats();
    assert_eq!(stats.total_allocated, size + overhead);
    assert_eq!(stats.total_used, size);
    assert_eq!(stats.allocation_count, 1);
    assert_eq!(stats.peak_usage, size);
    assert!(manager.deallocate("test-1").is_ok());
    let final_stats = manager.get_stats();
    assert_eq!(final_stats.total_allocated, 0);
    assert_eq!(final_stats.total_used, 0);
    assert_eq!(final_stats.allocation_count, 1);
}

#[test]
fn test_context_frame_creation() {
    let metadata = FrameMetadata {
        source: "test".to_string(),
        frame_type: FrameType::Code,
        importance: 1,
        tags: vec!["test".to_string()],
    };
    let frame = ContextFrame::new("test content".to_string(), metadata, 0);
    assert!(!frame.hash.is_empty());
}

#[test]
fn context_hash_is_sha256_hex() {
    let metadata = FrameMetadata { source: "s".to_string(), frame_type: FrameType::Code, importance: 0, tags: vec![] };
    let frame = ContextFrame::new("abc".to_string(), metadata, 0);
    assert_eq!(frame.hash, "ba7816bf8f01cfea414140de5dae2223b00361a396177a9cb410ff61f20015ad");
}

#[test]
fn test_context_optimization() {
    let mut manager = ContextManager::new(10);
    for i in 0..12 {
        let metadata = FrameMetadata {
            source: "test".into(),
            frame_type: FrameType::Code,
            importance: (i % 3) as u8,
            tags: vec![],
        };
        manager.add_frame(format!("test content {}", i), metadata, i as i64, false, false);
    }
    let optimized = manager.optimize_context();
    assert!(optimized);
    assert!(manager.history.len() < 12);
}

#[test]
fn context_prompt_uses_recent_system_frames() {
    let mut manager = ContextManager::new(5);
    let sys = |t: FrameType| FrameMetadata { source: "s".to_string(), frame_type: t, importance: 2, tags: vec![] };
    manager.add_frame("old system".to_string(), sys(FrameType::SystemPrompt), 0, false, false);
    manager.add_frame("query".to_string(), sys(FrameType::UserQuery), 1, false, false);
    manager.add_frame("system a".to_string(), sys(FrameType::SystemPrompt), 2, false, false);
    manager.add_frame("code".to_string(), sys(FrameType::Code), 3, false, false);
    assert_eq!(manager.build_prompt("review", "fn x() {}"), "system a\n\nTask: review\nfn x() {}");
    assert_eq!(manager.calculate_total_tokens(), 6);
    assert!(!manager.add_frame("x".to_string(), sys(FrameType::Code), 4, true, false));
    assert_eq!(manager.history.len(), 4);
}

#[test]
fn format_duration_is_clock_time() {
    assert_eq!(format_duration(0), "00:00:00");
    assert_eq!(format_duration(3661), "01:01:01");
    assert_eq!(format_duration(360_000), "100:00:00");
}

#[test]
fn format_bytes_matches_float_formatting() {
    assert_eq!(format_bytes(512), "512 B");
    assert_eq!(format_bytes(1024), "1.00 KB");
    assert_eq!(format_bytes(1536), "1.50 KB");
    assert_eq!(format_bytes(5 * 1024 * 1024), "5.00 MB");
    let samples: [u64; 12] = [
        1023,
        1029,
        1034,
        1_048_575,
        1_048_576 + 5_243,
        1_073_741_823,
        1_073_741_824,
        3_221_225_472 + 10_737_418,
        (1u64 << 53) + 12_345,
        (1u64 << 60) + 987_654_321,
        u64::MAX - 1,
        u64::MAX,
    ];
    for b in samples {
        let expected = if b >= 1 << 30 {
            format!("{:.2} GB", b as f64 / (1u64 << 30) as f64)
        } else if b >= 1 << 20 {
            format!("{:.2} MB", b as f64 / (1u64 << 20) as f64)
        } else if b >= 1 << 10 {
            format!("{:.2} KB", b as f64 / (1u64 << 10) as f64)
        } else {
            format!("{} B", b)
        };
        assert_eq!(format_bytes(b), expected, "for {}", b);
    }
    for k in 0..2000u64 {
        let b = 1024 + k * 1_237;
        let expected = if b >= 1 << 20 {
            format!("{:.2} MB", b as f64 / (1u64 << 20) as f64)
        } else {
            format!("{:.2} KB", b as f64 / 1024.0)
        };
        assert_eq!(format_bytes(b), expected, "for {}", b);
    }
}

#[test]
fn parse_unsigned_like_str_parse() {
    for s in ["0", "42", "+7", "", "+", "-1", "12a", " 1", "4294967295", "4294967296"] {
        assert_eq!(parse_unsigned(s, u32::MAX as u64).map(|v| v as u32), s.parse::<u32>().ok(), "for {:?}", s);
    }
    assert_eq!(parse_unsigned("18446744073709551615", u64::MAX), Some(u64::MAX));
    assert_eq!(parse_unsigned("18446744073709551616", u64::MAX), None);
}

#[test]
fn log_keeps_latest_hundred() {
    let mut logs = Vec::new();
    for i in 0..150 {
        add_log_entry(&mut logs, format!("m{}", i), LogLevel::Info, "server".to_string(), i);
    }
    assert_eq!(logs.len(), MAX_LOG_ENTRIES);
    assert_eq!(logs[0].message, "m50");
    assert_eq!(logs[99].message, "m149");
}

#[test]
fn dashboard_server_flow() {
    let mut app = NexaApp::new();
    assert!(matches!(app.update(Message::Tick, 0), Action::Idle));
    assert_eq!(app.uptime_secs, 1);
    assert!(matches!(app.update(Message::StartServer, 1), Action::StartServer));
    assert_eq!(app.server_status, "Starting");
    assert!(matches!(app.update(Message::StartServer, 2), Action::Idle));
    assert!(matches!(app.update(Message::Tick, 3), Action::QueryServer));
    let metrics = ServerMetrics::new("0.1.0".to_string(), build_info(), 0);
    app.update(Message::UpdateState("Running".to_string(), 3, metrics), 4);
    assert_eq!(app.server_status, "Running");
    assert_eq!(app.active_connections, 3);
    let messages: Vec<&str> = app.server_logs.iter().map(|e| e.message.as_str()).collect();
    assert_eq!(messages, vec!["Starting server...", "Server started successfully", "Active connections: 3"]);
    app.update(Message::ServerStopped(false, Some("busy".to_string())), 5);
    assert_eq!(app.server_status, "Error");
    assert_eq!(app.last_error.as_deref(), Some("Failed to stop server: busy"));
    assert_eq!(app.error_logs.last().unwrap().source, "error");
    app.update(Message::Exit, 6);
    assert!(matches!(app.update(Message::Tick, 7), Action::CloseWindow));
}

#[test]
fn dashboard_agent_creation_needs_connected_server() {
    let mut app = NexaApp::new();
    app.update(Message::AgentNameChanged("coder".to_string()), 0);
    assert!(matches!(app.update(Message::CreateAgent, 1), Action::Idle));
    assert_eq!(
        app.error_logs.last().unwrap().message,
        "No connected LLM server available. Please connect to a server first."
    );
    app.update(Message::LLMConnected(String::new(), "Ollama".to_string(), Ok(())), 2);
    app.update(Message::SelectModel("Ollama".to_string(), "llama3".to_string()), 3);
    app.update(Message::MaxRetriesChanged("x".to_string()), 4);
    app.update(Message::TimeoutSecondsChanged("+90".to_string()), 5);
    match app.update(Message::CreateAgent, 6) {
        Action::CreateAgent { name, config } => {
            assert_eq!(name, "coder");
            assert_eq!(config.llm_provider, "Ollama");
            assert_eq!(config.llm_model, "llama3");
            assert_eq!(config.max_concurrent_tasks, 5);
            assert_eq!(config.retry_policy.max_retries, 3);
            assert_eq!(config.timeout_seconds, 90);
        },
        _ => panic!("an agent is to be created"),
    }
    assert_eq!(app.selected_provider, "Ollama");
}

#[test]
fn dashboard_models_and_tasks() {
    let mut app = NexaApp::new();
    let models = vec![LLMModel::new("a".to_string(), "Ollama".to_string(), "d".to_string(), None)];
    app.update(Message::ModelsLoaded("Ollama".to_string(), Ok(models)), 0);
    assert_eq!(app.llm_servers[1].model_names, vec!["a".to_string()]);
    assert_eq!(app.connection_logs.last().unwrap().message, "Loaded 1 models for provider Ollama");
    app.update(Message::ModelsLoaded("Nope".to_string(), Err("x".to_string())), 1);
    assert_eq!(app.error_logs.last().unwrap().message, "Server not found: Nope");
    app.update(Message::TaskDescriptionChanged("write docs".to_string()), 2);
    app.update(Message::TaskPriorityChanged(TaskPriority::High), 3);
    app.update(Message::TaskAssignedAgent("agent-7".to_string()), 4);
    match app.update(Message::CreateTask, 5) {
        Action::CreateTask { description, priority, agent_id } => {
            assert_eq!(description, "write docs");
            assert_eq!(priority, TaskPriority::High);
            assert_eq!(agent_id, "agent-7");
        },
        _ => panic!("a task is to be created"),
    }
    app.update(Message::TaskCreated(Ok(())), 1_700_000_000_000);
    assert_eq!(app.tasks.len(), 1);
    assert_eq!(app.tasks[0].id, "1700000000000");
    assert_eq!(app.tasks[0].priority, 2);
    assert_eq!(app.tasks[0].assigned_agent.as_deref(), Some("agent-7"));
    assert!(app.new_task_description.is_empty());
    assert!(matches!(app.update(Message::SetMaxConnections("250".to_string()), 6), Action::SetMaxConnections(250)));
    assert!(matches!(app.update(Message::SetMaxConnections("-1".to_string()), 7), Action::Idle));
    app.update(Message::ChangeView(View::LLMServers), 8);
    assert_eq!(app.current_view, View::LLMServers);
    app.update(Message::AgentCreated(Ok(AgentEntry { id: "1".to_string(), name: "bot".to_string() })), 9);
    assert_eq!(app.server_logs.last().unwrap().message, "Agent bot created successfully");
}

#[test]
fn dashboard_summary_counts() {
    let metrics = ServerMetrics::new("0.1.0".to_string(), build_info(), 0);
    let tasks = vec![
        TaskTiming { status: TaskStatus::Completed, created_at_ms: 0, deadline_ms: Some(10) },
        TaskTiming { status: TaskStatus::Pending, created_at_ms: 0, deadline_ms: None },
        TaskTiming { status: TaskStatus::Completed, created_at_ms: 0, deadline_ms: None },
    ];
    let agents = vec![ModelAgentStatus::Active, ModelAgentStatus::Idle];
    let m = DashboardMetrics::from_state(&agents, &metrics, 2, 7, &tasks, 99);
    assert_eq!(m.active_agents, 1);
    assert_eq!(m.tasks_completed, 2);
    assert_eq!(m.tasks_pending, 1);
    assert_eq!(m.total_tasks_failed, 0);
    assert_eq!(m.available_models, 7);
    assert_eq!((m.response_time_total_ms, m.timed_tasks), (10, 1));
    let later = vec![
        TaskTiming { status: TaskStatus::Completed, created_at_ms: 100, deadline_ms: Some(250) },
        TaskTiming { status: TaskStatus::Completed, created_at_ms: 50, deadline_ms: Some(100) },
        TaskTiming { status: TaskStatus::Failed, created_at_ms: 0, deadline_ms: Some(999) },
    ];
    let m2 = DashboardMetrics::from_state(&agents, &metrics, 0, 0, &later, 1);
    assert_eq!((m2.response_time_total_ms, m2.timed_tasks), (200, 2));
}

#[test]
fn api_server_state_names() {
    for st in [ServerState::Starting, ServerState::Running, ServerState::Stopping, ServerState::Stopped, ServerState::Error] {
        assert_eq!(ServerState::parse(&st.name()), Ok(st));
    }
    assert_eq!(ServerState::parse(" Running"), Err("Invalid server state:  Running".to_string()));
    assert!(begin_start(ServerState::Running).is_err());
    assert_eq!(begin_start(ServerState::Stopped).unwrap(), ServerState::Starting);
    assert_eq!(pid_file_action(ServerState::Running), PidFileAction::Write);
    assert_eq!(pid_file_action(ServerState::Error), PidFileAction::RemoveFiles);
    assert_eq!(pid_file_action(ServerState::Starting), PidFileAction::Keep);
}

#[test]
fn api_server_metrics_reset_and_uptime() {
    let mut metrics = ServerMetrics::new("0.1.0".to_string(), build_info(), 1_000);
    assert_eq!(metrics.http_port, 3000);
    assert_eq!(metrics.endpoints.len(), 4);
    metrics.update_uptime(4_000);
    assert_eq!(metrics.uptime_ms, 3_000);
    metrics.total_connections = 9;
    metrics.reset();
    assert_eq!(metrics.total_connections, 0);
    assert_eq!(metrics.start_time_ms, None);
    metrics.update_uptime(9_000);
    assert_eq!(metrics.uptime_ms, 0);
}

#[test]
fn cli_state_file_decisions() {
    assert_eq!(load_server_state(Some(" Running\n")), ServerState::Running);
    assert_eq!(load_server_state(Some("Error")), ServerState::Stopped);
    assert_eq!(load_server_state(None), ServerState::Stopped);
    assert!(is_server_running(true, Some("Starting")));
    assert!(!is_server_running(false, Some("Running")));
    assert_eq!(check_start(Some("Running")).unwrap_err().message, "Server is already running");
    assert!(check_start(None).is_ok());
    assert_eq!(check_stop(Some("Stopped")).unwrap_err().message, "Server is not running");
    assert!(check_stop(Some("Running\n")).is_ok());
}

#[test]
fn cli_model_listing() {
    assert_eq!(ModelSource::for_provider("ollama").unwrap().url(), "http://localhost:11434/api/tags");
    assert_eq!(
        ModelSource::for_provider("openai").unwrap_err(),
        NexaError::LLMError("Unsupported LLM provider: openai".to_string())
    );
    let models = build_model_list(ModelSource::LmStudio, vec![Some("qwen".to_string()), None]).unwrap();
    assert_eq!(models[0].name, "qwen");
    assert_eq!(models[1].name, "unknown");
    assert_eq!(models[1].provider, "LM Studio");
    assert_eq!(
        build_model_list(ModelSource::LmStudio, vec![]).unwrap_err(),
        NexaError::LLMError("No models found in LM Studio".to_string())
    );
    assert!(build_model_list(ModelSource::Ollama, vec![]).unwrap().is_empty());
    assert_eq!(
        unreachable_error(ModelSource::Ollama, true, "refused"),
        NexaError::LLMError("Failed to connect to Ollama API: refused".to_string())
    );
}

#[test]
fn llm_reply_handling() {
    assert_eq!(completion_endpoint(ServerType::Ollama, "http://h"), "http://h/api/generate");
    assert_eq!(
        status_error(ServerType::Ollama, 404, "404 Not Found", "no model"),
        NexaError::LLMError("Model not found: no model".to_string())
    );
    assert_eq!(
        status_error(ServerType::LMStudio, 404, "404 Not Found", "x"),
        NexaError::LLMError("Request failed (404 Not Found): x".to_string())
    );
    assert_eq!(
        status_error(ServerType::LMStudio, 429, "429 Too Many Requests", "slow"),
        NexaError::LLMRateLimit("Rate limit exceeded: slow".to_string())
    );
    assert_eq!(first_choice(vec!["a".to_string(), "b".to_string()]).unwrap(), "a");
    assert!(first_choice(vec![]).is_err());
    assert!(ollama_completion(false, "x".to_string()).is_err());
    assert_eq!(extract_json("text ```json\n{\"a\":1}\n``` more"), "{\"a\":1}");
    assert_eq!(extract_json("```\n [1] \n```"), "[1]");
    assert_eq!(extract_json("  {\"b\":2} "), "{\"b\":2}");
    assert_eq!(extract_json("```json {\"c\":3}"), "{\"c\":3}");
    assert!(function_prompt("add", "{}").starts_with("Call function 'add' with arguments: {}."));
    assert_eq!(reasoning_prompt("t", None), "Please reason about: t");
    assert_eq!(reasoning_prompt("t", Some("c")), "Given this context:\nc\n\nPlease reason about: t");
    assert_eq!(
        LLMConnection::connect("Ollama", String::new()).unwrap_err(),
        NexaError::Agent("Agent ID is empty for provider Ollama".to_string())
    );
    assert_eq!(ServerType::default(), ServerType::LMStudio);
}

#[test]
fn test_system_query() {
    let helper = SystemHelper::new();
    let response = helper.query_system(&SystemQuery::SystemHealth);
    assert_eq!(response, "System health query not implemented");
}

#[test]
fn test_create_task() {
    let mut helper = SystemHelper::new();
    let request = SystemTaskRequest {
        description: "Test task".to_string(),
        priority: nexa_core::llm::TaskPriority::Medium,
        required_capabilities: vec![],
        deadline_ms: None,
    };
    let task = helper.create_task(request, 0);
    assert_eq!(task.title, "Generated Task");
    assert_eq!(task.priority, 1);
    assert_eq!(helper.tasks.len(), 1);
}

#[test]
fn test_task_suggestions() {
    let mut helper = SystemHelper::new();
    helper.add_task_template("Monitor system resources".to_string());
    let suggestions = helper.suggest_tasks();
    assert!(!suggestions.is_empty(), "Should suggest at least one task");
    for task in suggestions {
        assert!(!task.description.is_empty(), "Task description should not be empty");
        assert!(!task.required_capabilities.is_empty(), "Task should have required capabilities");
    }
}

#[test]
fn test_alert_system() {
    let mut log = AlertLog::new();
    log.raise_alert(AlertLevel::Warning, "Test alert".to_string(), vec![("test".to_string(), "value".to_string())], 1_000);
    let alerts = log.get_recent_alerts(1_000 - 3_600_000);
    assert_eq!(alerts.len(), 1);
    assert_eq!(alerts[0].level, AlertLevel::Warning);
    assert!(log.get_recent_alerts(1_001).is_empty());
    assert_eq!(AlertLevel::Critical.label(), "CRITICAL");
}

#[test]
fn test_resource_allocation() {
    let mut table = ResourceTable::new();
    table.allocate("test_resource".to_string(), Watched::Memory, 1024);
    let resource = table.resources.get("test_resource").unwrap();
    assert_eq!(resource.name, "test_resource");
    assert_eq!(resource.value, 1024);
    assert_eq!(resource.unit, "bytes");
    assert_eq!(
        check_resource_supported(Watched::Storage).unwrap_err(),
        NexaError::Resource("Unsupported resource type: Storage".to_string())
    );
}

#[test]
fn monitoring_health_and_history() {
    let h = SystemHealth::from_checks(true, false);
    assert!(!h.overall_healthy);
    assert!(SystemHealth::default().overall_healthy);
    let mut history = vec![1, 2, 3];
    push_capped(&mut history, 4, 3);
    assert_eq!(history, vec![2, 3, 4]);
    push_capped(&mut history, 5, 10);
    assert_eq!(history, vec![2, 3, 4, 5]);
}

#[test]
fn config_validation() {
    let mut config = ServerConfig::default();
    assert!(config.validate().is_ok());
    config.llm.providers.clear();
    assert_eq!(config.validate(), Err(NexaError::Config("No LLM providers configured".to_string())));
    config.server.port = 0;
    assert_eq!(config.validate(), Err(NexaError::Config("Invalid server port".to_string())));
    assert_eq!(ServerConfig::default().get_api_endpoints()[1], "http://localhost:8080/metrics");
    let layered = Config::default();
    assert_eq!(layered.logging.files_to_keep, 5);
    assert_eq!(f64::from_bits(layered.monitoring.cpu_threshold_bits), 80.0);
    assert_eq!(f64::from_bits(layered.monitoring.memory_threshold_bits), 90.0);
}

#[test]
fn error_texts_and_conversions() {
    assert_eq!(NexaError::System("x".to_string()).message(), "System error: x");
    assert_eq!(NexaError::LLMTokenLimit("y".to_string()).message(), "LLM token limit error: y");
    let e: NexaError = "boom".to_string().into();
    assert_eq!(e, NexaError::System("boom".to_string()));
    let f = HttpFailure { timeout: false, connect: true, body: true, decode: false };
    assert_eq!(http_error(f, "d".to_string()), NexaError::LLMConnection("Failed to connect to LLM server".to_string()));
    let f = HttpFailure { timeout: false, connect: false, body: false, decode: false };
    assert_eq!(http_error(f, "d".to_string()), NexaError::LLMError("d".to_string()));
    assert_eq!(websocket_error(WebSocketFailure::ConnectionClosed), NexaError::WebSocket("Connection closed".to_string()));
}

#[test]
fn pipeline_jobs() {
    let pipeline = Pipeline::new(4);
    assert_eq!(pipeline.max_parallel_jobs, 4);
    let job = || GenerationJob {
        id: "j".to_string(),
        request: CodeRequest { prompt: "p".to_string(), language: "rust".to_string(), requirements: vec![] },
        language: "rust".to_string(),
        priority: 1,
    };
    let out = pipeline.process_job(job(), true, 12).unwrap();
    assert_eq!(out.code.code, "// Generated code here");
    assert_eq!(out.code.language, "rust");
    assert_eq!(out.duration, 12);
    let err = pipeline.process_job(job(), false, 12).unwrap_err();
    assert!(matches!(err, PipelineError::ResourceExhausted));
    assert_eq!(err.message(), "Resources exhausted");
}

#[test]
fn agent_capabilities_and_prompts() {
    let cap = AgentCapability { capability_type: "code".to_string(), parameters: HashMap::new(), required_resources: vec![] };
    assert!(cap.matches_type("code"));
    assert!(!cap.matches_type("Code"));
    assert_eq!(TaskKind::from_task_type("code_review"), Some(TaskKind::CodeReview));
    assert_eq!(TaskKind::from_task_type("other"), None);
    assert_eq!(
        prepare_context("rust", "add"),
        "Language: rust\nTask: Generate code according to the following requirements:\n\nadd"
    );
    assert_eq!(
        prepare_test_prompt("fn a(){}", "rust"),
        "Generate comprehensive tests for the following rust code:\n\nfn a(){}\n\nTests:"
    );
    assert!(prepare_review_prompt("c", &Some("t".to_string()), "go").contains("\n\nAssociated tests:\n\nt\n\nCode Review:"));
}

#[test]
fn api_responses() {
    let ok: ApiResponse<u32> = ApiResponse::from_result(Ok(3));
    assert!(ok.success && ok.data == Some(3));
    let err: ApiResponse<u32> = ApiResponse::from_unit(Err("bad".to_string()));
    assert_eq!(err.error.as_deref(), Some("bad"));
    let r = ServerResponse::for_outcome(true, Ok(()));
    assert_eq!(r.status.as_deref(), Some("running"));
    assert_eq!(server_status_word(false), "stopped");
}

#[test]
fn log_rotation_keeps_newest() {
    assert_eq!(log_file_name("20240101_120000"), "nexa_20240101_120000.log");
    // Nine files: the two oldest are removed, whatever their listed position.
    let modified: Vec<u64> = vec![50, 10, 90, 80, 70, 60, 5, 40, 30];
    assert_eq!(logs_to_remove(&modified), vec![1, 6]);
    // Equal ages keep their listed order: the later one of a tie goes.
    let tied: Vec<u64> = vec![1, 1, 1, 1, 1, 1, 1, 1];
    assert_eq!(logs_to_remove(&tied), vec![7]);
    assert!(logs_to_remove(&vec![3, 2, 1]).is_empty());
    assert_eq!(MAX_LOG_FILES, 7);
}

fn deps_of(v: &[&[&str]]) -> Vec<Vec<String>> {
    v.iter().map(|d| d.iter().map(|s| s.to_string()).collect()).collect()
}

fn run_order(deps: &Vec<Vec<String>>) -> (Vec<usize>, StepDecision) {
    let mut run = WorkflowRun::new(deps.len());
    let mut order = Vec::new();
    loop {
        match run.next_step(deps) {
            StepDecision::Run(i) => {
                order.push(i);
                run.step_succeeded(i);
            }
            other => return (order, other),
        }
    }
}

#[test]
fn workflow_runs_steps_in_dependency_order() {
    // Step 0 waits for step 1; step 2 waits for both: passes run 1, then 0 and 2.
    let deps = deps_of(&[&["1"], &[], &["0", "1"]]);
    assert_eq!(run_order(&deps), (vec![1, 0, 2], StepDecision::Finished));
    // No dependencies: one pass in listed order.
    let free = deps_of(&[&[], &[], &[]]);
    assert_eq!(run_order(&free), (vec![0, 1, 2], StepDecision::Finished));
    // An empty workflow is finished at once.
    assert_eq!(run_order(&Vec::new()), (vec![], StepDecision::Finished));
}

#[test]
fn workflow_detects_deadlock() {
    let cycle = deps_of(&[&["1"], &["0"]]);
    assert_eq!(run_order(&cycle), (vec![], StepDecision::Deadlocked));
    // A dependency that is not a number names step 0; one on a missing step never holds.
    let odd = deps_of(&[&[], &["first"], &["7"]]);
    assert_eq!(run_order(&odd), (vec![0, 1], StepDecision::Deadlocked));
    let self_dep = deps_of(&[&["0"]]);
    assert_eq!(run_order(&self_dep), (vec![], StepDecision::Deadlocked));
    assert_eq!(deadlock_error(), NexaError::System("Workflow deadlocked - circular dependencies detected".to_string()));
    assert_eq!(step_failure(3, "timed out"), NexaError::System("Step 3 failed: timed out".to_string()));
}

#[test]
fn workflow_failed_step_is_not_completed() {
    let deps = deps_of(&[&[], &["0"]]);
    let mut run = WorkflowRun::new(2);
    assert_eq!(run.next_step(&deps), StepDecision::Run(0));
    // Until its outcome is recorded the same step is handed out again.
    assert_eq!(run.next_step(&deps), StepDecision::Run(0));
    run.step_succeeded(0);
    assert_eq!(run.next_step(&deps), StepDecision::Run(1));
    assert_eq!(run.completed, vec![true, false]);
}

#[test]
fn agent_action_prompts() {
    let caps = vec!["code".to_string(), "review".to_string()];
    assert_eq!(capability_test_prompt(&caps), "Respond with 'OK' and list your capabilities: code, review");
    assert_eq!(capability_test_prompt(&vec![]), "Respond with 'OK' and list your capabilities: ");
    assert_eq!(code_generation_prompt("rust", "a parser"), "Generate rust code for: a parser");
    assert_eq!(
        code_analysis_prompt(&vec!["speed".to_string()], "fn f() {}"),
        "Analyze this code focusing on these aspects: speed\n\nCode:\nfn f() {}"
    );
    assert_eq!(custom_task_report("lint", "{\"x\":1}"), "Executed custom task 'lint' with parameters: {\"x\":1}");
}

#[test]
fn provider_connections() {
    assert_eq!(connect_call("openai"), Ok(ProviderCall::Nothing));
    assert_eq!(connect_call("lmstudio"), Ok(ProviderCall::LmStudio));
    assert_eq!(connect_call("groq"), Err(NexaError::System("Unsupported LLM provider: groq".to_string())));
    assert_eq!(disconnect_call("groq"), Err(NexaError::LLMError("Unsupported LLM provider: groq".to_string())));
    assert_eq!(disconnect_url(), "http://localhost:1234/v1/disconnect");
    assert_eq!(connect_outcome(None), Err(NexaError::System("Invalid response format from LM Studio".to_string())));
    assert_eq!(connect_outcome(Some(vec![None])), Err(NexaError::System("No models found in LM Studio".to_string())));
    assert_eq!(connect_outcome(Some(vec![None, Some("m".to_string())])), Ok(()));
    assert_eq!(
        connect_refused("500 Internal Server Error", "boom"),
        NexaError::System("Failed to connect (500 Internal Server Error): boom".to_string())
    );
    assert_eq!(
        disconnect_refused("404 Not Found", "x"),
        NexaError::LLMError("Failed to disconnect (404 Not Found): x".to_string())
    );
}

#[test]
fn model_selection() {
    assert_eq!(selection_source("LMStudio"), Ok(ModelSource::LmStudio));
    assert_eq!(selection_source("Ollama"), Ok(ModelSource::Ollama));
    assert_eq!(selection_source("lmstudio"), Err(NexaError::LLMError("Unsupported LLM provider: lmstudio".to_string())));
    let listing = Some(vec![Some("a".to_string()), None, Some("b".to_string())]);
    assert_eq!(model_selected("b", listing.clone()), Ok(()));
    assert_eq!(model_selected("c", listing), Err(NexaError::LLMError("Model c not found".to_string())));
    assert_eq!(
        model_selected("a", None),
        Err(NexaError::LLMError("Invalid response format: missing 'data' array".to_string()))
    );
    assert_eq!(
        verify_refused("503 Service Unavailable", "busy"),
        NexaError::LLMError("Failed to verify model (503 Service Unavailable): busy".to_string())
    );
    assert_eq!(pull_refused("404 Not Found"), NexaError::LLMError("Failed to pull model: 404 Not Found".to_string()));
}

#[test]
fn agent_settings_form_defaults() {
    let s = AgentConfigState::default();
    assert_eq!(
        (s.max_concurrent_tasks.as_str(), s.priority_threshold.as_str(), s.llm_provider.as_str(), s.llm_model.as_str(), s.timeout_seconds.as_str()),
        ("4", "0", "LMStudio", "default", "30")
    );
    assert_eq!(SortOrder::NameAsc, SortOrder::NameAsc);
}

#[test]
fn task_priority_labels_and_llm_presets() {
    assert_eq!(nexa_core::llm::TaskPriority::from_label("HIGH"), nexa_core::llm::TaskPriority::High);
    assert_eq!(nexa_core::llm::TaskPriority::from_label("Critical"), nexa_core::llm::TaskPriority::Critical);
    assert_eq!(nexa_core::llm::TaskPriority::from_label("low"), nexa_core::llm::TaskPriority::Low);
    assert_eq!(nexa_core::llm::TaskPriority::from_label("urgent"), nexa_core::llm::TaskPriority::Medium);
    let c = LLMConfig::default();
    assert_eq!(c.server_url, "http://localhost:1234");
    assert_eq!(c.model, "qwen2.5-coder-3b-instruct");
    assert_eq!(f32::from_bits(c.temperature_bits), 0.7f32);
    assert_eq!(f32::from_bits(c.top_p_bits), 0.9f32);
    assert_eq!((c.timeout_secs, c.max_tokens), (30, 1000));
    let d = LLMConfig::with_deepseek_ollama();
    assert_eq!((d.server_url.as_str(), d.model.as_str(), d.server_type), ("http://localhost:11434", "deepseek-r1:1.5b", ServerType::Ollama));
    let d_copy_credentials = d.cors_credentials;
    let e = d.with_cors_origin("http://x".to_string()).with_credentials();
    assert_eq!(e.cors_origin.as_deref(), Some("http://x"));
    assert!(e.cors_credentials);
    assert!(!d_copy_credentials);
    assert!(e.stop.is_empty());
}

#[test]
fn agent_test_agent_creation() {
    let agent = Agent {
        id: "test-1".to_string(),
        name: "Test Agent".to_string(),
        capabilities: vec![],
        status: AgentStatus::Idle,
        current_tasks: vec![],
    };
    assert_eq!(agent.id, "test-1");
}

#[test]
fn context_history_stays_bounded() {
    let mut manager = ContextManager::new(3);
    for i in 0..7 {
        let metadata = FrameMetadata { source: "s".to_string(), frame_type: FrameType::Code, importance: 0, tags: vec![] };
        assert!(manager.add_frame(format!("frame {}", i), metadata, i, false, false));
        assert!(manager.history.len() <= 3);
    }
    let kept: Vec<&str> = manager.history.iter().map(|f| f.content.as_str()).collect();
    assert_eq!(kept, vec!["frame 4", "frame 5", "frame 6"]);
    let metadata = FrameMetadata { source: "s".to_string(), frame_type: FrameType::Code, importance: 0, tags: vec![] };
    assert!(!manager.add_frame("again".to_string(), metadata, 9, true, false));
    assert_eq!(manager.history.len(), 3);
}

#[test]
fn task_priority_from_lowered_label() {
    assert_eq!(nexa_core::llm::TaskPriority::from_lowered("critical"), nexa_core::llm::TaskPriority::Critical);
    // The label must already be lower-cased here.
    assert_eq!(nexa_core::llm::TaskPriority::from_lowered("LOW"), nexa_core::llm::TaskPriority::Medium);
}

#[test]
fn memory_accounting_follows_allocations() {
    let mut mm = MemoryManager::new();
    assert!(mm.allocate("a".to_string(), ResourceType::Cache, 100, vec![], 0).is_ok());
    assert!(mm.allocate("b".to_string(), ResourceType::Model, 50, vec![], 1).is_ok());
    let s = mm.get_stats();
    assert_eq!((s.total_used, s.total_allocated, s.available, s.peak_usage), (150, 180, 30, 150));
    assert!(mm.deallocate("a").is_ok());
    let s = mm.get_stats();
    assert_eq!((s.total_used, s.total_allocated, s.available, s.peak_usage), (50, 60, 10, 150));
    assert!(mm.deallocate("a").is_err());
    assert_eq!(mm.get_stats(), s);
}

#[test]
fn workflow_steps_and_action_prompts() {
    let step = WorkflowStep::from_text("summarise".to_string());
    assert_eq!(step.agent_id, "default");
    assert!(matches!(&step.action, AgentAction::ProcessText { input, max_tokens: 1000 } if input == "summarise"));
    assert_eq!(step.timeout(), 60);
    let p = step.retry_policy.unwrap();
    assert_eq!((p.max_retries, p.backoff_ms, p.max_backoff_ms), (3, 1000, 10000));
    let untimed = WorkflowStep { timeout_seconds: None, ..step.clone() };
    assert_eq!(untimed.timeout(), 60);
    assert_eq!(action_prompt(&step.action), Ok("summarise".to_string()));
    let gen = AgentAction::GenerateCode { prompt: "a sort".to_string(), language: "go".to_string() };
    assert_eq!(action_prompt(&gen), Ok("Generate go code for: a sort".to_string()));
    let custom = AgentAction::CustomTask { task_type: "ping".to_string(), parameters: "{}".to_string() };
    assert_eq!(action_prompt(&custom), Err("Executed custom task 'ping' with parameters: {}".to_string()));
    let steps = vec![
        WorkflowStep { dependencies: vec!["1".to_string()], ..step.clone() },
        step.clone(),
    ];
    let deps = step_dependencies(&steps);
    assert_eq!(deps, vec![vec!["1".to_string()], vec![]]);
    assert_eq!(run_order(&deps), (vec![1, 0], StepDecision::Finished));
    assert_eq!(WorkflowStatus::Ready, WorkflowStatus::Ready);
}

#[test]
fn generation_attempts_are_bounded() {
    let mut run = GenerationRun::new();
    let mut metrics = GenerationMetrics::default();
    assert_eq!(run.start_attempt(&mut metrics), Some(1));
    assert_eq!(run.record(AttemptResult::Failed("model down".to_string())), None);
    assert_eq!(run.start_attempt(&mut metrics), Some(2));
    assert_eq!(run.record(AttemptResult::Generated { code: "bad".to_string(), valid: false }), None);
    assert_eq!(run.start_attempt(&mut metrics), Some(3));
    assert_eq!(run.record(AttemptResult::TimedOut), None);
    assert_eq!(run.start_attempt(&mut metrics), None);
    assert_eq!(metrics.required_attempts, 3);
    assert_eq!(run.last_error.as_deref(), Some("model down"));
    let mut ok = GenerationRun::new();
    assert_eq!(ok.start_attempt(&mut metrics), Some(1));
    assert_eq!(ok.record(AttemptResult::Generated { code: "fn f() {}".to_string(), valid: true }), Some("fn f() {}".to_string()));
    assert_eq!(metrics.required_attempts, 1);
}

#[test]
fn model_listing_fields_and_parse_errors() {
    assert_eq!(ModelSource::LmStudio.listing_fields(), ("data".to_string(), "id".to_string()));
    assert_eq!(ModelSource::Ollama.listing_fields(), ("models".to_string(), "name".to_string()));
    assert_eq!(
        ModelSource::LmStudio.parse_failure("eof"),
        NexaError::LLMError("Failed to parse LMStudio response: eof".to_string())
    );
    assert_eq!(
        ModelSource::Ollama.parse_failure("eof"),
        NexaError::LLMError("Failed to parse Ollama response: eof".to_string())
    );
}

#[test]
fn failed_starts_and_stopped_agents() {
    let (st, e) = start_failure(StartFailure::InvalidHost, "bad");
    assert_eq!(st, ServerState::Error);
    assert_eq!(e.message, "Invalid host address: bad");
    let (_, e) = start_failure(StartFailure::Bind, "in use");
    assert_eq!(e.message, "Failed to start server: in use");
    assert_eq!(stop_agent_status(AgentStatus::Busy), Ok(AgentStatus::Offline));
    assert_eq!(
        stop_agent_status(AgentStatus::Offline),
        Err(NexaError::Agent("Agent is already stopped".to_string()))
    );
    let kids = vec!["a".to_string(), "b".to_string(), "a".to_string(), "c".to_string()];
    assert_eq!(without_child(&kids, "a"), vec!["b".to_string(), "c".to_string()]);
}
