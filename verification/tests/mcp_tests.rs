use nexa_core::error::NexaError;
use nexa_core::mcp::buffer::{BufferConfig, BufferedMessage, MessageBuffer, Priority};
use nexa_core::mcp::cluster::{
    ClusterConfig, ClusterManager, ClusterMessage, ClusterTask, NodeHealth, NodeRole, TaskStep,
};
use nexa_core::mcp::loadbalancer::{cleanup_idle, final_failure, plan_acquire, should_retry, Acquire};
use nexa_core::mcp::metrics::{AlertChecker, AlertSeverity, AlertThresholds, MetricsCollector};
use nexa_core::mcp::protocol::{Message, MessagePayload, MessageType, Progress, TaskUpdatePayload};
use nexa_core::mcp::registry::{Agent, AgentRegistry, AgentStatus, TaskStatus};
use nexa_core::mcp::server::config::ServerConfig;
use nexa_core::mcp::server::{
    check_start, check_stop, get_state, pid_in_file, start_outcome, Server, ServerControl, ServerState,
};
use nexa_core::mcp::server::websocket;
use nexa_core::mcp::server::{websocket_step, ws_send_error, CloseFrame, WsFrame, WsReply, WsStep};
use nexa_core::mcp::tokens::{ModelType, TokenManager};
use nexa_core::mcp::{McpState, RegistryStub, MCP};
use std::collections::HashMap;

fn message(id: u128, payload: Vec<u8>, priority: Priority, created_at_ms: u64) -> BufferedMessage {
    BufferedMessage {
        id,
        payload,
        priority,
        created_at_ms,
        attempts: 0,
        max_attempts: 3,
        delay_until_ms: None,
    }
}

#[test]
fn test_mcp_state() {
    let lock = std::sync::RwLock::new(McpState::new());
    let state = lock.write().unwrap();
    assert_eq!(state.counter, 0);
}

#[test]
fn test_message_buffer() {
    let mut mcp = MCP::new();
    let msg = message(7, vec![1, 2, 3], Priority::Normal, 1_000);
    assert!(mcp.publish_message(msg.clone()).is_ok(), "Failed to publish message");
    let received = mcp.get_next_message(Priority::Normal, 1_000);
    assert!(received.is_some(), "Expected to receive a message");
    let received = received.unwrap();
    assert_eq!(received.payload, vec![1, 2, 3]);
    assert_eq!(received.priority, Priority::Normal);
    let empty = mcp.get_next_message(Priority::Normal, 1_000);
    assert!(empty.is_none());
}

#[test]
fn test_basic_operations() {
    let mut buffer = MessageBuffer::new(BufferConfig::default());
    let msg = message(42, vec![1, 2, 3], Priority::High, 1_000);
    assert!(buffer.publish(msg.clone()).is_ok());
    let received = buffer.pop(Priority::High, 1_000);
    assert!(received.is_some());
    let received = received.unwrap();
    assert_eq!(received.id, msg.id);
    assert_eq!(received.priority, Priority::High);
}

#[test]
fn test_priority_ordering() {
    let mut buffer = MessageBuffer::new(BufferConfig::default());
    let high_msg = message(1, vec![1], Priority::High, 1_000);
    let low_msg = message(2, vec![2], Priority::Low, 1_000);
    assert!(buffer.publish(low_msg.clone()).is_ok());
    assert!(buffer.publish(high_msg.clone()).is_ok());
    let received = buffer.pop_any(1_000);
    assert!(received.is_some());
    assert_eq!(received.unwrap().priority, Priority::High);
    let received = buffer.pop_any(1_000);
    assert!(received.is_some());
    assert_eq!(received.unwrap().priority, Priority::Low);
}

#[test]
fn test_cleanup() {
    let mut buffer = MessageBuffer::new(BufferConfig {
        cleanup_interval_ms: 100,
        message_ttl_ms: 50,
        ..BufferConfig::default()
    });
    let msg = message(3, vec![1], Priority::High, 0);
    assert!(buffer.publish(msg).is_ok());
    assert!(buffer.pop(Priority::High, 200).is_none());
}

#[test]
fn buffer_refuses_oversized_and_full() {
    let mut buffer = MessageBuffer::new(BufferConfig {
        capacity: 1,
        max_message_size: 2,
        ..BufferConfig::default()
    });
    assert_eq!(
        buffer.publish(message(1, vec![1, 2, 3], Priority::Low, 0)),
        Err("Message exceeds maximum size".to_string())
    );
    assert!(buffer.publish(message(2, vec![1], Priority::Low, 0)).is_ok());
    assert_eq!(
        buffer.publish(message(3, vec![1], Priority::Low, 0)),
        Err("Buffer is full".to_string())
    );
}

#[test]
fn buffer_keeps_order_within_priority() {
    let mut buffer = MessageBuffer::new(BufferConfig::default());
    for id in 1..=3u128 {
        assert!(buffer.publish(message(id, vec![0], Priority::Normal, 0)).is_ok());
    }
    assert!(buffer.publish(message(9, vec![0], Priority::Critical, 0)).is_ok());
    let order: Vec<u128> = (0..4).map(|_| buffer.pop_any(0).unwrap().id).collect();
    assert_eq!(order, vec![9, 1, 2, 3]);
    assert!(buffer.is_empty());
}

#[test]
fn buffer_cleanup_keeps_live_messages() {
    let mut buffer = MessageBuffer::new(BufferConfig {
        message_ttl_ms: 100,
        ..BufferConfig::default()
    });
    assert!(buffer.publish(message(1, vec![0], Priority::Low, 10)).is_ok());
    assert!(buffer.publish(message(2, vec![0], Priority::Low, 150)).is_ok());
    buffer.cleanup(200);
    assert_eq!(buffer.len(), 1);
    assert_eq!(buffer.pop(Priority::Low, 200).unwrap().id, 2);
}

#[test]
fn test_cluster_manager_creation() {
    let config = ClusterConfig::new_default("nexa-cluster".to_string());
    let manager = ClusterManager::new(&config, 1_000);
    assert_eq!(manager.node.role, NodeRole::Follower);
    assert_eq!(manager.node.health, NodeHealth::Healthy);
}

#[test]
fn test_election_process() {
    let config = ClusterConfig::new_default("nexa-cluster".to_string());
    let mut manager = ClusterManager::new(&config, 1_000);
    let request = manager.start_election();
    assert!(matches!(request, ClusterMessage::RequestVote { term: 1, .. }));
    assert_eq!(manager.node.role, NodeRole::Candidate);
    assert_eq!(manager.state.term, 1);
    manager.handle_vote(1, 11, true);
    manager.handle_vote(1, 12, true);
    assert_eq!(manager.node.role, NodeRole::Leader);
    assert_eq!(manager.state.leader_id, Some(manager.node.id));
}

#[test]
fn repeated_vote_counts_once() {
    let config = ClusterConfig::new_default("nexa-cluster".to_string());
    let mut manager = ClusterManager::new(&config, 0);
    manager.start_election();
    manager.handle_vote(1, 5, true);
    manager.handle_vote(1, 5, true);
    assert_eq!(manager.vote_count(), 1);
    assert_eq!(manager.node.role, NodeRole::Candidate);
    manager.handle_vote(2, 6, true);
    assert_eq!(manager.vote_count(), 1);
}

#[test]
fn cluster_tasks_follow_role_and_timeout() {
    let config = ClusterConfig::new_default("nexa-cluster".to_string());
    let mut manager = ClusterManager::new(&config, 0);
    assert!(matches!(manager.process_task(ClusterTask::SendHeartbeat, 10), TaskStep::Idle));
    assert!(matches!(manager.process_task(ClusterTask::CheckElection, 5_000), TaskStep::Idle));
    match manager.process_task(ClusterTask::CheckElection, 5_001) {
        TaskStep::Broadcast(ClusterMessage::RequestVote { term, .. }) => assert_eq!(term, 1),
        _ => panic!("an election was due"),
    }
    assert!(matches!(manager.process_task(ClusterTask::Shutdown, 0), TaskStep::Stop));
}

#[test]
fn metrics_test_metrics_collection() {
    let mut collector = MetricsCollector::new(0);
    collector.record_success(Priority::High, 100_000_000, 1);
    collector.record_success(Priority::High, 150_000_000, 2);
    collector.record_success(Priority::Normal, 200_000_000, 3);
    collector.record_failure(4);
    collector.record_retry(5);
    collector.update_queue_sizes(vec![None, Some(20), Some(10), None], 6);
    let metrics = collector.get_metrics();
    assert_eq!(metrics.total_processed, 3);
    assert_eq!(metrics.processed_by_priority[2], 2);
    assert_eq!(metrics.failed_count, 1);
    assert_eq!(metrics.retry_count, 1);
    assert_eq!(metrics.queue_sizes[2], Some(10));
}

#[test]
fn test_alert_generation() {
    let mut collector = MetricsCollector::new(0);
    let thresholds = AlertThresholds {
        queue_size_warning: 5,
        queue_size_critical: 10,
        processing_time_warning_ms: 50,
        processing_time_critical_ms: 100,
        min_throughput_warning_bits: 10.0f64.to_bits(),
        error_rate_warning_bits: 1.0f64.to_bits(),
    };
    let checker = AlertChecker::new(thresholds);
    collector.update_queue_sizes(vec![None, None, Some(15), None], 1);
    collector.record_success(Priority::High, 150_000_000, 2);
    collector.record_failure(3);
    collector.record_failure(4);
    let alerts = checker.check_alerts(collector.get_metrics(), 5);
    assert!(!alerts.is_empty());
    let critical: Vec<_> = alerts.iter().filter(|a| a.severity == AlertSeverity::Critical).collect();
    assert!(!critical.is_empty());
}

#[test]
fn registry_test_agent_registration() {
    let mut registry = AgentRegistry::new();
    let agent = Agent {
        id: "test-1".to_string(),
        name: "Test Agent".to_string(),
        capabilities: vec![],
        status: AgentStatus::Idle,
        current_task: None,
        last_heartbeat_ms: 0,
    };
    assert!(registry.register(agent.clone()).is_ok());
    assert!(registry.deregister("test-1").is_ok());
}

#[test]
fn registry_get_after_register_and_not_after_deregister() {
    let mut registry = AgentRegistry::new();
    let agent = Agent::new("Worker".to_string(), vec!["code".to_string()], 5);
    let id = agent.id.clone();
    assert!(registry.register(agent).is_ok());
    assert_eq!(registry.get_agent(&id).unwrap().name, "Worker");
    assert!(registry.deregister(&id).is_ok());
    assert!(registry.get_agent(&id).is_err());
}

#[test]
fn test_message_validation() {
    let payload = TaskUpdatePayload {
        task_id: "".to_string(),
        status: TaskStatus::InProgress,
        progress: Some(Progress::from_bits(150.0f32.to_bits())),
        message: None,
    };
    let message = Message::new(
        MessageType::TaskUpdate,
        "sender-1".to_string(),
        MessagePayload::TaskUpdate(payload),
        0,
    );
    assert!(message.validate().is_err());
}

#[test]
fn progress_out_of_range_is_refused() {
    let payload = TaskUpdatePayload {
        task_id: "t-1".to_string(),
        status: TaskStatus::InProgress,
        progress: Some(Progress::from_bits(150.0f32.to_bits())),
        message: None,
    };
    let message = Message::new(MessageType::TaskUpdate, "s".to_string(), MessagePayload::TaskUpdate(payload), 0);
    assert_eq!(
        message.validate(),
        Err(NexaError::Protocol("Progress must be between 0 and 100".to_string()))
    );
    let ok = TaskUpdatePayload {
        task_id: "t-1".to_string(),
        status: TaskStatus::InProgress,
        progress: Some(Progress::from_bits(42.5f32.to_bits())),
        message: None,
    };
    let message = Message::new(MessageType::TaskUpdate, "s".to_string(), MessagePayload::TaskUpdate(ok), 0);
    assert!(message.validate().is_ok());
}

#[test]
fn test_default_config() {
    let config = ServerConfig::default();
    assert_eq!(config.bind_addr, "127.0.0.1:0");
    assert_eq!(config.max_connections, 1000);
    assert_eq!(config.connection_timeout_ms, 30_000);
}

#[test]
fn test_config_builder() {
    let config = ServerConfig::new()
        .with_bind_addr("0.0.0.0:8080".to_string())
        .with_max_connections(500)
        .with_connection_timeout(60_000);
    assert_eq!(config.bind_addr, "0.0.0.0:8080");
    assert_eq!(config.max_connections, 500);
    assert_eq!(config.connection_timeout_ms, 60_000);
}

#[test]
fn server_state_text_round_trip() {
    for st in [
        ServerState::Stopped,
        ServerState::Starting,
        ServerState::Running,
        ServerState::Stopping,
        ServerState::Maintenance,
    ] {
        let text = st.to_text();
        let back = ServerState::parse(&text).unwrap();
        assert_eq!(back.to_text(), text);
    }
    assert_eq!(ServerState::Error("disk".to_string()).to_text(), "Error: disk");
    match ServerState::parse("  Error ") {
        Ok(ServerState::Error(m)) => assert!(m.is_empty()),
        _ => panic!("bare Error names an error state"),
    }
    assert_eq!(
        ServerState::parse("Error: disk").unwrap_err(),
        NexaError::System("Invalid server state: Error: disk".to_string())
    );
}

#[test]
fn server_connection_accounting() {
    let mut server = Server::new(0);
    server.set_max_connections(2);
    assert!(server.handle_connection(1, 10).is_ok());
    assert!(server.handle_connection(2, 20).is_ok());
    assert_eq!(
        server.handle_connection(3, 30),
        Err(NexaError::System("Maximum connections reached".to_string()))
    );
    assert_eq!(server.metrics.total_connections, 3);
    assert_eq!(server.metrics.failed_connections, 1);
    assert_eq!(server.active_connections, 2);
    server.cleanup_connection(1);
    assert_eq!(server.active_connections, 1);
    assert_eq!(server.clients.len(), 1);
    let dropped = server.cleanup_stale_connections(30_021);
    assert_eq!(dropped, 1);
    assert_eq!(server.active_connections, 0);
}

#[test]
fn server_health_checks_in_order() {
    let mut server = Server::new(0);
    assert_eq!(
        server.check_server_health(false),
        Err(NexaError::System("Server process not running".to_string()))
    );
    assert!(server.check_server_health(true).is_ok());
    server.set_max_connections(0);
    assert_eq!(
        server.check_server_health(true),
        Err(NexaError::System("Server at maximum connections".to_string()))
    );
    server.set_max_connections(10);
    let _ = server.handle_connection(1, 0);
    server.metrics.failed_connections = 1;
    server.metrics.total_connections = 1;
    assert_eq!(
        server.check_server_health(true),
        Err(NexaError::System("High connection failure rate".to_string()))
    );
    server.update_metrics(500);
    assert_eq!(server.metrics.uptime_ms, 500);
}

#[test]
fn server_state_reported() {
    assert!(matches!(get_state(&ServerState::Running, Some("Stopped")), ServerState::Running));
    assert!(matches!(get_state(&ServerState::Stopped, Some(" Stopping\n")), ServerState::Stopping));
    assert!(matches!(get_state(&ServerState::Stopped, Some("garbage")), ServerState::Stopped));
    assert!(matches!(get_state(&ServerState::Maintenance, None), ServerState::Stopped));
    assert!(check_start(false).is_ok());
    assert_eq!(check_start(true), Err(NexaError::System("Server is already running".to_string())));
    assert_eq!(check_stop(false), Err(NexaError::System("Server is not running".to_string())));
    assert!(start_outcome(&ServerState::Running).is_ok());
    assert_eq!(
        start_outcome(&ServerState::Error("boom".to_string())),
        Err(NexaError::System("Server failed to start. Final state: Error(\"boom\")".to_string()))
    );
    assert_eq!(
        start_outcome(&ServerState::Stopped),
        Err(NexaError::System("Server failed to start. Final state: Stopped".to_string()))
    );
    assert!(ServerControl::check_health(&ServerState::Running));
    assert_eq!(ServerControl::get_active_connections(&ServerState::Running), 5);
    assert_eq!(ServerControl::get_active_connections(&ServerState::Stopped), 0);
    assert!(ServerControl::check_stop(true, &ServerState::Stopped).is_err());
    assert!(ServerControl::check_stop(true, &ServerState::Running).is_ok());
}

#[test]
fn websocket_server_lifecycle() {
    let mut server = websocket::Server::new(0);
    assert!(server.begin_stop().is_err());
    assert!(server.begin_start().is_ok());
    assert_eq!(
        server.begin_start().unwrap_err(),
        NexaError::Server("Server is not in stopped state".to_string())
    );
    server.finish_start();
    assert!(matches!(server.state, websocket::ServerState::Running));
    assert!(server.begin_stop().is_ok());
    server.finish_stop();
    assert!(matches!(server.state, websocket::ServerState::Stopped));
}

#[test]
fn websocket_state_text_any_case() {
    assert!(matches!(websocket::ServerState::parse("RUNNING"), Ok(websocket::ServerState::Running)));
    match websocket::ServerState::parse("Error:  Disk Full ") {
        Ok(websocket::ServerState::Error(m)) => assert_eq!(m, "disk full"),
        _ => panic!("error text parses"),
    }
    assert_eq!(
        websocket::ServerState::parse("paused").unwrap_err(),
        NexaError::Server("Invalid server state: paused".to_string())
    );
    assert_eq!(websocket::ServerState::Error("x".to_string()).to_text(), "error: x");
}

#[test]
fn websocket_health_sweep() {
    let mut server = websocket::Server::new(0);
    server.connection_opened(1, 0);
    server.connection_opened(2, 25_000);
    server.check_health(30_000);
    assert_eq!(server.active_connections, 1);
    assert_eq!(server.clients[0].client, 2);
    assert_eq!(server.metrics.uptime_ms, 30_000);
    assert!(server.check_capacity().is_ok());
}

#[test]
fn token_usage_since() {
    let mut tokens = TokenManager::new();
    tokens.track_usage(ModelType::GPT4, 100, 50, HashMap::new(), 10);
    tokens.track_usage(ModelType::Ollama, 7, 3, HashMap::new(), 20);
    assert_eq!(tokens.get_usage_since(15), vec![1]);
    assert_eq!(tokens.get_usage_since(0), vec![0, 1]);
    let spent: usize = tokens.records.iter().map(|r| r.prompt_tokens + r.completion_tokens).sum();
    assert_eq!(spent, 160);
}

#[test]
fn pool_decisions() {
    assert_eq!(plan_acquire(Some(0), 100, 50, 0, 1).unwrap(), Acquire::ReplaceIdle);
    assert_eq!(plan_acquire(Some(60), 100, 50, 0, 1).unwrap(), Acquire::ReuseIdle);
    assert_eq!(plan_acquire(None, 100, 50, 0, 1).unwrap(), Acquire::OpenNew);
    assert_eq!(
        plan_acquire(None, 100, 50, 1, 1),
        Err(NexaError::System("Connection pool exhausted".to_string()))
    );
    assert_eq!(cleanup_idle(&vec![0, 60, 200], 100, 50), vec![60]);
    assert!(should_retry(1, 3));
    assert!(!should_retry(3, 3));
    assert_eq!(final_failure(None), NexaError::System("Failed to get connection".to_string()));
}

#[test]
fn registry_stub_answers() {
    let stub = RegistryStub;
    assert_eq!(stub.list_agents().unwrap().len(), 0);
    assert_eq!(stub.get_task("x").unwrap_err(), NexaError::System("Not implemented".to_string()));
}

#[test]
fn pid_file_contents() {
    assert_eq!(pid_in_file(" 1234\n"), Some(1234));
    assert_eq!(pid_in_file("+7"), Some(7));
    assert_eq!(pid_in_file("abc"), None);
    assert_eq!(pid_in_file("-1"), None);
    assert_eq!(pid_in_file(""), None);
    assert_eq!(pid_in_file("4294967295"), Some(u32::MAX));
    assert_eq!(pid_in_file("4294967296"), None);
}

#[test]
fn websocket_state_from_lowered_text() {
    assert!(matches!(
        websocket::ServerState::parse_lowered("running", "RUNNING"),
        Ok(websocket::ServerState::Running)
    ));
    match websocket::ServerState::parse_lowered("error:  disk full ", "Error:  disk full ") {
        Ok(websocket::ServerState::Error(m)) => assert_eq!(m, "disk full"),
        other => panic!("unexpected {:?}", other),
    }
    match websocket::ServerState::parse_lowered("paused", "Paused") {
        Err(e) => assert_eq!(e, NexaError::Server("Invalid server state: Paused".to_string())),
        Ok(s) => panic!("unexpected {:?}", s),
    }
}

#[test]
fn buffer_pop_skips_expired_messages() {
    let mut buffer = MessageBuffer::new(BufferConfig { message_ttl_ms: 100, ..BufferConfig::default() });
    assert!(buffer.publish(message(1, vec![0], Priority::Normal, 0)).is_ok());
    assert!(buffer.publish(message(2, vec![0], Priority::Normal, 150)).is_ok());
    assert!(buffer.publish(message(3, vec![0], Priority::Normal, 160)).is_ok());
    assert!(buffer.publish(message(4, vec![0], Priority::Critical, 10)).is_ok());
    // At 200 the first Normal message and the Critical one have expired.
    assert_eq!(buffer.pop_any(200).unwrap().id, 2);
    assert_eq!(buffer.len(), 1);
    assert_eq!(buffer.pop(Priority::Normal, 200).unwrap().id, 3);
    assert!(buffer.pop_any(200).is_none());
    assert!(buffer.is_empty());
    // A message made after the time asked about is not live either.
    assert!(buffer.publish(message(5, vec![0], Priority::Low, 500)).is_ok());
    assert!(buffer.pop(Priority::Low, 400).is_none());
}

#[test]
fn websocket_frames_get_their_replies() {
    let ok = WsReply { status: "success".to_string(), code: 200, message: None, size: None };
    match websocket_step(WsFrame::Text("{\"a\":1}".to_string())) {
        WsStep::Send(r) => assert_eq!(r, ok),
        other => panic!("unexpected {:?}", other),
    }
    match websocket_step(WsFrame::Text("not json".to_string())) {
        WsStep::Send(r) => assert_eq!(r, ok),
        other => panic!("unexpected {:?}", other),
    }
    match websocket_step(WsFrame::Binary(12)) {
        WsStep::Send(r) => assert_eq!(
            r,
            WsReply {
                status: "success".to_string(),
                code: 200,
                message: Some("Binary message received".to_string()),
                size: Some(12)
            }
        ),
        other => panic!("unexpected {:?}", other),
    }
    assert!(matches!(websocket_step(WsFrame::Close(None)), WsStep::Stop));
    match websocket_step(WsFrame::Close(Some(CloseFrame { code: 1000, reason: "bye".to_string() }))) {
        WsStep::EchoCloseThenStop(f) => assert_eq!((f.code, f.reason.as_str()), (1000, "bye")),
        other => panic!("unexpected {:?}", other),
    }
    match websocket_step(WsFrame::Ping(vec![1, 2])) {
        WsStep::Pong(d) => assert_eq!(d, vec![1, 2]),
        other => panic!("unexpected {:?}", other),
    }
    assert!(matches!(websocket_step(WsFrame::Pong), WsStep::Continue));
    assert!(matches!(websocket_step(WsFrame::Frame), WsStep::Continue));
    match websocket_step(WsFrame::Failed("reset".to_string())) {
        WsStep::Fail(r, e) => {
            assert_eq!(
                r,
                WsReply {
                    status: "error".to_string(),
                    code: 500,
                    message: Some("WebSocket error: reset".to_string()),
                    size: None
                }
            );
            assert_eq!(e, NexaError::System("WebSocket message error: reset".to_string()));
        }
        other => panic!("unexpected {:?}", other),
    }
    assert_eq!(
        ws_send_error(&WsStep::Pong(vec![]), "closed"),
        NexaError::System("Failed to send pong: closed".to_string())
    );
    assert_eq!(
        ws_send_error(&WsStep::Continue, "closed"),
        NexaError::System("Failed to send response: closed".to_string())
    );
}
