use kodegend_client::protocol::{Action, Exchange, Step};
use kodegend_client::query::{
    find_service, get_all_services, get_service, get_tool_history, get_usage_stats,
    query_daemon, status_response, StatusQuery,
};
use kodegend_client::IpcError;
use kodegend_protocol_ipc::{
    AggregatedToolHistory, AggregatedUsageStats, GlobalAggregates, ServerStats,
    ServerToolHistory, ServiceStateKind, ServiceStatus, StatusResponse, ToolCallRecord,
    UsageStatsSnapshot,
};
use std::collections::HashMap;
use std::time::Duration;

fn service(name: &str, pid: u32) -> ServiceStatus {
    ServiceStatus {
        name: name.to_string(),
        state: ServiceStateKind::Running,
        pid: Some(pid),
        uptime: Some(Duration::new(90, 500)),
        restart_count: 2,
        max_restarts: Some(5),
        next_restart_delay: None,
        success_window_remaining: None,
        failure_reason: None,
    }
}

fn response_payload(names: &[(&str, u32)]) -> Vec<u8> {
    let response = StatusResponse {
        daemon_running: true,
        daemon_pid: 4242,
        daemon_uptime: Duration::new(3600, 0),
        services: names.iter().map(|(name, pid)| service(name, *pid)).collect(),
    };
    serde_json::to_vec(&response).unwrap()
}

/// The two writes with which the exchange for a query begins.
fn first_writes(query: &StatusQuery) -> (Vec<u8>, Vec<u8>) {
    match query_daemon(query) {
        Step::Next(exchange, Action::Write(prefix)) => match exchange.step(Ok(Vec::new())) {
            Step::Next(Exchange::SendingPayload, Action::Write(payload)) => (prefix, payload),
            _ => panic!("the payload follows the prefix"),
        },
        _ => panic!("a query is sent"),
    }
}

#[test]
fn query_for_all_services_on_the_wire() {
    let (prefix, payload) = first_writes(&StatusQuery::All);
    assert_eq!(payload, b"\"All\"".to_vec());
    assert_eq!(prefix, vec![5, 0, 0, 0]);
}

#[test]
fn query_for_one_service_on_the_wire() {
    let (prefix, payload) = first_writes(&StatusQuery::Service("x".to_string()));
    assert_eq!(payload, b"{\"Service\":\"x\"}".to_vec());
    assert_eq!(prefix, vec![15, 0, 0, 0]);
}

#[test]
fn query_for_usage_stats_on_the_wire() {
    let (prefix, payload) = first_writes(&StatusQuery::UsageStats("conn-1".to_string()));
    assert_eq!(payload, b"{\"UsageStats\":\"conn-1\"}".to_vec());
    assert_eq!(prefix, vec![23, 0, 0, 0]);
}

#[test]
fn query_for_tool_history_on_the_wire() {
    let (prefix, payload) = first_writes(&StatusQuery::ToolHistory("a\"b".to_string()));
    assert_eq!(payload, b"{\"ToolHistory\":\"a\\\"b\"}".to_vec());
    assert_eq!(prefix, vec![22, 0, 0, 0]);
}

#[test]
fn query_is_what_the_daemon_reads() {
    let (_, payload) = first_writes(&StatusQuery::Service("web".to_string()));
    let read: kodegend_protocol_ipc::StatusQuery = serde_json::from_slice(&payload).unwrap();
    match read {
        kodegend_protocol_ipc::StatusQuery::Service(name) => assert_eq!(name, "web"),
        _ => panic!("a query for a service stays one"),
    }
}

#[test]
fn query_over_the_limit_is_refused_before_any_write() {
    let name = "n".repeat(1_048_576);
    match query_daemon(&StatusQuery::Service(name)) {
        Step::Done(Err(IpcError::MessageTooLarge(len))) => {
            assert_eq!(len, 1_048_576 + "{\"Service\":\"\"}".len())
        }
        _ => panic!("a query of more than the limit is not sent"),
    }
}

#[test]
fn status_response_is_read_from_its_payload() {
    let payload = response_payload(&[("web", 10), ("db", 11)]);
    let response = status_response(&payload).unwrap();
    assert!(response.daemon_running);
    assert_eq!(response.daemon_pid, 4242);
    assert_eq!(response.daemon_uptime, Duration::new(3600, 0));
    assert_eq!(response.services.len(), 2);
    assert_eq!(response.services[1].name, "db");
    assert_eq!(response.services[1].uptime, Some(Duration::new(90, 500)));
}

#[test]
fn payload_of_the_wrong_shape_is_a_failed_deserialization() {
    assert!(matches!(status_response(b"\"All\""), Err(IpcError::DeserializationFailed(_))));
    assert!(matches!(status_response(b""), Err(IpcError::DeserializationFailed(_))));
    assert!(matches!(get_all_services(b"{}"), Err(IpcError::DeserializationFailed(_))));
    assert!(matches!(get_service(b"[1, 2", "x"), Err(IpcError::DeserializationFailed(_))));
    assert!(matches!(get_usage_stats(b"{}"), Err(IpcError::DeserializationFailed(_))));
    assert!(matches!(get_tool_history(b"null"), Err(IpcError::DeserializationFailed(_))));
    let payload = response_payload(&[("web", 10)]);
    assert!(matches!(get_tool_history(&payload), Err(IpcError::DeserializationFailed(_))));
}

#[test]
fn all_services_come_in_the_daemon_s_order() {
    let payload = response_payload(&[("web", 10), ("db", 11), ("cache", 12)]);
    let services = get_all_services(&payload).unwrap();
    let names: Vec<&str> = services.iter().map(|service| service.name.as_str()).collect();
    assert_eq!(names, vec!["web", "db", "cache"]);
    assert!(get_all_services(&response_payload(&[])).unwrap().is_empty());
}

#[test]
fn service_missing_from_the_response_is_not_found() {
    let payload = response_payload(&[("web", 10), ("db", 11)]);
    match get_service(&payload, "x") {
        Err(IpcError::ServiceNotFound(name)) => assert_eq!(name, "x"),
        _ => panic!("no service is called x"),
    }
    match get_service(&response_payload(&[]), "x") {
        Err(IpcError::ServiceNotFound(name)) => assert_eq!(name, "x"),
        _ => panic!("an empty list holds no service"),
    }
}

#[test]
fn service_is_found_by_its_name() {
    let payload = response_payload(&[("web", 10), ("db", 11), ("cache", 12)]);
    let found = get_service(&payload, "db").unwrap();
    assert_eq!(found.name, "db");
    assert_eq!(found.pid, Some(11));
    assert_eq!(found.restart_count, 2);
    let found = get_service(&payload, "cache").unwrap();
    assert_eq!(found.pid, Some(12));
}

#[test]
fn first_of_two_services_of_one_name_is_found() {
    let listed = vec![service("web", 1), service("db", 2), service("db", 3)];
    let found = find_service(listed, "db").unwrap();
    assert_eq!(found.pid, Some(2));
}

#[test]
fn service_names_are_told_apart_exactly() {
    let payload = response_payload(&[("web", 10), ("Web", 11), ("web ", 12)]);
    assert_eq!(get_service(&payload, "Web").unwrap().pid, Some(11));
    assert_eq!(get_service(&payload, "web ").unwrap().pid, Some(12));
    assert!(matches!(get_service(&payload, "we"), Err(IpcError::ServiceNotFound(_))));
    assert!(matches!(get_service(&payload, ""), Err(IpcError::ServiceNotFound(_))));
    assert!(matches!(
        find_service(Vec::new(), "web"),
        Err(IpcError::ServiceNotFound(_))
    ));
}

#[test]
fn usage_stats_are_read_from_their_payload() {
    let mut tool_counts: HashMap<String, u64> = HashMap::new();
    tool_counts.insert("read_file".to_string(), 3);
    let stats = AggregatedUsageStats {
        aggregated_at: 1_700_000_000,
        servers_queried: 2,
        servers_failed: 1,
        servers: vec![ServerStats {
            category: "filesystem".to_string(),
            port: 30_438,
            available: true,
            error: None,
            stats: UsageStatsSnapshot {
                total_tool_calls: 3,
                successful_calls: 2,
                failed_calls: 1,
                tool_counts,
                first_used: 10,
                last_used: 20,
                total_sessions: 1,
            },
        }],
        global: GlobalAggregates {
            total_tool_calls: 3,
            successful_calls: 2,
            failed_calls: 1,
            success_rate: 0.5,
            total_sessions: 1,
            categories_active: 1,
        },
    };
    let payload = serde_json::to_vec(&stats).unwrap();
    let read = get_usage_stats(&payload).unwrap();
    assert_eq!(read.aggregated_at, 1_700_000_000);
    assert_eq!(read.servers_queried, 2);
    assert_eq!(read.servers.len(), 1);
    assert_eq!(read.servers[0].port, 30_438);
    assert_eq!(read.servers[0].stats.tool_counts.get("read_file"), Some(&3));
    assert_eq!(read.global.success_rate, 0.5);
}

#[test]
fn tool_history_is_read_from_its_payload() {
    let history = AggregatedToolHistory {
        aggregated_at: 1_700_000_000,
        connection_id: "conn-1".to_string(),
        servers_queried: 1,
        servers_failed: 0,
        servers: vec![ServerToolHistory {
            category: "git".to_string(),
            port: 30_450,
            available: true,
            error: None,
            calls: vec![ToolCallRecord {
                timestamp: "2024-01-01T00:00:00Z".to_string(),
                tool_name: "git_status".to_string(),
                args_json: "{}".to_string(),
                output_json: "[]".to_string(),
                duration_ms: Some(12),
            }],
        }],
        total_calls: 1,
    };
    let payload = serde_json::to_vec(&history).unwrap();
    let read = get_tool_history(&payload).unwrap();
    assert_eq!(read.connection_id, "conn-1");
    assert_eq!(read.total_calls, 1);
    assert_eq!(read.servers[0].calls[0].tool_name, "git_status");
    assert_eq!(read.servers[0].calls[0].duration_ms, Some(12));
}
