use mcp_trace::{LogEntry, LogLevel, ProxyId, ProxyStats, Timestamp};

#[test]
fn test_proxy_id_creation() {
    let id1 = ProxyId::new();
    let id2 = ProxyId::new();

    // Each ProxyId should be unique
    assert_ne!(id1, id2);

    // Should be valid UUIDs
    assert!(uuid::Uuid::from_u128(id1.0).get_version().is_some());
    assert!(uuid::Uuid::from_u128(id2.0).get_version().is_some());
}

#[test]
fn test_proxy_id_default() {
    let id1 = ProxyId::default();
    let id2 = ProxyId::default();

    // Each default ProxyId should be unique
    assert_ne!(id1, id2);
}

#[test]
fn test_log_entry_creation() {
    let proxy_id = ProxyId::new();
    let message = "Test message".to_string();
    let level = LogLevel::Info;

    let entry = LogEntry::new(level.clone(), message.clone(), proxy_id.clone());

    assert_eq!(entry.level, level);
    assert_eq!(entry.message, message);
    assert_eq!(entry.proxy_id, proxy_id);
    assert!(entry.request_id.is_none());
    assert!(entry.metadata.is_none());

    // Should have valid UUID and timestamp
    assert!(uuid::Uuid::from_u128(entry.id).get_version().is_some());
    assert!(entry.timestamp.not_after(&Timestamp::now()));
}

#[test]
fn test_log_entry_with_request_id() {
    let proxy_id = ProxyId::new();
    let request_id = "test-request-123".to_string();

    let entry = LogEntry::new(LogLevel::Request, "Test".to_string(), proxy_id)
        .with_request_id(request_id.clone());

    assert_eq!(entry.request_id, Some(request_id));
}

#[test]
fn test_log_entry_with_metadata() {
    let proxy_id = ProxyId::new();
    let metadata: serde_json::Value =
        serde_json::from_str(r#"{"method": "test_method", "params": {"key": "value"}}"#).unwrap();

    let entry = LogEntry::new(LogLevel::Request, "Test".to_string(), proxy_id)
        .with_metadata(metadata.clone());

    assert_eq!(entry.metadata, Some(metadata));
}

#[test]
fn test_log_entry_chaining() {
    let proxy_id = ProxyId::new();
    let request_id = "test-request-123".to_string();
    let metadata: serde_json::Value = serde_json::from_str(r#"{"test": "data"}"#).unwrap();

    let entry = LogEntry::new(LogLevel::Request, "Test".to_string(), proxy_id)
        .with_request_id(request_id.clone())
        .with_metadata(metadata.clone());

    assert_eq!(entry.request_id, Some(request_id));
    assert_eq!(entry.metadata, Some(metadata));
}

#[test]
fn test_proxy_stats_default() {
    let stats = ProxyStats::default();

    assert_eq!(stats.total_requests, 0);
    assert_eq!(stats.successful_requests, 0);
    assert_eq!(stats.failed_requests, 0);
    assert_eq!(stats.active_connections, 0);
    assert_eq!(stats.bytes_transferred, 0);
    assert_eq!(stats.uptime.as_secs(), 0);

    // Should have a valid proxy ID
    assert!(uuid::Uuid::from_u128(stats.proxy_id.0).get_version().is_some());
}

#[test]
fn fresh_identifiers_are_random_uuids() {
    for _ in 0..50 {
        let id = ProxyId::new();
        let uuid = uuid::Uuid::from_u128(id.0);
        assert_eq!(uuid.get_version_num(), 4);
        assert_eq!(id.0 & 0xF000_C000_0000_0000_0000u128, 0x4000_8000_0000_0000_0000u128);
    }
}

#[test]
fn now_is_a_recent_time() {
    let t = Timestamp::now();
    // Later than 2020-01-01 and with sub-second nanoseconds.
    assert!(t.secs > 1_577_836_800);
    assert!(t.nanos < 1_000_000_000);
    let c = chrono::Utc::now();
    assert!((c.timestamp() - t.secs).abs() <= 2);
}

#[test]
fn timestamps_order_by_seconds_then_nanoseconds() {
    let a = Timestamp { secs: 10, nanos: 5 };
    let b = Timestamp { secs: 10, nanos: 6 };
    let c = Timestamp { secs: 11, nanos: 0 };
    assert!(a.not_after(&a));
    assert!(a.not_after(&b));
    assert!(!b.not_after(&a));
    assert!(b.not_after(&c));
    assert!(!c.not_after(&a));
}

#[test]
fn level_names() {
    assert_eq!(LogLevel::Debug.name(), "Debug");
    assert_eq!(LogLevel::Info.name(), "Info");
    assert_eq!(LogLevel::Warning.name(), "Warning");
    assert_eq!(LogLevel::Error.name(), "Error");
    assert_eq!(LogLevel::Request.name(), "Request");
    assert_eq!(LogLevel::Response.name(), "Response");
    assert_eq!(format!("{:?}", LogLevel::Request), LogLevel::Request.name());
}

#[test]
fn stats_for_proxy_are_zeroed() {
    let id = ProxyId::new();
    let stats = ProxyStats::for_proxy(id);
    assert_eq!(stats.proxy_id, id);
    assert_eq!(stats.total_requests, 0);
    assert_eq!(stats.uptime, std::time::Duration::from_secs(0));
}
