//! The records exchanged between a proxy and the monitor.

use vstd::prelude::*;
use crate::platform::{fresh_uuid_bits, is_random_uuid, whole_seconds, Timestamp};

verus! {

/// Identifies one proxy run: the 128 bits of a random UUID.
#[derive(Debug, Clone, Copy, PartialEq, Eq, Hash, Structural)]
pub struct ProxyId(pub u128);

impl ProxyId {
    /// A fresh random identifier.
    pub fn new() -> (id: Self)
        ensures
            is_random_uuid(id.0),
    {
        ProxyId(fresh_uuid_bits())
    }
}

impl Default for ProxyId {
    fn default() -> (id: Self)
        ensures
            is_random_uuid(id.0),
    {
        ProxyId::new()
    }
}

/// Severity or direction of a log entry.
#[derive(Debug, Clone, Copy, PartialEq, Eq, Hash, Structural)]
pub enum LogLevel {
    Debug,
    Info,
    Warning,
    Error,
    Request,
    Response,
}

impl LogLevel {
    /// The variant's name as text.
    pub open spec fn spec_name(self) -> Seq<char> {
        match self {
            LogLevel::Debug => "Debug"@,
            LogLevel::Info => "Info"@,
            LogLevel::Warning => "Warning"@,
            LogLevel::Error => "Error"@,
            LogLevel::Request => "Request"@,
            LogLevel::Response => "Response"@,
        }
    }

    /// The variant's name as text.
    pub fn name(&self) -> (s: &'static str)
        ensures
            s@ == self.spec_name(),
    {
        match self {
            LogLevel::Debug => "Debug",
            LogLevel::Info => "Info",
            LogLevel::Warning => "Warning",
            LogLevel::Error => "Error",
            LogLevel::Request => "Request",
            LogLevel::Response => "Response",
        }
    }
}

/// One observed line of traffic or diagnostic message.
#[derive(Debug, Clone)]
pub struct LogEntry {
    pub id: u128,
    pub timestamp: Timestamp,
    pub level: LogLevel,
    pub message: String,
    pub proxy_id: ProxyId,
    pub request_id: Option<String>,
    pub metadata: Option<serde_json::Value>,
}

impl LogEntry {
    /// A new entry stamped with a fresh identifier and the current time.
    pub fn new(level: LogLevel, message: String, proxy_id: ProxyId) -> (entry: Self)
        ensures
            entry.level == level,
            entry.message == message,
            entry.proxy_id == proxy_id,
            entry.request_id is None,
            entry.metadata is None,
            is_random_uuid(entry.id),
            entry.timestamp.secs >= 0,
            entry.timestamp.nanos < 1_000_000_000,
    {
        LogEntry {
            id: fresh_uuid_bits(),
            timestamp: Timestamp::now(),
            level,
            message,
            proxy_id,
            request_id: None,
            metadata: None,
        }
    }

    /// The same entry carrying `request_id`.
    pub fn with_request_id(self, request_id: String) -> (entry: Self)
        ensures
            entry == (LogEntry { request_id: Some(request_id), ..self }),
    {
        let mut entry = self;
        entry.request_id = Some(request_id);
        entry
    }

    /// The same entry carrying `metadata`.
    pub fn with_metadata(self, metadata: serde_json::Value) -> (entry: Self)
        ensures
            entry == (LogEntry { metadata: Some(metadata), ..self }),
    {
        let mut entry = self;
        entry.metadata = Some(metadata);
        entry
    }
}

/// Traffic counters of one proxy.
#[derive(Debug, Clone)]
pub struct ProxyStats {
    pub proxy_id: ProxyId,
    pub total_requests: u64,
    pub successful_requests: u64,
    pub failed_requests: u64,
    pub active_connections: u32,
    pub uptime: std::time::Duration,
    pub bytes_transferred: u64,
}

impl ProxyStats {
    /// All counters at zero.
    pub open spec fn is_zeroed(self) -> bool {
        &&& self.total_requests == 0
        &&& self.successful_requests == 0
        &&& self.failed_requests == 0
        &&& self.active_connections == 0
        &&& self.bytes_transferred == 0
        &&& self.uptime == whole_seconds(0)
    }

    /// Zeroed counters attributed to `proxy_id`.
    pub fn for_proxy(proxy_id: ProxyId) -> (stats: Self)
        ensures
            stats.proxy_id == proxy_id,
            stats.is_zeroed(),
    {
        ProxyStats {
            proxy_id,
            total_requests: 0,
            successful_requests: 0,
            failed_requests: 0,
            active_connections: 0,
            uptime: std::time::Duration::from_secs(0),
            bytes_transferred: 0,
        }
    }
}

impl Default for ProxyStats {
    /// Zeroed counters under a fresh random proxy identifier.
    fn default() -> (stats: Self)
        ensures
            stats.is_zeroed(),
            is_random_uuid(stats.proxy_id.0),
    {
        ProxyStats::for_proxy(ProxyId::new())
    }
}

/// Life-cycle state of a proxy.
#[derive(Debug, Clone)]
pub enum ProxyStatus {
    Starting,
    Running,
    Stopped,
    Error(String),
}

/// What the monitor knows about one proxy.
#[derive(Debug, Clone)]
pub struct ProxyInfo {
    pub id: ProxyId,
    pub name: String,
    pub listen_address: String,
    pub target_command: Vec<String>,
    pub status: ProxyStatus,
    pub stats: ProxyStats,
}

/// A request as relayed to the proxied server.
#[derive(Debug, Clone)]
pub struct MCPRequest {
    pub id: String,
    pub method: String,
    pub params: Option<serde_json::Value>,
}

/// A response as relayed from the proxied server.
#[derive(Debug, Clone)]
pub struct MCPResponse {
    pub id: String,
    pub result: Option<serde_json::Value>,
    pub error: Option<MCPError>,
}

/// The error part of a response.
#[derive(Debug, Clone)]
pub struct MCPError {
    pub code: i32,
    pub message: String,
    pub data: Option<serde_json::Value>,
}

} // verus!
