//! The messages that travel between proxies and the monitor, and the
//! envelope that carries each of them.

use vstd::prelude::*;
use crate::platform::{fresh_uuid_bits, is_random_uuid, Timestamp};
use crate::types::{LogEntry, ProxyId, ProxyInfo, ProxyStats};

verus! {

/// A message between a proxy and the monitor.
#[derive(Debug, Clone)]
#[allow(inconsistent_fields)]
pub enum IpcMessage {
    ProxyStarted(ProxyInfo),
    ProxyStopped(ProxyId),
    LogEntry(LogEntry),
    StatsUpdate(ProxyStats),
    GetStatus(ProxyId),
    GetLogs { proxy_id: ProxyId, limit: Option<usize> },
    Shutdown(ProxyId),
    Ping,
    Pong,
    Error { message: String, proxy_id: Option<ProxyId> },
}

/// One message with the time it was sent and an identifier for correlating
/// replies. One envelope is one record on the wire.
#[derive(Debug, Clone)]
pub struct IpcEnvelope {
    pub message: IpcMessage,
    pub timestamp: Timestamp,
    pub correlation_id: Option<u128>,
}

impl IpcEnvelope {
    /// Wraps `message` for sending: stamped with the current time and a
    /// fresh correlation identifier.
    pub fn seal(message: IpcMessage) -> (envelope: Self)
        ensures
            envelope.message == message,
            envelope.correlation_id matches Some(id) && is_random_uuid(id),
            envelope.timestamp.secs >= 0,
            envelope.timestamp.nanos < 1_000_000_000,
    {
        IpcEnvelope {
            message,
            timestamp: Timestamp::now(),
            correlation_id: Some(fresh_uuid_bits()),
        }
    }
}

} // verus!
