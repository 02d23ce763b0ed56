use mcp_trace::delivery::{
    INITIAL_RECONNECT_DELAY_MS, MAX_BUFFER_SIZE, MAX_RECONNECT_DELAY_MS,
};
use mcp_trace::{Delivery, IpcMessage, LogEntry, LogLevel, ProxyId, WorkerAction, WorkerEvent};

fn log(text: &str) -> IpcMessage {
    IpcMessage::LogEntry(LogEntry::new(LogLevel::Info, text.to_string(), ProxyId(1)))
}

fn text_of(message: &IpcMessage) -> String {
    match message {
        IpcMessage::LogEntry(entry) => entry.message.clone(),
        _ => panic!("expected a log entry"),
    }
}

fn buffered(d: &Delivery) -> Vec<String> {
    d.buffer.iter().map(text_of).collect()
}

#[test]
fn starts_disconnected_and_empty() {
    let d = Delivery::new();
    assert!(!d.connected);
    assert!(d.buffer.is_empty());
    assert_eq!(d.dropped, 0);
    assert_eq!(d.reconnect_delay_ms, 1_000);
    assert_eq!(INITIAL_RECONNECT_DELAY_MS, 1_000);
    assert_eq!(MAX_RECONNECT_DELAY_MS, 30_000);
    assert_eq!(MAX_BUFFER_SIZE, 10_000);
    assert!(d.head().is_none());
}

#[test]
fn reconnect_flushes_in_order() {
    let mut d = Delivery::new();
    for text in ["A", "B", "C"] {
        let action = d.step(WorkerEvent::Accepted(log(text)));
        assert!(matches!(action, WorkerAction::Idle));
    }
    assert_eq!(buffered(&d), vec!["A", "B", "C"]);
    let mut delivered = Vec::new();
    let mut action = d.step(WorkerEvent::Connected);
    while matches!(action, WorkerAction::FlushHead) {
        delivered.push(text_of(d.head().unwrap()));
        action = d.step(WorkerEvent::Flushed);
    }
    assert!(matches!(action, WorkerAction::Idle));
    assert_eq!(delivered, vec!["A", "B", "C"]);
    assert!(d.buffer.is_empty());
    assert!(d.connected);
}

#[test]
fn connected_worker_sends_at_once() {
    let mut d = Delivery::new();
    assert!(matches!(d.step(WorkerEvent::Connected), WorkerAction::Idle));
    match d.step(WorkerEvent::Accepted(log("now"))) {
        WorkerAction::Send(message) => assert_eq!(text_of(&message), "now"),
        other => panic!("expected Send, got {:?}", other),
    }
    assert!(d.buffer.is_empty());
}

#[test]
fn failed_send_buffers_and_disconnects() {
    let mut d = Delivery::new();
    d.step(WorkerEvent::ConnectFailed);
    d.step(WorkerEvent::Connected);
    assert_eq!(d.reconnect_delay_ms, 1_000);
    let action = d.step(WorkerEvent::SendFailed(log("lost?")));
    assert!(matches!(action, WorkerAction::Idle));
    assert!(!d.connected);
    assert_eq!(d.reconnect_delay_ms, 1_000);
    assert_eq!(buffered(&d), vec!["lost?"]);
}

#[test]
fn failed_flush_keeps_the_head() {
    let mut d = Delivery::new();
    for text in ["A", "B", "C"] {
        d.step(WorkerEvent::Accepted(log(text)));
    }
    assert!(matches!(d.step(WorkerEvent::Connected), WorkerAction::FlushHead));
    assert!(matches!(d.step(WorkerEvent::Flushed), WorkerAction::FlushHead));
    assert_eq!(text_of(d.head().unwrap()), "B");
    assert!(matches!(d.step(WorkerEvent::FlushFailed), WorkerAction::Idle));
    assert!(!d.connected);
    assert_eq!(buffered(&d), vec!["B", "C"]);
    d.step(WorkerEvent::Accepted(log("D")));
    assert_eq!(buffered(&d), vec!["B", "C", "D"]);
}

#[test]
fn overflow_drops_the_newest() {
    let mut d = Delivery::new();
    for i in 0..(MAX_BUFFER_SIZE + 5) {
        let action = d.step(WorkerEvent::Accepted(log(&format!("m{}", i))));
        assert!(matches!(action, WorkerAction::Idle));
    }
    assert_eq!(d.buffer.len(), MAX_BUFFER_SIZE);
    assert_eq!(d.dropped, 5);
    assert_eq!(text_of(&d.buffer[0]), "m0");
    assert_eq!(text_of(&d.buffer[MAX_BUFFER_SIZE - 1]), "m9999");
    d.step(WorkerEvent::Overflowed(log("late")));
    assert_eq!(d.buffer.len(), MAX_BUFFER_SIZE);
    assert_eq!(d.dropped, 6);
}

#[test]
fn overflowed_messages_are_buffered_even_when_connected() {
    let mut d = Delivery::new();
    d.step(WorkerEvent::Connected);
    let action = d.step(WorkerEvent::Overflowed(log("spill")));
    assert!(matches!(action, WorkerAction::Idle));
    assert_eq!(buffered(&d), vec!["spill"]);
}

#[test]
fn backoff_doubles_up_to_the_maximum() {
    let mut d = Delivery::new();
    let mut seen = vec![d.reconnect_delay_ms];
    for _ in 0..7 {
        assert!(matches!(d.step(WorkerEvent::ConnectFailed), WorkerAction::Idle));
        seen.push(d.reconnect_delay_ms);
    }
    assert_eq!(seen, vec![1_000, 2_000, 4_000, 8_000, 16_000, 30_000, 30_000, 30_000]);
    d.step(WorkerEvent::Connected);
    assert_eq!(d.reconnect_delay_ms, 1_000);
}

#[test]
fn attempts_wait_for_the_delay() {
    let mut d = Delivery::new();
    assert!(matches!(
        d.step(WorkerEvent::Tick { since_last_attempt_ms: 999 }),
        WorkerAction::Idle
    ));
    assert!(matches!(
        d.step(WorkerEvent::Tick { since_last_attempt_ms: 1_000 }),
        WorkerAction::Connect
    ));
    d.step(WorkerEvent::ConnectFailed);
    assert!(matches!(
        d.step(WorkerEvent::Tick { since_last_attempt_ms: 1_999 }),
        WorkerAction::Idle
    ));
    assert!(matches!(
        d.step(WorkerEvent::Tick { since_last_attempt_ms: 2_000 }),
        WorkerAction::Connect
    ));
    d.step(WorkerEvent::Connected);
    assert!(matches!(
        d.step(WorkerEvent::Tick { since_last_attempt_ms: 1_000_000 }),
        WorkerAction::Idle
    ));
}

#[test]
fn stray_flush_reports_change_nothing() {
    let mut d = Delivery::new();
    d.step(WorkerEvent::Accepted(log("A")));
    assert!(matches!(d.step(WorkerEvent::Flushed), WorkerAction::Idle));
    assert_eq!(buffered(&d), vec!["A"]);
    d.step(WorkerEvent::Connected);
    d.step(WorkerEvent::Flushed);
    assert!(matches!(d.step(WorkerEvent::Flushed), WorkerAction::Idle));
    assert!(d.buffer.is_empty());
}

#[test]
fn room_in_the_drop_counter() {
    let mut d = Delivery::new();
    assert!(d.has_room(&WorkerEvent::Accepted(log("a"))));
    d.dropped = u64::MAX;
    assert!(!d.has_room(&WorkerEvent::Accepted(log("a"))));
    assert!(!d.has_room(&WorkerEvent::Overflowed(log("a"))));
    assert!(!d.has_room(&WorkerEvent::SendFailed(log("a"))));
    assert!(d.has_room(&WorkerEvent::Connected));
    assert!(d.has_room(&WorkerEvent::ConnectFailed));
    assert!(d.has_room(&WorkerEvent::Flushed));
    assert!(d.has_room(&WorkerEvent::FlushFailed));
    assert!(d.has_room(&WorkerEvent::Tick { since_last_attempt_ms: 0 }));
}
