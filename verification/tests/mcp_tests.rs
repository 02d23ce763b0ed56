use mcp_trace::methods;
use mcp_trace::{
    IpcEnvelope, IpcMessage, JsonRpcMessage, JsonRpcNotification, JsonRpcRequest, JsonRpcResponse,
};

fn string(text: &str) -> serde_json::Value {
    serde_json::Value::String(text.to_string())
}

#[test]
fn requests_have_method_and_id() {
    let message = JsonRpcMessage::Request(JsonRpcRequest {
        jsonrpc: "2.0".to_string(),
        id: string("123"),
        method: "tools/list".to_string(),
        params: None,
    });
    assert_eq!(message.get_method(), Some("tools/list"));
    assert_eq!(message.get_id(), Some(&string("123")));
}

#[test]
fn responses_have_an_id_only() {
    let message = JsonRpcMessage::Response(JsonRpcResponse {
        jsonrpc: "2.0".to_string(),
        id: serde_json::Value::from(7),
        result: Some(serde_json::Value::Bool(true)),
        error: None,
    });
    assert_eq!(message.get_method(), None);
    assert_eq!(message.get_id(), Some(&serde_json::Value::from(7)));
}

#[test]
fn notifications_have_a_method_only() {
    let message = JsonRpcMessage::Notification(JsonRpcNotification {
        jsonrpc: "2.0".to_string(),
        method: "initialized".to_string(),
        params: None,
    });
    assert_eq!(message.get_method(), Some("initialized"));
    assert_eq!(message.get_id(), None);
}

#[test]
fn sealed_envelopes_carry_the_message() {
    let first = IpcEnvelope::seal(IpcMessage::Ping);
    let second = IpcEnvelope::seal(IpcMessage::Pong);
    assert!(matches!(first.message, IpcMessage::Ping));
    assert!(matches!(second.message, IpcMessage::Pong));
    assert!(first.timestamp.not_after(&second.timestamp));
    let a = first.correlation_id.unwrap();
    let b = second.correlation_id.unwrap();
    assert_ne!(a, b);
    assert_eq!(uuid::Uuid::from_u128(a).get_version_num(), 4);
}

#[test]
fn method_names() {
    assert_eq!(methods::INITIALIZE, "initialize");
    assert_eq!(methods::INITIALIZED, "initialized");
    assert_eq!(methods::LIST_TOOLS, "tools/list");
    assert_eq!(methods::CALL_TOOL, "tools/call");
    assert_eq!(methods::LIST_RESOURCES, "resources/list");
    assert_eq!(methods::READ_RESOURCE, "resources/read");
    assert_eq!(methods::LIST_PROMPTS, "prompts/list");
    assert_eq!(methods::GET_PROMPT, "prompts/get");
    assert_eq!(methods::COMPLETION, "completion/complete");
    assert_eq!(methods::LOGGING, "logging/setLevel");
    assert_eq!(methods::ROOTS_LIST, "roots/list");
    assert_eq!(methods::SAMPLING, "sampling/createMessage");
}
