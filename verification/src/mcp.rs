//! The JSON-RPC messages that the proxied server speaks, as far as the
//! proxy looks at them.

use vstd::prelude::*;

verus! {

/// A JSON-RPC message of one of the three kinds.
#[derive(Debug, Clone)]
pub enum JsonRpcMessage {
    Request(JsonRpcRequest),
    Response(JsonRpcResponse),
    Notification(JsonRpcNotification),
}

/// A call that expects a response.
#[derive(Debug, Clone)]
pub struct JsonRpcRequest {
    pub jsonrpc: String,
    pub id: serde_json::Value,
    pub method: String,
    pub params: Option<serde_json::Value>,
}

/// The answer to a request.
#[derive(Debug, Clone)]
pub struct JsonRpcResponse {
    pub jsonrpc: String,
    pub id: serde_json::Value,
    pub result: Option<serde_json::Value>,
    pub error: Option<JsonRpcError>,
}

/// A call that expects no response.
#[derive(Debug, Clone)]
pub struct JsonRpcNotification {
    pub jsonrpc: String,
    pub method: String,
    pub params: Option<serde_json::Value>,
}

/// The error of a response.
#[derive(Debug, Clone)]
pub struct JsonRpcError {
    pub code: i32,
    pub message: String,
    pub data: Option<serde_json::Value>,
}

impl JsonRpcMessage {
    /// The method called: requests and notifications have one, responses
    /// have none.
    pub open spec fn spec_method(self) -> Option<Seq<char>> {
        match self {
            JsonRpcMessage::Request(request) => Some(request.method@),
            JsonRpcMessage::Notification(notification) => Some(notification.method@),
            JsonRpcMessage::Response(_) => None,
        }
    }

    /// The identifier: requests and responses have one, notifications have
    /// none.
    pub open spec fn spec_id(self) -> Option<serde_json::Value> {
        match self {
            JsonRpcMessage::Request(request) => Some(request.id),
            JsonRpcMessage::Response(response) => Some(response.id),
            JsonRpcMessage::Notification(_) => None,
        }
    }

    /// The method called, if the message has one.
    pub fn get_method(&self) -> (method: Option<&str>)
        ensures
            method is Some == self.spec_method() is Some,
            method matches Some(name) ==> self.spec_method() == Some(name@),
    {
        match self {
            JsonRpcMessage::Request(request) => Some(request.method.as_str()),
            JsonRpcMessage::Notification(notification) => Some(notification.method.as_str()),
            JsonRpcMessage::Response(_) => None,
        }
    }

    /// The identifier, if the message has one.
    pub fn get_id(&self) -> (id: Option<&serde_json::Value>)
        ensures
            id is Some == self.spec_id() is Some,
            id matches Some(value) ==> self.spec_id() == Some(*value),
    {
        match self {
            JsonRpcMessage::Request(request) => Some(&request.id),
            JsonRpcMessage::Response(response) => Some(&response.id),
            JsonRpcMessage::Notification(_) => None,
        }
    }
}

} // verus!
