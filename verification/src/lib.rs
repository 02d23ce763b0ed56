//! Observation of line-oriented traffic between a client and a proxied
//! subprocess: the records that describe it, the monitor's state machine,
//! and the decisions of the proxy's delivery worker and stdio bridge.

pub mod app;
pub mod app_detail;
pub mod app_events;
pub mod app_nav;
pub mod app_proxies;
pub mod app_search;
pub mod bridge;
pub mod cli;
pub mod delivery;
pub mod detail;
pub mod driver;
pub mod json;
pub mod launch;
pub mod laws;
pub mod listing;
pub mod mcp;
pub mod messages;
pub mod methods;
pub mod model;
pub mod nav;
pub mod platform;
pub mod text;
pub mod totals;
pub mod types;
pub mod wire;

pub use app::App;
pub use bridge::{Bridge, BridgeAction, BridgeEvent, ChildExit, LineRead, Stream};
pub use cli::{Args, Cli, Commands, Launch, MonitorArgs};
pub use delivery::{Delivery, WorkerAction, WorkerEvent};
pub use driver::{dispatch_key, event_for, Flow, KeyCode, KeyPress};
pub use launch::{plan_launch, LaunchError, LaunchPlan, ProxyArgs};
pub use mcp::{
    JsonRpcError, JsonRpcMessage, JsonRpcNotification, JsonRpcRequest, JsonRpcResponse,
};
pub use messages::{IpcEnvelope, IpcMessage};
pub use model::{AppEvent, AppView, MAX_LOGS};
pub use nav::{FocusArea, ListState, NavigationMode, TabStates, TabType};
pub use platform::Timestamp;
pub use types::{
    LogEntry, LogLevel, MCPError, MCPRequest, MCPResponse, ProxyId, ProxyInfo, ProxyStats,
    ProxyStatus,
};
