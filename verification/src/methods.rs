//! The method names of the protocol that the proxied server speaks.

use vstd::prelude::*;

verus! {

pub const INITIALIZE: &'static str = "initialize";

pub const INITIALIZED: &'static str = "initialized";

pub const LIST_TOOLS: &'static str = "tools/list";

pub const CALL_TOOL: &'static str = "tools/call";

pub const LIST_RESOURCES: &'static str = "resources/list";

pub const READ_RESOURCE: &'static str = "resources/read";

pub const LIST_PROMPTS: &'static str = "prompts/list";

pub const GET_PROMPT: &'static str = "prompts/get";

pub const COMPLETION: &'static str = "completion/complete";

pub const LOGGING: &'static str = "logging/setLevel";

pub const ROOTS_LIST: &'static str = "roots/list";

pub const SAMPLING: &'static str = "sampling/createMessage";

} // verus!
