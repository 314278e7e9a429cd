//! A JSON-RPC style tool server for version-control operations: request
//! and response envelopes, a dispatcher over a fixed table of methods, a
//! repository backend adapter and a small relational store of pull-request
//! and worktree records. Beside it: goal events and a voice agent.

mod agent;
mod backend;
mod events;
mod json;
mod laws;
mod protocol;
mod server;
mod store;

pub use agent::BpgtAgent;
pub use events::{
    AntEngine, AntError, GoalStatus, SystemEvent, VersionedSystemEvent,
    SYSTEM_EVENT_SCHEMA_VERSION,
};
pub use json::Json;
pub use laws::{
    is_known_method, lemma_create_pr_needs_title, lemma_unknown_method_not_found,
    lemma_worktree_create_needs_fields,
};
pub use protocol::{
    ErrorKind, FileStatus, McpError, McpRequest, McpResponse, PrRecord, ToolDescriptor, ToolResult,
    ToolSchema, WorktreeRecord, PROTOCOL_VERSION,
};
pub use server::{
    choose_signer, commit_parents, plan_worktree, status_result, store_path, ConnEvent, ConnState,
    Frame, GitForgeMcp, Signer, StatusScope, WorktreePlan,
};
pub use store::collect_rows;
