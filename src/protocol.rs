use crate::json::Json;
use vstd::prelude::*;
use vstd::string::*;

verus! {

/// The protocol version carried by every envelope.
pub const PROTOCOL_VERSION: &'static str = "2.0";

/// A structured error as it travels in a response.
#[derive(Debug)]
pub struct McpError {
    pub code: i32,
    pub message: String,
}

/// The failure sites of the server, each with its stable wire code.
#[derive(Clone, Copy, Debug, PartialEq, Eq, Structural)]
pub enum ErrorKind {
    ParseError,
    MethodNotFound,
    InvalidParams,
    RepositoryNotFound,
    StatusFailed,
    IndexOpen,
    IndexWrite,
    TreeWrite,
    TreeLookup,
    SignatureFailed,
    CommitFailed,
    StoreLockPoisoned,
    PrInsert,
    PrQueryPrepare,
    PrQuery,
    PrRow,
    WorktreeDir,
    HeadUnresolved,
    BranchCreate,
    WorktreeCreate,
    WorktreeInsert,
    WorktreeQueryPrepare,
    WorktreeQuery,
    WorktreeRow,
}

impl ErrorKind {
    pub open spec fn spec_code(self) -> int {
        match self {
            ErrorKind::ParseError => -32700,
            ErrorKind::MethodNotFound => -32601,
            ErrorKind::InvalidParams => -32602,
            ErrorKind::RepositoryNotFound => -32000,
            ErrorKind::StatusFailed => -32001,
            ErrorKind::IndexOpen => -32002,
            ErrorKind::IndexWrite => -32003,
            ErrorKind::TreeWrite => -32004,
            ErrorKind::TreeLookup => -32005,
            ErrorKind::SignatureFailed => -32006,
            ErrorKind::CommitFailed => -32007,
            ErrorKind::StoreLockPoisoned => -32010,
            ErrorKind::PrInsert => -32011,
            ErrorKind::PrQueryPrepare => -32012,
            ErrorKind::PrQuery => -32013,
            ErrorKind::PrRow => -32014,
            ErrorKind::WorktreeDir => -32015,
            ErrorKind::HeadUnresolved => -32016,
            ErrorKind::BranchCreate => -32017,
            ErrorKind::WorktreeCreate => -32018,
            ErrorKind::WorktreeInsert => -32019,
            ErrorKind::WorktreeQueryPrepare => -32020,
            ErrorKind::WorktreeQuery => -32021,
            ErrorKind::WorktreeRow => -32022,
        }
    }

    /// The wire code of this failure site.
    pub fn code(self) -> (r: i32)
        ensures
            r == self.spec_code(),
    {
        match self {
            ErrorKind::ParseError => -32700,
            ErrorKind::MethodNotFound => -32601,
            ErrorKind::InvalidParams => -32602,
            ErrorKind::RepositoryNotFound => -32000,
            ErrorKind::StatusFailed => -32001,
            ErrorKind::IndexOpen => -32002,
            ErrorKind::IndexWrite => -32003,
            ErrorKind::TreeWrite => -32004,
            ErrorKind::TreeLookup => -32005,
            ErrorKind::SignatureFailed => -32006,
            ErrorKind::CommitFailed => -32007,
            ErrorKind::StoreLockPoisoned => -32010,
            ErrorKind::PrInsert => -32011,
            ErrorKind::PrQueryPrepare => -32012,
            ErrorKind::PrQuery => -32013,
            ErrorKind::PrRow => -32014,
            ErrorKind::WorktreeDir => -32015,
            ErrorKind::HeadUnresolved => -32016,
            ErrorKind::BranchCreate => -32017,
            ErrorKind::WorktreeCreate => -32018,
            ErrorKind::WorktreeInsert => -32019,
            ErrorKind::WorktreeQueryPrepare => -32020,
            ErrorKind::WorktreeQuery => -32021,
            ErrorKind::WorktreeRow => -32022,
        }
    }
}

impl McpError {
    /// The error of failure site `kind`, with `message`.
    pub fn new(kind: ErrorKind, message: String) -> (r: McpError)
        ensures
            r.code == kind.spec_code(),
            r.message == message,
    {
        McpError { code: kind.code(), message }
    }

    /// The error of failure site `kind`, whose message is `prefix` followed
    /// by `detail`.
    pub fn described(kind: ErrorKind, prefix: &str, detail: String) -> (r: McpError)
        ensures
            r.code == kind.spec_code(),
            r.message@ == prefix@ + detail@,
            error_at(r, kind, prefix@),
    {
        let message = String::from_str(prefix).concat(detail.as_str());
        assert(message@.subrange(0, prefix@.len() as int) =~= prefix@);
        McpError { code: kind.code(), message }
    }

    /// The error of failure site `kind`, with a fixed message.
    pub fn with_text(kind: ErrorKind, text: &str) -> (r: McpError)
        ensures
            r.code == kind.spec_code(),
            r.message@ == text@,
    {
        McpError { code: kind.code(), message: String::from_str(text) }
    }
}

/// Whether `s` begins with `prefix`.
pub open spec fn starts_with(s: Seq<char>, prefix: Seq<char>) -> bool {
    prefix.len() <= s.len() && s.subrange(0, prefix.len() as int) == prefix
}

/// Whether `e` is an error of site `kind` whose message begins with
/// `prefix` (the rest is the text of the failure below it).
pub open spec fn error_at(e: McpError, kind: ErrorKind, prefix: Seq<char>) -> bool {
    e.code == kind.spec_code() && starts_with(e.message@, prefix)
}

/// Whether `e` is the error of site `kind` with exactly the message `text`.
pub open spec fn error_is(e: McpError, kind: ErrorKind, text: Seq<char>) -> bool {
    e.code == kind.spec_code() && e.message@ == text
}

/// A request envelope. The `id` is never interpreted, only echoed.
#[derive(Debug)]
pub struct McpRequest {
    pub jsonrpc: String,
    pub id: Json,
    pub method: String,
    pub params: Json,
}

/// The input schema of a tool: an object whose listed properties are all
/// strings.
#[derive(Debug)]
pub struct ToolSchema {
    pub properties: Vec<String>,
    pub required: Vec<String>,
}

/// A capability descriptor of `tools/list`. A tool without a schema takes
/// no parameters (an empty schema on the wire).
#[derive(Debug)]
pub struct ToolDescriptor {
    pub name: String,
    pub description: String,
    pub input_schema: Option<ToolSchema>,
}

/// One entry of the working-tree status.
#[derive(Debug)]
pub struct FileStatus {
    pub path: String,
    pub status: String,
}

/// A stored pull-request record.
#[derive(Debug)]
pub struct PrRecord {
    pub id: i64,
    pub title: String,
    pub from: String,
    pub to: String,
    pub state: String,
    pub created_at: String,
}

/// A stored worktree record.
#[derive(Debug)]
pub struct WorktreeRecord {
    pub name: String,
    pub path: String,
    pub branch: String,
    pub created_at: String,
}

/// The result of a successful call, one variant per kind of result. Every
/// variant but `Tools` and the two listings carries `success: true` on the
/// wire.
#[derive(Debug)]
pub enum ToolResult {
    Tools { tools: Vec<ToolDescriptor> },
    Status { count: usize, files: Vec<FileStatus> },
    Commit { message: String, commit: String },
    PrCreated { title: String, from: String, to: String, id: i64 },
    PrList { prs: Vec<PrRecord> },
    WorktreeCreated { name: String, path: String, branch: String, reference: String },
    WorktreeList { worktrees: Vec<WorktreeRecord> },
}

/// A response envelope.
#[derive(Debug)]
pub struct McpResponse {
    pub jsonrpc: String,
    pub id: Json,
    pub result: Option<ToolResult>,
    pub error: Option<McpError>,
}

impl McpResponse {
    /// Exactly one of result and error is present.
    pub open spec fn well_formed(self) -> bool {
        self.result is Some <==> self.error is None
    }

    /// What the response reports, as a `Result`.
    pub open spec fn outcome(self) -> Result<ToolResult, McpError> {
        match self.error {
            Some(e) => Err(e),
            None => Ok(self.result->Some_0),
        }
    }

    /// The response to the request with `id`, reporting `outcome`.
    pub fn from_outcome(id: Json, outcome: Result<ToolResult, McpError>) -> (r: McpResponse)
        ensures
            r.jsonrpc@ == PROTOCOL_VERSION@,
            r.id == id,
            r.well_formed(),
            r.outcome() == outcome,
    {
        let jsonrpc = String::from_str(PROTOCOL_VERSION);
        match outcome {
            Ok(v) => McpResponse { jsonrpc, id, result: Some(v), error: None },
            Err(e) => McpResponse { jsonrpc, id, result: None, error: Some(e) },
        }
    }

    /// The response to a message that could not be read as a request:
    /// no id, and a parse error that carries `detail`.
    pub fn parse_failure(detail: &str) -> (r: McpResponse)
        ensures
            r.jsonrpc@ == PROTOCOL_VERSION@,
            r.id == Json::Null,
            r.well_formed(),
            r.error matches Some(e) && e.code == -32700 && e.message@ == "parse error: "@ + detail@,
    {
        let message = String::from_str("parse error: ").concat(detail);
        Self::from_outcome(Json::Null, Err(McpError::new(ErrorKind::ParseError, message)))
    }
}

} // verus!
