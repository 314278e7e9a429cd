//! Laws of the dispatcher, stated over what a call of each method may
//! report (`dispatch_outcome`, which `GitForgeMcp::execute_mcp` ensures).
use crate::json::{str_field, Json};
use crate::protocol::{ErrorKind, McpError, ToolResult};
use crate::server::dispatch_outcome;
use vstd::prelude::*;

verus! {

/// Whether `method` names one of the seven handlers.
pub open spec fn is_known_method(method: Seq<char>) -> bool {
    method == "tools/list"@ || method == "git_status"@ || method == "git_commit"@ || method
        == "git_create_pr"@ || method == "prs_list"@ || method == "git_worktree_create"@ || method
        == "git_worktree_list"@
}

/// A method outside the table is answered with error -32601, whose message
/// names it.
pub proof fn lemma_unknown_method_not_found(
    method: Seq<char>,
    params: Json,
    r: Result<ToolResult, McpError>,
)
    requires
        !is_known_method(method),
        dispatch_outcome(method, params, r),
    ensures
        r is Err,
        r->Err_0.code == -32601,
        r->Err_0.message@ == "method '"@ + method + "' not found"@,
{
}

/// `git_create_pr` without a string `title` is answered with error -32602.
pub proof fn lemma_create_pr_needs_title(params: Json, r: Result<ToolResult, McpError>)
    requires
        str_field(params, "title"@) is None,
        dispatch_outcome("git_create_pr"@, params, r),
    ensures
        r is Err,
        r->Err_0.code == -32602,
        r->Err_0.message@ == "missing 'title'"@,
{
    reveal_strlit("git_create_pr");
    reveal_strlit("tools/list");
    reveal_strlit("git_status");
    reveal_strlit("git_commit");
    assert("git_create_pr"@.len() == 13);
    assert("tools/list"@.len() == 10);
    assert("git_status"@.len() == 10);
    assert("git_commit"@.len() == 10);
}

/// `git_worktree_create` without any one of the string fields `name`,
/// `path` and `branch` is answered with error -32602.
pub proof fn lemma_worktree_create_needs_fields(params: Json, r: Result<ToolResult, McpError>)
    requires
        str_field(params, "name"@) is None || str_field(params, "path"@) is None || str_field(
            params,
            "branch"@,
        ) is None,
        dispatch_outcome("git_worktree_create"@, params, r),
    ensures
        r is Err,
        r->Err_0.code == ErrorKind::InvalidParams.spec_code(),
        r->Err_0.code == -32602,
{
    reveal_strlit("git_worktree_create");
    reveal_strlit("tools/list");
    reveal_strlit("git_status");
    reveal_strlit("git_commit");
    reveal_strlit("git_create_pr");
    reveal_strlit("prs_list");
    assert("git_worktree_create"@.len() == 19);
    assert("tools/list"@.len() == 10);
    assert("git_status"@.len() == 10);
    assert("git_commit"@.len() == 10);
    assert("git_create_pr"@.len() == 13);
    assert("prs_list"@.len() == 8);
}

} // verus!
