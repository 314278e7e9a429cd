use gitforge::{
    ErrorKind, GitForgeMcp, Json, McpRequest, McpResponse, ToolResult, PROTOCOL_VERSION,
};
use std::time::{SystemTime, UNIX_EPOCH};

fn temp_path(label: &str) -> String {
    let nanos = SystemTime::now()
        .duration_since(UNIX_EPOCH)
        .expect("clock before unix epoch")
        .as_nanos();
    format!("/tmp/gitforge-{label}-{nanos}")
}

/// A new repository with "README.md" staged and checked out.
fn init_repo_with_file(repo_dir: &str) {
    let repo = git2::Repository::init(repo_dir).expect("init repo");
    let content = b"hello gitforge\n";
    let id = repo.blob(content).expect("blob");
    let mut index = repo.index().expect("repo index");
    let entry = git2::IndexEntry {
        ctime: git2::IndexTime::new(0, 0),
        mtime: git2::IndexTime::new(0, 0),
        dev: 0,
        ino: 0,
        mode: 0o100644,
        uid: 0,
        gid: 0,
        file_size: content.len() as u32,
        id,
        flags: 0,
        flags_extended: 0,
        path: b"README.md".to_vec(),
    };
    index.add(&entry).expect("stage readme");
    index.write().expect("write index");
    let mut checkout = git2::build::CheckoutBuilder::new();
    checkout.force();
    repo.checkout_index(Some(&mut index), Some(&mut checkout)).expect("write readme");
}

/// Leaves the directory to the backend, which makes the last component of
/// a worktree path itself.
fn leave_dir(_path: String) -> Result<(), String> {
    Ok(())
}

fn object(fields: &[(&str, &str)]) -> Json {
    Json::Object(
        fields
            .iter()
            .map(|(k, v)| (k.to_string(), Json::Str(v.to_string())))
            .collect(),
    )
}

fn request(id: i64, method: &str, params: Json) -> McpRequest {
    McpRequest {
        jsonrpc: "2.0".into(),
        id: Json::Number(id.to_string()),
        method: method.into(),
        params,
    }
}

fn call(server: &GitForgeMcp, id: i64, method: &str, params: Json) -> McpResponse {
    server.execute_mcp_for_tauri(request(id, method, params), &leave_dir)
}

fn error_code(resp: &McpResponse) -> i32 {
    resp.error.as_ref().expect("an error").code
}

fn fresh_server(label: &str) -> (String, GitForgeMcp) {
    let repo_dir = temp_path(label);
    init_repo_with_file(&repo_dir);
    let server = GitForgeMcp::new(repo_dir.clone()).expect("create mcp server");
    (repo_dir, server)
}

#[test]
fn mcp_tools_list_returns_expected_entries() {
    let (_dir, server) = fresh_server("tools-list");
    let resp = call(&server, 1, "tools/list", Json::Object(vec![]));
    assert!(resp.error.is_none());
    let tools = match resp.result.expect("tools result") {
        ToolResult::Tools { tools } => tools,
        _ => panic!("tools array"),
    };
    assert!(tools.iter().any(|tool| tool.name == "git_status"));
}

#[test]
fn mcp_git_create_pr_and_list_roundtrip() {
    let (_dir, server) = fresh_server("pr-roundtrip");
    let create = call(
        &server,
        2,
        "git_create_pr",
        object(&[("title", "Test PR"), ("from", "feature/test"), ("to", "main")]),
    );
    assert!(create.error.is_none(), "{:?}", create.error.map(|e| e.message));

    let list = call(&server, 3, "prs_list", Json::Object(vec![]));
    assert!(list.error.is_none());
    let items = match list.result.expect("list result") {
        ToolResult::PrList { prs } => prs,
        _ => panic!("items array"),
    };
    assert!(!items.is_empty());
    assert_eq!(items[0].title, "Test PR");
}

#[test]
fn tools_list_is_the_fixed_catalog() {
    let (_dir, server) = fresh_server("catalog");
    let tools = match server.tools_list() {
        Ok(ToolResult::Tools { tools }) => tools,
        _ => panic!("catalog"),
    };
    let names: Vec<&str> = tools.iter().map(|t| t.name.as_str()).collect();
    assert_eq!(names, vec!["git_status", "git_commit", "git_create_pr", "git_worktree_create"]);
    assert!(tools[0].input_schema.is_none());
    let schema = tools[3].input_schema.as_ref().expect("schema");
    assert_eq!(schema.required, vec!["name", "path", "branch"]);
}

#[test]
fn response_echoes_id_and_holds_one_of_result_or_error() {
    let (_dir, server) = fresh_server("echo");
    let mut req = request(0, "prs_list", Json::Null);
    req.id = Json::Str("abc-7".into());
    let ok = server.execute_mcp(req, &leave_dir);
    assert_eq!(ok.jsonrpc, PROTOCOL_VERSION);
    assert!(matches!(&ok.id, Json::Str(s) if s == "abc-7"));
    assert!(ok.result.is_some() && ok.error.is_none());

    let bad = call(&server, 41, "no_such_method", Json::Null);
    assert!(matches!(&bad.id, Json::Number(n) if n == "41"));
    assert!(bad.result.is_none() && bad.error.is_some());
}

#[test]
fn unknown_method_is_reported() {
    let (_dir, server) = fresh_server("unknown");
    let resp = call(&server, 9, "git_push", Json::Null);
    let err = resp.error.expect("error");
    assert_eq!(err.code, -32601);
    assert_eq!(err.message, "method 'git_push' not found");
}

#[test]
fn create_pr_without_title_is_invalid_params() {
    let (_dir, server) = fresh_server("no-title");
    let resp = call(&server, 4, "git_create_pr", Json::Object(vec![]));
    let err = resp.error.expect("error");
    assert_eq!(err.code, -32602);
    assert_eq!(err.message, "missing 'title'");
}

#[test]
fn create_pr_defaults_branches() {
    let (_dir, server) = fresh_server("pr-defaults");
    match server.git_create_pr(&object(&[("title", "Only title")])) {
        Ok(ToolResult::PrCreated { title, from, to, id }) => {
            assert_eq!(title, "Only title");
            assert_eq!(from, "feature");
            assert_eq!(to, "main");
            assert_eq!(id, 1);
        }
        _ => panic!("created"),
    }
}

#[test]
fn worktree_create_requires_each_field() {
    let (dir, server) = fresh_server("wt-missing");
    let path = format!("{dir}/wt");
    let cases = [
        (object(&[("path", path.as_str()), ("branch", "b")]), "missing 'name'"),
        (object(&[("name", "n"), ("branch", "b")]), "missing 'path'"),
        (object(&[("name", "n"), ("path", path.as_str())]), "missing 'branch'"),
        (Json::Object(vec![]), "missing 'name'"),
    ];
    for (params, message) in cases {
        let resp = call(&server, 5, "git_worktree_create", params);
        let err = resp.error.expect("error");
        assert_eq!(err.code, -32602);
        assert_eq!(err.message, message);
    }
}

#[test]
fn two_pull_requests_list_newest_first() {
    let (_dir, server) = fresh_server("pr-order");
    call(&server, 1, "git_create_pr", object(&[("title", "First")]));
    call(&server, 2, "git_create_pr", object(&[("title", "Second"), ("from", "f"), ("to", "t")]));
    let prs = match server.prs_list() {
        Ok(ToolResult::PrList { prs }) => prs,
        _ => panic!("list"),
    };
    assert_eq!(prs.len(), 2);
    assert_eq!(prs[0].title, "Second");
    assert_eq!(prs[1].title, "First");
    assert!(prs[0].id > prs[1].id);
    assert_eq!(prs[0].from, "f");
    assert_eq!(prs[1].to, "main");
    assert_eq!(prs[1].state, "open");
    assert!(!prs[1].created_at.is_empty());
}

#[test]
fn worktree_record_last_write_wins() {
    let (_dir, server) = fresh_server("wt-upsert");
    server.register_worktree("feature-x", "/tmp/a", "feature/a").expect("first");
    server.register_worktree("feature-x", "/tmp/b", "feature/b").expect("second");
    let rows = match server.git_worktree_list() {
        Ok(ToolResult::WorktreeList { worktrees }) => worktrees,
        _ => panic!("list"),
    };
    let named: Vec<_> = rows.iter().filter(|w| w.name == "feature-x").collect();
    assert_eq!(named.len(), 1);
    assert_eq!(named[0].path, "/tmp/b");
    assert_eq!(named[0].branch, "feature/b");
}

#[test]
fn status_of_fresh_repository_lists_readme() {
    let (_dir, server) = fresh_server("status");
    match server.git_status() {
        Ok(ToolResult::Status { count, files }) => {
            assert_eq!(count, 1);
            assert_eq!(files.len(), 1);
            assert_eq!(files[0].path, "README.md");
            assert_eq!(files[0].status, "Status(INDEX_NEW)");
        }
        other => panic!("status: {:?}", other),
    }
}

#[test]
fn status_outside_a_repository_is_repo_not_found() {
    let server = GitForgeMcp::new("/tmp".to_string()).expect("server");
    let resp = call(&server, 6, "git_status", Json::Null);
    let err = resp.error.expect("error");
    assert_eq!(err.code, -32000);
    assert_eq!(err.message, "repository not found");
}

#[test]
fn second_commit_has_first_as_sole_parent() {
    let (dir, server) = fresh_server("commits");
    let first = match server.git_commit(&Json::Null) {
        Ok(ToolResult::Commit { message, commit }) => {
            assert_eq!(message, "MCP commit");
            commit
        }
        other => panic!("first commit: {:?}", other.err().map(|e| e.message)),
    };
    assert_eq!(first.len(), 40);
    assert!(first.chars().any(|c| c != '0'));
    assert!(first.chars().all(|c| c.is_ascii_hexdigit() && !c.is_ascii_uppercase()));
    let second = match server.git_commit(&object(&[("message", "again")])) {
        Ok(ToolResult::Commit { message, commit }) => {
            assert_eq!(message, "again");
            commit
        }
        _ => panic!("second commit"),
    };
    let repo = git2::Repository::open(&dir).expect("open");
    let first_commit = repo.find_commit(git2::Oid::from_str(&first).unwrap()).unwrap();
    assert_eq!(first_commit.parent_count(), 0);
    let commit = repo.find_commit(git2::Oid::from_str(&second).unwrap()).unwrap();
    assert_eq!(commit.parent_count(), 1);
    assert_eq!(commit.parent_id(0).unwrap().to_string(), first);
    assert_eq!(repo.head().unwrap().target().unwrap().to_string(), second);
}

#[test]
fn worktree_on_repository_without_commits_cannot_branch() {
    let (dir, server) = fresh_server("wt-empty");
    let path = format!("{dir}/.worktrees/feature-x");
    let resp = call(
        &server,
        4,
        "git_worktree_create",
        object(&[("name", "feature-x"), ("path", path.as_str()), ("branch", "feature/x")]),
    );
    let err = resp.error.expect("error");
    assert_eq!(err.code, -32016);
    assert_eq!(err.message, "unable to derive HEAD commit for new branch");
}

#[test]
fn end_to_end_scenario() {
    let (dir, server) = fresh_server("e2e");
    let status = call(&server, 1, "git_status", Json::Null);
    match status.result {
        Some(ToolResult::Status { count, files }) => {
            assert_eq!(count, 1);
            assert_eq!(files[0].path, "README.md");
        }
        _ => panic!("status"),
    }
    let commit = call(&server, 2, "git_commit", object(&[("message", "init")]));
    match commit.result {
        Some(ToolResult::Commit { message, commit }) => {
            assert_eq!(message, "init");
            assert!(!commit.is_empty());
        }
        _ => panic!("commit"),
    }
    let pr = call(
        &server,
        3,
        "git_create_pr",
        object(&[("title", "Test PR"), ("from", "feature/test"), ("to", "main")]),
    );
    assert!(pr.error.is_none());
    match call(&server, 4, "prs_list", Json::Null).result {
        Some(ToolResult::PrList { prs }) => assert_eq!(prs[0].title, "Test PR"),
        _ => panic!("prs"),
    }
    let path = format!("{dir}/feature-x");
    let created = server.execute_mcp(
        request(
            5,
            "git_worktree_create",
            object(&[("name", "feature-x"), ("path", path.as_str()), ("branch", "feature/x")]),
        ),
        &leave_dir,
    );
    match created.result {
        Some(ToolResult::WorktreeCreated { name, path: p, branch, reference }) => {
            assert_eq!(name, "feature-x");
            assert_eq!(p, path);
            assert_eq!(branch, "feature/x");
            assert_eq!(reference, "refs/heads/feature/x");
        }
        _ => panic!("worktree: {:?}", created.error.map(|e| e.message)),
    }
    match call(&server, 6, "git_worktree_list", Json::Null).result {
        Some(ToolResult::WorktreeList { worktrees }) => {
            assert!(worktrees.iter().any(|w| w.name == "feature-x"))
        }
        _ => panic!("worktrees"),
    }
    let repo = git2::Repository::open(&dir).expect("open");
    assert!(repo.find_reference("refs/heads/feature/x").is_ok());
}

#[test]
fn worktree_directory_failure_is_reported() {
    let (dir, server) = fresh_server("wt-dir");
    let failing = |_p: String| -> Result<(), String> { Err("denied".to_string()) };
    let resp = server.execute_mcp(
        request(
            7,
            "git_worktree_create",
            object(&[("name", "w"), ("path", format!("{dir}/w").as_str()), ("branch", "b")]),
        ),
        &failing,
    );
    let err = resp.error.expect("error");
    assert_eq!(err.code, ErrorKind::WorktreeDir.code());
    assert_eq!(err.message, "failed to create worktree path: denied");
}

#[test]
fn worktree_backend_failure_carries_its_text() {
    let (dir, server) = fresh_server("wt-fail");
    assert!(call(&server, 1, "git_commit", Json::Null).error.is_none());
    let path = format!("{dir}/missing/parent/leaf");
    let resp = server.execute_mcp(
        request(
            2,
            "git_worktree_create",
            object(&[("name", "leaf"), ("path", path.as_str()), ("branch", "topic")]),
        ),
        &leave_dir,
    );
    let err = resp.error.expect("error");
    assert_eq!(err.code, -32018);
    let prefix = "failed to create worktree: ";
    assert!(err.message.starts_with(prefix));
    assert!(err.message.len() > prefix.len());
    let repo = git2::Repository::open(&dir).expect("open");
    assert!(repo.find_reference("refs/heads/topic").is_ok());
}
