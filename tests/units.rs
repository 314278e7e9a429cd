use gitforge::{
    choose_signer, commit_parents, plan_worktree, store_path, Signer,
    collect_rows, status_result, AntError, BpgtAgent, ConnEvent, ConnState, ErrorKind, Frame,
    GitForgeMcp, GoalStatus, Json, McpError, McpRequest, McpResponse, PrRecord, SystemEvent,
    ToolResult, VersionedSystemEvent, SYSTEM_EVENT_SCHEMA_VERSION,
};

fn object(fields: Vec<(&str, Json)>) -> Json {
    Json::Object(fields.into_iter().map(|(k, v)| (k.to_string(), v)).collect())
}

fn scratch_server(label: &str) -> GitForgeMcp {
    let nanos = std::time::SystemTime::now()
        .duration_since(std::time::UNIX_EPOCH)
        .unwrap()
        .as_nanos();
    let dir = format!("/tmp/gitforge-unit-{label}-{nanos}");
    git2::Repository::init(&dir).expect("init repo");
    GitForgeMcp::new(dir).expect("server")
}

fn no_dir(_p: String) -> Result<(), String> {
    Ok(())
}

#[test]
fn get_str_reads_first_string_field() {
    let v = object(vec![
        ("a", Json::Number("1".into())),
        ("b", Json::Str("x".into())),
        ("b", Json::Str("y".into())),
    ]);
    assert_eq!(v.get_str("b"), Some("x".to_string()));
    assert_eq!(v.get_str("a"), None);
    assert_eq!(v.get_str("c"), None);
    assert_eq!(Json::Str("b".into()).get_str("b"), None);
    assert_eq!(v.get_str_or("a", "dflt"), "dflt");
    assert_eq!(v.get_str_or("b", "dflt"), "x");
}

#[test]
fn error_kinds_have_stable_codes() {
    assert_eq!(ErrorKind::ParseError.code(), -32700);
    assert_eq!(ErrorKind::MethodNotFound.code(), -32601);
    assert_eq!(ErrorKind::InvalidParams.code(), -32602);
    assert_eq!(ErrorKind::RepositoryNotFound.code(), -32000);
    assert_eq!(ErrorKind::CommitFailed.code(), -32007);
    assert_eq!(ErrorKind::StoreLockPoisoned.code(), -32010);
    assert_eq!(ErrorKind::WorktreeDir.code(), -32015);
    assert_eq!(ErrorKind::WorktreeRow.code(), -32022);
    let e = McpError::with_text(ErrorKind::PrInsert, "x");
    assert_eq!((e.code, e.message.as_str()), (-32011, "x"));
}

#[test]
fn response_from_outcome_holds_exactly_one_side() {
    let ok = McpResponse::from_outcome(
        Json::Number("3".into()),
        Ok(ToolResult::PrList { prs: vec![] }),
    );
    assert_eq!(ok.jsonrpc, "2.0");
    assert!(ok.result.is_some() && ok.error.is_none());
    let err = McpResponse::from_outcome(
        Json::Null,
        Err(McpError::with_text(ErrorKind::InvalidParams, "m")),
    );
    assert!(err.result.is_none() && err.error.is_some());
}

#[test]
fn parse_failure_has_no_id() {
    let r = McpResponse::parse_failure("expected value");
    assert!(matches!(r.id, Json::Null));
    assert!(r.result.is_none());
    let e = r.error.expect("error");
    assert_eq!(e.code, -32700);
    assert_eq!(e.message, "parse error: expected value");
}

#[test]
fn frames_are_answered_or_ignored() {
    let server = scratch_server("frames");
    assert!(server.answer_frame(Frame::Other, &no_dir).is_none());
    let bad = server
        .answer_frame(Frame::Text(Err("trailing characters".into())), &no_dir)
        .expect("answer");
    assert!(matches!(bad.id, Json::Null));
    assert_eq!(bad.error.expect("error").code, -32700);
    let req = McpRequest {
        jsonrpc: "2.0".into(),
        id: Json::Number("12".into()),
        method: "tools/list".into(),
        params: Json::Null,
    };
    let good = server.answer_frame(Frame::Text(Ok(req)), &no_dir).expect("answer");
    assert!(matches!(&good.id, Json::Number(n) if n == "12"));
    assert!(good.error.is_none());
}

#[test]
fn connection_states_follow_events() {
    let s = ConnState::Handshaking;
    assert_eq!(s.next(ConnEvent::HandshakeFailed), ConnState::Closed);
    let s = s.next(ConnEvent::HandshakeSucceeded);
    assert_eq!(s, ConnState::Serving);
    assert!(s.is_serving());
    assert_eq!(s.next(ConnEvent::MessageHandled), ConnState::Serving);
    assert_eq!(s.next(ConnEvent::TransportFailed), ConnState::Closed);
    assert_eq!(s.next(ConnEvent::StreamEnded), ConnState::Closed);
    assert_eq!(ConnState::Closed.next(ConnEvent::HandshakeSucceeded), ConnState::Closed);
    assert!(!ConnState::Closed.is_serving());
}

#[test]
fn status_result_maps_entries() {
    let entries = vec![
        (Some("a.txt".to_string()), "WT_NEW".to_string()),
        (None, "INDEX_MODIFIED".to_string()),
    ];
    match status_result(&entries) {
        ToolResult::Status { count, files } => {
            assert_eq!(count, 2);
            assert_eq!(files[0].path, "a.txt");
            assert_eq!(files[0].status, "WT_NEW");
            assert_eq!(files[1].path, "");
            assert_eq!(files[1].status, "INDEX_MODIFIED");
        }
        _ => panic!("status"),
    }
}

#[test]
fn status_result_leaves_out_the_store_file() {
    let entries = vec![
        (Some("gitforge.db".to_string()), "WT_NEW".to_string()),
        (Some("src/gitforge.db".to_string()), "WT_NEW".to_string()),
        (Some("README.md".to_string()), "INDEX_NEW".to_string()),
    ];
    match status_result(&entries) {
        ToolResult::Status { count, files } => {
            assert_eq!(count, 2);
            assert_eq!(files[0].path, "src/gitforge.db");
            assert_eq!(files[1].path, "README.md");
        }
        _ => panic!("status"),
    }
}

fn record(id: i64) -> PrRecord {
    PrRecord {
        id,
        title: format!("t{id}"),
        from: "f".into(),
        to: "t".into(),
        state: "open".into(),
        created_at: "now".into(),
    }
}

#[test]
fn collect_rows_keeps_order_or_reports_first_failure() {
    let rows = vec![Ok(record(2)), Ok(record(1))];
    let items = collect_rows(rows, ErrorKind::PrRow, "failed to parse PR row: ").expect("rows");
    assert_eq!(items.iter().map(|r| r.id).collect::<Vec<_>>(), vec![2, 1]);

    let rows = vec![Ok(record(3)), Err(rusqlite::Error::QueryReturnedNoRows), Ok(record(1))];
    let err = collect_rows(rows, ErrorKind::PrRow, "failed to parse PR row: ")
        .err()
        .expect("error");
    assert_eq!(err.code, -32014);
    assert!(err.message.starts_with("failed to parse PR row: "));
    assert!(err.message.len() > "failed to parse PR row: ".len());
}

#[test]
fn agent_acknowledges_voice_input() {
    let agent = BpgtAgent::new("agent.db");
    assert_eq!(
        agent.process_voice("hello").unwrap(),
        "BPGT agent accepted voice input for 'agent.db': hello"
    );
}

#[test]
fn ant_error_messages() {
    assert_eq!(AntError::GoalAlreadyExists("G-1".into()).message(), "goal already exists: G-1");
    assert_eq!(AntError::GoalNotFound("G-2".into()).message(), "goal not found: G-2");
}

#[test]
fn versioned_event_carries_current_schema() {
    let e = VersionedSystemEvent::current(SystemEvent::GoalStatusChanged {
        goal_id: "G".into(),
        status: GoalStatus::Running,
    });
    assert_eq!(e.schema_version, SYSTEM_EVENT_SCHEMA_VERSION);
    assert_eq!(SYSTEM_EVENT_SCHEMA_VERSION, 1);
}

#[test]
fn worktree_plan_follows_what_exists() {
    let p = plan_worktree(false, false);
    assert!(p.make_dir && p.make_branch);
    let p = plan_worktree(true, true);
    assert!(!p.make_dir && !p.make_branch);
    let p = plan_worktree(true, false);
    assert!(!p.make_dir && p.make_branch);
    let p = plan_worktree(false, true);
    assert!(p.make_dir && !p.make_branch);
}

#[test]
fn store_lies_under_the_root() {
    assert_eq!(store_path("/srv/repo"), "/srv/repo/gitforge.db");
}

#[test]
fn signer_prefers_configured_identity() {
    let sig = git2::Signature::now("Ada", "ada@example.org").unwrap();
    match choose_signer(Ok(sig)) {
        Signer::Configured(s) => assert_eq!(s.name().ok(), Some("Ada")),
        Signer::Fixed { .. } => panic!("configured identity ignored"),
    }
    match choose_signer(Err(git2::Error::from_str("no identity"))) {
        Signer::Fixed { name, email } => {
            assert_eq!(name, "GitForge MCP");
            assert_eq!(email, "mcp@gitforge.dev");
        }
        Signer::Configured(_) => panic!("expected the bot"),
    }
}

#[test]
fn parents_are_the_head_commit_or_none() {
    assert!(commit_parents(&None).is_empty());
    let nanos = std::time::SystemTime::now()
        .duration_since(std::time::UNIX_EPOCH)
        .unwrap()
        .as_nanos();
    let dir = format!("/tmp/gitforge-unit-parents-{nanos}");
    let repo = git2::Repository::init(&dir).expect("init repo");
    let sig = git2::Signature::now("t", "t@example.org").unwrap();
    let tree_id = repo.index().unwrap().write_tree().unwrap();
    let tree = repo.find_tree(tree_id).unwrap();
    let oid = repo.commit(Some("HEAD"), &sig, &sig, "m", &tree, &[]).unwrap();
    let head = Some(repo.find_commit(oid).unwrap());
    let parents = commit_parents(&head);
    assert_eq!(parents.len(), 1);
    assert_eq!(parents[0].id(), oid);
}

