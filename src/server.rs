//! The tool server: one repository root and one store, shared by every
//! connection, and a dispatcher from method names to handlers.
use crate::backend::{
    add_worktree, create_branch, create_commit, find_commit, find_reference, find_tree,
    git_error_message, head, include_untracked, is_hex_digit, oid_hex, open_repository, path_exists,
    recurse_untracked_dirs, reference_target, repo_index, repo_signature, signature_now,
    entry_path as status_entry_path, entry_status_label, status_at, statuses, write_index,
    write_tree,
};
use crate::json::{str_field, str_field_or, Json};
use crate::protocol::{
    error_at, error_is, starts_with, ErrorKind, FileStatus, McpError, PrRecord, McpRequest, McpResponse, ToolDescriptor, ToolResult,
    ToolSchema, PROTOCOL_VERSION,
};
use crate::store::{
    collect_rows, execute3, execute_batch, last_insert_rowid, lock_store, new_lock,
    open_connection, select_pr_rows, select_worktree_rows, sql_error_message, QueryFailure,
    INSERT_PR, SCHEMA, SELECT_PRS, SELECT_WORKTREES, UPSERT_WORKTREE,
};
use vstd::prelude::*;
use vstd::string::*;

verus! {

/// The message of a commit whose request names none.
pub const DEFAULT_COMMIT_MESSAGE: &'static str = "MCP commit";

/// The identity that commits where the repository configures none.
pub const BOT_NAME: &'static str = "GitForge MCP";

/// The address of that identity.
pub const BOT_EMAIL: &'static str = "mcp@gitforge.dev";

/// The name of the store's file, at the repository root.
pub const STORE_NAME: &'static str = "gitforge.db";

/// Whether `r` is the error of site `kind` with exactly the message `text`.
pub open spec fn fails_with(r: Result<ToolResult, McpError>, kind: ErrorKind, text: Seq<char>) -> bool {
    r matches Err(e) && e.code == kind.spec_code() && e.message@ == text
}

/// The texts of a sequence of strings.
pub open spec fn texts(v: Seq<String>) -> Seq<Seq<char>> {
    v.map_values(|s: String| s@)
}

/// Whether `d` is the descriptor of tool `name`, with `description` and,
/// where `schema` is given, those string properties and required fields.
pub open spec fn describes(
    d: ToolDescriptor,
    name: Seq<char>,
    description: Seq<char>,
    schema: Option<(Seq<Seq<char>>, Seq<Seq<char>>)>,
) -> bool {
    &&& d.name@ == name
    &&& d.description@ == description
    &&& match (d.input_schema, schema) {
        (None, None) => true,
        (Some(s), Some(want)) => texts(s.properties@) == want.0 && texts(s.required@) == want.1,
        _ => false,
    }
}

/// The fixed catalog of `tools/list`.
pub open spec fn is_catalog(ts: Seq<ToolDescriptor>) -> bool {
    &&& ts.len() == 4
    &&& describes(ts[0], "git_status"@, "Show git repository status"@, None)
    &&& describes(
        ts[1],
        "git_commit"@,
        "Create commit from current index"@,
        Some((seq!["message"@], seq!["message"@])),
    )
    &&& describes(
        ts[2],
        "git_create_pr"@,
        "Create pull request metadata record"@,
        Some((seq!["title"@, "from"@, "to"@], seq!["title"@, "from"@, "to"@])),
    )
    &&& describes(
        ts[3],
        "git_worktree_create"@,
        "Create git worktree and register in sqlite"@,
        Some((seq!["name"@, "path"@, "branch"@], seq!["name"@, "path"@, "branch"@])),
    )
}

pub open spec fn tools_outcome(r: Result<ToolResult, McpError>) -> bool {
    r matches Ok(ToolResult::Tools { tools }) && is_catalog(tools@)
}

/// The path of a status entry, empty where it had none.
pub open spec fn entry_path(e: (Option<String>, String)) -> Seq<char> {
    match e.0 {
        Some(p) => p@,
        None => Seq::empty(),
    }
}

/// The entries a status report lists, as (path, label): every entry but
/// the store's own file, in order.
pub open spec fn listed(entries: Seq<(Option<String>, String)>) -> Seq<(Seq<char>, String)>
    decreases entries.len(),
{
    if entries.len() == 0 {
        Seq::empty()
    } else {
        let rest = listed(entries.drop_last());
        let e = entries.last();
        if entry_path(e) == STORE_NAME@ {
            rest
        } else {
            rest.push((entry_path(e), e.1))
        }
    }
}

/// The files of a status report, as (path, label).
pub open spec fn file_rows(files: Seq<FileStatus>) -> Seq<(Seq<char>, String)> {
    files.map_values(|f: FileStatus| (f.path@, f.status))
}

/// Whether no file of `files` is the store's own.
pub open spec fn store_hidden(files: Seq<FileStatus>) -> bool {
    forall|i: int| 0 <= i < files.len() ==> (#[trigger] files[i]).path@ != STORE_NAME@
}

/// Whether `r` reports exactly the status entries `entries`.
pub open spec fn reports_status(r: ToolResult, entries: Seq<(Option<String>, String)>) -> bool {
    r matches ToolResult::Status { count, files } && count == files@.len() && file_rows(files@)
        == listed(entries) && store_hidden(files@)
}

/// Whether `e` is the error of a repository that cannot be opened.
pub open spec fn is_repo_not_found(e: McpError) -> bool {
    error_is(e, ErrorKind::RepositoryNotFound, "repository not found"@)
}

/// Whether `e` is the error of a store whose lock was poisoned.
pub open spec fn is_lock_poisoned(e: McpError) -> bool {
    error_is(e, ErrorKind::StoreLockPoisoned, "db lock poisoned"@)
}

pub open spec fn status_outcome(r: Result<ToolResult, McpError>) -> bool {
    match r {
        Ok(ToolResult::Status { count, files }) => count == files@.len() && store_hidden(files@),
        Ok(_) => false,
        Err(e) => is_repo_not_found(e) || e.code == ErrorKind::StatusFailed.spec_code(),
    }
}

/// Whether `s` is a run of lowercase hexadecimal digits.
pub open spec fn is_hex_id(s: Seq<char>) -> bool {
    forall|i: int| 0 <= i < s.len() ==> is_hex_digit(#[trigger] s[i])
}

pub open spec fn commit_outcome(params: Json, r: Result<ToolResult, McpError>) -> bool {
    match r {
        Ok(ToolResult::Commit { message, commit }) => message@ == str_field_or(
            params,
            "message"@,
            DEFAULT_COMMIT_MESSAGE@,
        ) && commit@.len() == 40 && is_hex_id(commit@),
        Ok(_) => false,
        Err(e) => {
            ||| is_repo_not_found(e)
            ||| error_at(e, ErrorKind::IndexOpen, "failed to open index: "@)
            ||| error_at(e, ErrorKind::IndexWrite, "failed to write index: "@)
            ||| error_at(e, ErrorKind::TreeWrite, "failed to write tree: "@)
            ||| error_at(e, ErrorKind::TreeLookup, "failed to find tree: "@)
            ||| error_at(e, ErrorKind::SignatureFailed, "failed to create signature: "@)
            ||| error_at(e, ErrorKind::CommitFailed, "failed to commit: "@)
        },
    }
}

/// Whether pull-request records come newest (highest id) first.
pub open spec fn newest_first(prs: Seq<PrRecord>) -> bool {
    forall|i: int, j: int| 0 <= i < j < prs.len() ==> (#[trigger] prs[i]).id >= (#[trigger] prs[j]).id
}

pub open spec fn create_pr_outcome(params: Json, r: Result<ToolResult, McpError>) -> bool {
    match str_field(params, "title"@) {
        None => fails_with(r, ErrorKind::InvalidParams, "missing 'title'"@),
        Some(t) => match r {
            Ok(ToolResult::PrCreated { title, from, to, id }) => title@ == t && from@
                == str_field_or(params, "from"@, "feature"@) && to@ == str_field_or(
                params,
                "to"@,
                "main"@,
            ),
            Ok(_) => false,
            Err(e) => is_lock_poisoned(e) || error_at(e, ErrorKind::PrInsert, "failed to save PR: "@),
        },
    }
}

pub open spec fn prs_list_outcome(r: Result<ToolResult, McpError>) -> bool {
    match r {
        Ok(ToolResult::PrList { prs }) => newest_first(prs@),
        Ok(_) => false,
        Err(e) => {
            ||| is_lock_poisoned(e)
            ||| error_at(e, ErrorKind::PrQueryPrepare, "failed to prepare query: "@)
            ||| error_at(e, ErrorKind::PrQuery, "failed to list PRs: "@)
            ||| error_at(e, ErrorKind::PrRow, "failed to parse PR row: "@)
        },
    }
}

pub open spec fn worktree_create_outcome(params: Json, r: Result<ToolResult, McpError>) -> bool {
    if str_field(params, "name"@) is None {
        fails_with(r, ErrorKind::InvalidParams, "missing 'name'"@)
    } else if str_field(params, "path"@) is None {
        fails_with(r, ErrorKind::InvalidParams, "missing 'path'"@)
    } else if str_field(params, "branch"@) is None {
        fails_with(r, ErrorKind::InvalidParams, "missing 'branch'"@)
    } else {
        match r {
            Ok(ToolResult::WorktreeCreated { name, path, branch, reference }) => {
                &&& Some(name@) == str_field(params, "name"@)
                &&& Some(path@) == str_field(params, "path"@)
                &&& Some(branch@) == str_field(params, "branch"@)
                &&& reference@ == "refs/heads/"@ + branch@
            },
            Ok(_) => false,
            Err(e) => {
                ||| is_repo_not_found(e)
                ||| is_lock_poisoned(e)
                ||| error_at(e, ErrorKind::WorktreeDir, "failed to create worktree path: "@)
                ||| error_is(
                    e,
                    ErrorKind::HeadUnresolved,
                    "unable to derive HEAD commit for new branch"@,
                )
                ||| error_at(e, ErrorKind::BranchCreate, "failed to create branch: "@)
                ||| error_at(e, ErrorKind::WorktreeCreate, "failed to create worktree: "@)
                ||| error_at(e, ErrorKind::WorktreeInsert, "failed to register worktree: "@)
            },
        }
    }
}

pub open spec fn worktree_list_outcome(r: Result<ToolResult, McpError>) -> bool {
    match r {
        Ok(ToolResult::WorktreeList { worktrees }) => true,
        Ok(_) => false,
        Err(e) => {
            ||| is_lock_poisoned(e)
            ||| error_at(e, ErrorKind::WorktreeQueryPrepare, "failed to prepare query: "@)
            ||| error_at(e, ErrorKind::WorktreeQuery, "failed to list worktrees: "@)
            ||| error_at(e, ErrorKind::WorktreeRow, "failed to parse worktree row: "@)
        },
    }
}

/// What a call of `method` with `params` may report: the outcome of its
/// handler, or, for a name outside the table, the method-not-found error
/// that names it.
pub open spec fn dispatch_outcome(
    method: Seq<char>,
    params: Json,
    r: Result<ToolResult, McpError>,
) -> bool {
    if method == "tools/list"@ {
        tools_outcome(r)
    } else if method == "git_status"@ {
        status_outcome(r)
    } else if method == "git_commit"@ {
        commit_outcome(params, r)
    } else if method == "git_create_pr"@ {
        create_pr_outcome(params, r)
    } else if method == "prs_list"@ {
        prs_list_outcome(r)
    } else if method == "git_worktree_create"@ {
        worktree_create_outcome(params, r)
    } else if method == "git_worktree_list"@ {
        worktree_list_outcome(r)
    } else {
        fails_with(r, ErrorKind::MethodNotFound, "method '"@ + method + "' not found"@)
    }
}

/// Whether `resp` answers a message that was no request: no id, and the
/// parse error that carries `detail`.
pub open spec fn is_parse_failure(resp: McpResponse, detail: Seq<char>) -> bool {
    &&& resp.id == Json::Null
    &&& resp.well_formed()
    &&& resp.error is Some
    &&& resp.error->Some_0.code == ErrorKind::ParseError.spec_code()
    &&& resp.error->Some_0.message@ == "parse error: "@ + detail
}

/// Whether `s` holds the text `lit`.
fn is_text(s: &String, lit: &str) -> (r: bool)
    ensures
        r == (s@ == lit@),
{
    let l = String::from_str(lit);
    *s == l
}

fn strings3(a: &str, b: &str, c: &str) -> (r: Vec<String>)
    ensures
        texts(r@) == seq![a@, b@, c@],
{
    let mut v: Vec<String> = Vec::new();
    v.push(String::from_str(a));
    v.push(String::from_str(b));
    v.push(String::from_str(c));
    assert(texts(v@) =~= seq![a@, b@, c@]);
    v
}

fn strings1(a: &str) -> (r: Vec<String>)
    ensures
        texts(r@) == seq![a@],
{
    let mut v: Vec<String> = Vec::new();
    v.push(String::from_str(a));
    assert(texts(v@) =~= seq![a@]);
    v
}

/// The status report of the working-tree entries `entries`, each as its
/// path (empty where it has none) and its status label, leaving out the
/// store's own file.
pub fn status_result(entries: &Vec<(Option<String>, String)>) -> (r: ToolResult)
    ensures
        reports_status(r, entries@),
{
    let mut files: Vec<FileStatus> = Vec::new();
    let mut i: usize = 0;
    while i < entries.len()
        invariant
            i <= entries@.len(),
            file_rows(files@) == listed(entries@.take(i as int)),
            store_hidden(files@),
        decreases entries.len() - i,
    {
        let entry = &entries[i];
        let path = match &entry.0 {
            Some(p) => p.clone(),
            None => String::new(),
        };
        proof {
            assert(entries@.take(i as int + 1).drop_last() =~= entries@.take(i as int));
            assert(entries@.take(i as int + 1).last() == entries@[i as int]);
            assert(path@ == entry_path(entries@[i as int]));
        }
        if !is_text(&path, STORE_NAME) {
            let f = FileStatus { path, status: entry.1.clone() };
            let ghost before = files@;
            files.push(f);
            proof {
                assert(file_rows(files@) =~= file_rows(before).push((f.path@, f.status)));
                assert forall|k: int| 0 <= k < files@.len() implies (#[trigger] files@[k]).path@
                    != STORE_NAME@ by {
                    if k < before.len() {
                        assert(files@[k] == before[k]);
                    }
                }
            }
        }
        i = i + 1;
    }
    assert(entries@.take(entries@.len() as int) =~= entries@);
    ToolResult::Status { count: files.len(), files }
}

/// The commit a HEAD lookup `head` leads to: none where HEAD does not
/// resolve (as in a repository without commits), else the commit that the
/// reference names, if it names one.
fn commit_at_head<'r>(
    repo: &'r git2::Repository,
    head: Result<git2::Reference<'r>, git2::Error>,
) -> (r: Option<git2::Commit<'r>>)
    ensures
        head is Err ==> r is None,
{
    match head {
        Ok(reference) => match reference_target(&reference) {
            Some(oid) => match find_commit(repo, oid) {
                Ok(c) => Some(c),
                Err(_) => None,
            },
            None => None,
        },
        Err(_) => None,
    }
}

/// The commit HEAD resolves to, if it resolves.
fn head_commit<'r>(repo: &'r git2::Repository) -> Option<git2::Commit<'r>> {
    commit_at_head(repo, head(repo))
}

/// The parents of a new commit: none where HEAD resolves to no commit,
/// else exactly the HEAD commit.
pub fn commit_parents<'r>(head: &'r Option<git2::Commit<'r>>) -> (r: Vec<&'r git2::Commit<'r>>)
    ensures
        head is None <==> r@.len() == 0,
        head matches Some(c) ==> r@ == seq![c],
{
    let mut parents: Vec<&'r git2::Commit<'r>> = Vec::new();
    match head {
        Some(c) => {
            parents.push(c);
            assert(parents@ =~= seq![c]);
        },
        None => {},
    }
    parents
}

/// Who signs a commit.
pub enum Signer {
    /// The identity the repository configures.
    Configured(git2::Signature<'static>),
    /// A fixed identity, stamped with the time of the commit.
    Fixed { name: &'static str, email: &'static str },
}

/// The signer of a commit, given the lookup of the configured identity:
/// that identity where there is one, else the bot "GitForge MCP".
pub fn choose_signer(configured: Result<git2::Signature<'static>, git2::Error>) -> (r: Signer)
    ensures
        configured matches Ok(s) ==> (r matches Signer::Configured(t) && t == s),
        configured is Err ==> (r matches Signer::Fixed { name, email } && name@ == BOT_NAME@
            && email@ == BOT_EMAIL@),
{
    match configured {
        Ok(s) => Signer::Configured(s),
        Err(_) => Signer::Fixed { name: BOT_NAME, email: BOT_EMAIL },
    }
}

/// The signature of `signer`: the configured one as it is, or one made
/// now from the fixed name and email.
fn signature_of(signer: Signer) -> (r: Result<git2::Signature<'static>, McpError>)
    ensures
        signer matches Signer::Configured(s) ==> (r matches Ok(t) && t == s),
        r matches Err(e) ==> error_at(e, ErrorKind::SignatureFailed, "failed to create signature: "@),
{
    match signer {
        Signer::Configured(s) => Ok(s),
        Signer::Fixed { name, email } => match signature_now(name, email) {
            Ok(s) => Ok(s),
            Err(e) => Err(
                McpError::described(
                    ErrorKind::SignatureFailed,
                    "failed to create signature: ",
                    git_error_message(&e),
                ),
            ),
        },
    }
}

/// What creating a worktree must do first.
pub struct WorktreePlan {
    /// Make the directory at the path.
    pub make_dir: bool,
    /// Make the branch, at the commit HEAD resolves to.
    pub make_branch: bool,
}

/// The steps before adding a worktree: make its directory only where
/// nothing is at the path, and its branch only where the branch's ref is
/// missing.
pub fn plan_worktree(path_exists: bool, ref_found: bool) -> (r: WorktreePlan)
    ensures
        r.make_dir == !path_exists,
        r.make_branch == !ref_found,
{
    WorktreePlan { make_dir: !path_exists, make_branch: !ref_found }
}

/// The file of the store under the repository root `root`.
pub fn store_path(root: &str) -> (r: String)
    ensures
        r@ == root@ + "/"@ + STORE_NAME@,
{
    String::from_str(root).concat("/").concat(STORE_NAME)
}

/// Status options that record, as ghost flags, whether untracked files
/// were asked for and untracked directories are to be walked.
pub struct StatusScope {
    opts: git2::StatusOptions,
    untracked: Ghost<bool>,
    recursive: Ghost<bool>,
}

impl StatusScope {
    pub closed spec fn untracked(&self) -> bool {
        self.untracked@
    }

    pub closed spec fn recursive(&self) -> bool {
        self.recursive@
    }

    /// Default options, with neither flag asked for.
    pub fn new() -> (r: Self)
        ensures
            !r.untracked(),
            !r.recursive(),
    {
        StatusScope { opts: git2::StatusOptions::new(), untracked: Ghost(false), recursive: Ghost(false) }
    }

    pub fn include_untracked(&mut self, on: bool)
        ensures
            final(self).untracked() == on,
            final(self).recursive() == old(self).recursive(),
    {
        include_untracked(&mut self.opts, on);
        self.untracked = Ghost(on);
    }

    pub fn recurse_untracked_dirs(&mut self, on: bool)
        ensures
            final(self).recursive() == on,
            final(self).untracked() == old(self).untracked(),
    {
        recurse_untracked_dirs(&mut self.opts, on);
        self.recursive = Ghost(on);
    }

    /// The working-tree status of `repo`, untracked files included and
    /// untracked directories walked.
    fn statuses<'r>(&mut self, repo: &'r git2::Repository) -> (r: Result<
        git2::Statuses<'r>,
        git2::Error,
    >)
        requires
            old(self).untracked(),
            old(self).recursive(),
    {
        statuses(repo, &mut self.opts)
    }
}

/// One message read from a connection: text, already read as a request
/// or as the reason it is none, or a message of another kind.
pub enum Frame {
    Text(Result<McpRequest, String>),
    Other,
}

/// The life of a connection: the handshake, then requests answered one at
/// a time, then closed.
#[derive(Clone, Copy, Debug, PartialEq, Eq, Structural)]
pub enum ConnState {
    Handshaking,
    Serving,
    Closed,
}

/// What happens on a connection.
#[derive(Clone, Copy, Debug, PartialEq, Eq, Structural)]
pub enum ConnEvent {
    HandshakeSucceeded,
    HandshakeFailed,
    MessageHandled,
    TransportFailed,
    StreamEnded,
}

impl ConnState {
    pub open spec fn spec_next(self, event: ConnEvent) -> ConnState {
        match (self, event) {
            (ConnState::Handshaking, ConnEvent::HandshakeSucceeded) => ConnState::Serving,
            (ConnState::Serving, ConnEvent::MessageHandled) => ConnState::Serving,
            _ => ConnState::Closed,
        }
    }

    /// The state after `event`: a successful handshake starts serving, a
    /// handled message keeps serving, and anything else (a failed
    /// handshake, read or write, the end of the stream, or an event out of
    /// turn) closes the connection and only it.
    pub fn next(self, event: ConnEvent) -> (r: ConnState)
        ensures
            r == self.spec_next(event),
    {
        match (self, event) {
            (ConnState::Handshaking, ConnEvent::HandshakeSucceeded) => ConnState::Serving,
            (ConnState::Serving, ConnEvent::MessageHandled) => ConnState::Serving,
            _ => ConnState::Closed,
        }
    }

    /// Whether messages are read in this state.
    pub fn is_serving(self) -> (r: bool)
        ensures
            r == (self == ConnState::Serving),
    {
        match self {
            ConnState::Serving => true,
            _ => false,
        }
    }
}

/// A tool server over one repository root and its store.
pub struct GitForgeMcp {
    repo_path: String,
    db: std::sync::Mutex<rusqlite::Connection>,
}

impl GitForgeMcp {
    /// The repository root this server works on.
    pub closed spec fn root(&self) -> Seq<char> {
        self.repo_path@
    }

    /// A server over the repository at `repo_path`, with its store opened
    /// (and its tables created where absent) in the file `gitforge.db`
    /// under that root.
    pub fn new(repo_path: String) -> (r: Result<Self, String>)
        ensures
            r matches Ok(s) ==> s.root() == repo_path@,
            r matches Err(m) ==> starts_with(m@, "failed to open sqlite db: "@) || starts_with(
                m@,
                "failed to initialize db: "@,
            ),
    {
        let db_path = store_path(repo_path.as_str());
        let conn = match open_connection(db_path.as_str()) {
            Ok(c) => c,
            Err(e) => {
                let prefix = "failed to open sqlite db: ";
                let m = String::from_str(prefix).concat(sql_error_message(&e).as_str());
                assert(m@.subrange(0, prefix@.len() as int) =~= prefix@);
                return Err(m);
            },
        };
        match execute_batch(&conn, SCHEMA) {
            Ok(()) => {},
            Err(e) => {
                let prefix = "failed to initialize db: ";
                let m = String::from_str(prefix).concat(sql_error_message(&e).as_str());
                assert(m@.subrange(0, prefix@.len() as int) =~= prefix@);
                return Err(m);
            },
        }
        Ok(GitForgeMcp { repo_path, db: new_lock(conn) })
    }

    /// The fixed catalog of four capability descriptors.
    pub fn tools_list(&self) -> (r: Result<ToolResult, McpError>)
        ensures
            tools_outcome(r),
    {
        let mut tools: Vec<ToolDescriptor> = Vec::new();
        tools.push(
            ToolDescriptor {
                name: String::from_str("git_status"),
                description: String::from_str("Show git repository status"),
                input_schema: None,
            },
        );
        tools.push(
            ToolDescriptor {
                name: String::from_str("git_commit"),
                description: String::from_str("Create commit from current index"),
                input_schema: Some(
                    ToolSchema { properties: strings1("message"), required: strings1("message") },
                ),
            },
        );
        tools.push(
            ToolDescriptor {
                name: String::from_str("git_create_pr"),
                description: String::from_str("Create pull request metadata record"),
                input_schema: Some(
                    ToolSchema {
                        properties: strings3("title", "from", "to"),
                        required: strings3("title", "from", "to"),
                    },
                ),
            },
        );
        tools.push(
            ToolDescriptor {
                name: String::from_str("git_worktree_create"),
                description: String::from_str("Create git worktree and register in sqlite"),
                input_schema: Some(
                    ToolSchema {
                        properties: strings3("name", "path", "branch"),
                        required: strings3("name", "path", "branch"),
                    },
                ),
            },
        );
        Ok(ToolResult::Tools { tools })
    }

    fn open_repo(&self) -> (r: Result<git2::Repository, McpError>)
        ensures
            r matches Err(e) ==> is_repo_not_found(e),
    {
        match open_repository(self.repo_path.as_str()) {
            Ok(repo) => Ok(repo),
            Err(_) => Err(McpError::with_text(ErrorKind::RepositoryNotFound, "repository not found")),
        }
    }

    /// The working-tree status, untracked files included and untracked
    /// directories walked.
    pub fn git_status(&self) -> (r: Result<ToolResult, McpError>)
        ensures
            status_outcome(r),
    {
        let repo = self.open_repo()?;
        let mut scope = StatusScope::new();
        scope.include_untracked(true);
        scope.recurse_untracked_dirs(true);
        let st = match scope.statuses(&repo) {
            Ok(st) => st,
            Err(e) => {
                return Err(McpError::new(ErrorKind::StatusFailed, git_error_message(&e)));
            },
        };
        let mut entries: Vec<(Option<String>, String)> = Vec::new();
        let mut i: usize = 0;
        while i < usize::MAX
            decreases usize::MAX - i,
        {
            match status_at(&st, i) {
                Some(entry) => entries.push((status_entry_path(&entry), entry_status_label(&entry))),
                None => break,
            }
            i = i + 1;
        }
        Ok(status_result(&entries))
    }

    /// Writes the index, commits its tree on HEAD (with no parent where
    /// HEAD resolves to no commit, else with that commit as sole parent) and
    /// moves HEAD there. The message is the `message` parameter, by default
    /// "MCP commit"; the identity is the configured one, else a fixed bot.
    pub fn git_commit(&self, params: &Json) -> (r: Result<ToolResult, McpError>)
        ensures
            commit_outcome(*params, r),
    {
        let message = params.get_str_or("message", DEFAULT_COMMIT_MESSAGE);
        let repo = self.open_repo()?;
        let mut index = match repo_index(&repo) {
            Ok(index) => index,
            Err(e) => {
                return Err(McpError::described(ErrorKind::IndexOpen, "failed to open index: ", git_error_message(&e)));
            },
        };
        match write_index(&mut index) {
            Ok(()) => {},
            Err(e) => {
                return Err(McpError::described(ErrorKind::IndexWrite, "failed to write index: ", git_error_message(&e)));
            },
        }
        let tree_id = match write_tree(&mut index) {
            Ok(oid) => oid,
            Err(e) => {
                return Err(McpError::described(ErrorKind::TreeWrite, "failed to write tree: ", git_error_message(&e)));
            },
        };
        let tree = match find_tree(&repo, tree_id) {
            Ok(tree) => tree,
            Err(e) => {
                return Err(McpError::described(ErrorKind::TreeLookup, "failed to find tree: ", git_error_message(&e)));
            },
        };
        let signature = signature_of(choose_signer(repo_signature(&repo)))?;
        let head = head_commit(&repo);
        let parents = commit_parents(&head);
        let created = create_commit(
            &repo,
            "HEAD",
            &signature,
            message.as_str(),
            &tree,
            parents.as_slice(),
        );
        let commit_id = match created {
            Ok(oid) => oid,
            Err(e) => {
                return Err(McpError::described(ErrorKind::CommitFailed, "failed to commit: ", git_error_message(&e)));
            },
        };
        Ok(ToolResult::Commit { message, commit: oid_hex(&commit_id) })
    }

    /// Stores a pull-request record: the `title` parameter is required;
    /// `from` and `to` default to "feature" and "main".
    pub fn git_create_pr(&self, params: &Json) -> (r: Result<ToolResult, McpError>)
        ensures
            create_pr_outcome(*params, r),
    {
        let title = match params.get_str("title") {
            Some(t) => t,
            None => {
                return Err(McpError::with_text(ErrorKind::InvalidParams, "missing 'title'"));
            },
        };
        let from = params.get_str_or("from", "feature");
        let to = params.get_str_or("to", "main");
        let id = self.record_pr(title.as_str(), from.as_str(), to.as_str())?;
        Ok(ToolResult::PrCreated { title, from, to, id })
    }

    /// Stores a pull-request record in state "open" and gives its id.
    pub fn record_pr(&self, title: &str, from: &str, to: &str) -> (r: Result<i64, McpError>)
        ensures
            r matches Err(e) ==> is_lock_poisoned(e) || error_at(
                e,
                ErrorKind::PrInsert,
                "failed to save PR: "@,
            ),
    {
        let db = match lock_store(&self.db) {
            Some(db) => db,
            None => {
                return Err(McpError::with_text(ErrorKind::StoreLockPoisoned, "db lock poisoned"));
            },
        };
        match execute3(&db, INSERT_PR, title, from, to) {
            Ok(_) => {},
            Err(e) => {
                return Err(McpError::described(ErrorKind::PrInsert, "failed to save PR: ", sql_error_message(&e)));
            },
        }
        Ok(last_insert_rowid(&db))
    }

    /// Stores the worktree record `name`, replacing any record of that
    /// name: the last write wins.
    pub fn register_worktree(&self, name: &str, path: &str, branch: &str) -> (r: Result<
        (),
        McpError,
    >)
        ensures
            r matches Err(e) ==> is_lock_poisoned(e) || error_at(
                e,
                ErrorKind::WorktreeInsert,
                "failed to register worktree: "@,
            ),
    {
        let db = match lock_store(&self.db) {
            Some(db) => db,
            None => {
                return Err(McpError::with_text(ErrorKind::StoreLockPoisoned, "db lock poisoned"));
            },
        };
        match execute3(&db, UPSERT_WORKTREE, name, path, branch) {
            Ok(_) => Ok(()),
            Err(e) => {
                Err(
                    McpError::described(
                        ErrorKind::WorktreeInsert,
                        "failed to register worktree: ",
                        sql_error_message(&e),
                    ),
                )
            },
        }
    }

    /// The stored pull-request records, newest (highest id) first.
    pub fn prs_list(&self) -> (r: Result<ToolResult, McpError>)
        ensures
            prs_list_outcome(r),
    {
        let db = match lock_store(&self.db) {
            Some(db) => db,
            None => {
                return Err(McpError::with_text(ErrorKind::StoreLockPoisoned, "db lock poisoned"));
            },
        };
        let rows = match select_pr_rows(&db, SELECT_PRS) {
            Ok(rows) => rows,
            Err(QueryFailure::Prepare(e)) => {
                return Err(
                    McpError::described(
                        ErrorKind::PrQueryPrepare,
                        "failed to prepare query: ",
                        sql_error_message(&e),
                    ),
                );
            },
            Err(QueryFailure::Run(e)) => {
                return Err(
                    McpError::described(ErrorKind::PrQuery, "failed to list PRs: ", sql_error_message(&e)),
                );
            },
        };
        let ghost read = rows@;
        let prs = collect_rows(rows, ErrorKind::PrRow, "failed to parse PR row: ")?;
        proof {
            assert forall|i: int, j: int| 0 <= i < j < prs@.len() implies (#[trigger] prs@[i]).id
                >= (#[trigger] prs@[j]).id by {
                assert(read[i] is Ok && read[j] is Ok);
            }
        }
        Ok(ToolResult::PrList { prs })
    }

    /// Creates a worktree: `name`, `path` and `branch` are required. The
    /// directory at `path` is made with `make_dir` where nothing is there;
    /// the branch is made at the HEAD commit where it does not exist; then
    /// the worktree is added and its record stored, replacing any record of
    /// the same name.
    pub fn git_worktree_create<F: Fn(String) -> Result<(), String>>(
        &self,
        params: &Json,
        make_dir: &F,
    ) -> (r: Result<ToolResult, McpError>)
        requires
            forall|p: String| make_dir.requires((p,)),
        ensures
            worktree_create_outcome(*params, r),
    {
        let name = match params.get_str("name") {
            Some(v) => v,
            None => {
                return Err(McpError::with_text(ErrorKind::InvalidParams, "missing 'name'"));
            },
        };
        let path = match params.get_str("path") {
            Some(v) => v,
            None => {
                return Err(McpError::with_text(ErrorKind::InvalidParams, "missing 'path'"));
            },
        };
        let branch = match params.get_str("branch") {
            Some(v) => v,
            None => {
                return Err(McpError::with_text(ErrorKind::InvalidParams, "missing 'branch'"));
            },
        };
        let repo = self.open_repo()?;
        let exists = path_exists(path.as_str());
        let refname = String::from_str("refs/heads/").concat(branch.as_str());
        let found = match find_reference(&repo, refname.as_str()) {
            Ok(_) => true,
            Err(_) => false,
        };
        let plan = plan_worktree(exists, found);
        if plan.make_dir {
            match make_dir(path.clone()) {
                Ok(()) => {},
                Err(e) => {
                    return Err(
                        McpError::described(ErrorKind::WorktreeDir, "failed to create worktree path: ", e),
                    );
                },
            }
        }
        if plan.make_branch {
            let head = match head_commit(&repo) {
                Some(c) => c,
                None => {
                    return Err(
                        McpError::with_text(
                            ErrorKind::HeadUnresolved,
                            "unable to derive HEAD commit for new branch",
                        ),
                    );
                },
            };
            match create_branch(&repo, branch.as_str(), &head, false) {
                Ok(_) => {},
                Err(e) => {
                    return Err(McpError::described(ErrorKind::BranchCreate, "failed to create branch: ", git_error_message(&e)));
                },
            }
        }
        match add_worktree(&repo, name.as_str(), path.as_str()) {
            Ok(_) => {},
            Err(e) => {
                return Err(McpError::described(ErrorKind::WorktreeCreate, "failed to create worktree: ", git_error_message(&e)));
            },
        }
        self.register_worktree(name.as_str(), path.as_str(), branch.as_str())?;
        Ok(ToolResult::WorktreeCreated { name, path, branch, reference: refname })
    }

    /// The stored worktree records, newest (highest id) first.
    pub fn git_worktree_list(&self) -> (r: Result<ToolResult, McpError>)
        ensures
            worktree_list_outcome(r),
    {
        let db = match lock_store(&self.db) {
            Some(db) => db,
            None => {
                return Err(McpError::with_text(ErrorKind::StoreLockPoisoned, "db lock poisoned"));
            },
        };
        let rows = match select_worktree_rows(&db, SELECT_WORKTREES) {
            Ok(rows) => rows,
            Err(QueryFailure::Prepare(e)) => {
                return Err(
                    McpError::described(
                        ErrorKind::WorktreeQueryPrepare,
                        "failed to prepare query: ",
                        sql_error_message(&e),
                    ),
                );
            },
            Err(QueryFailure::Run(e)) => {
                return Err(
                    McpError::described(
                        ErrorKind::WorktreeQuery,
                        "failed to list worktrees: ",
                        sql_error_message(&e),
                    ),
                );
            },
        };
        let worktrees = collect_rows(rows, ErrorKind::WorktreeRow, "failed to parse worktree row: ")?;
        Ok(ToolResult::WorktreeList { worktrees })
    }

    /// Answers `req` with the handler its method names. The response echoes
    /// the request's id and holds exactly one of result and error.
    pub fn execute_mcp<F: Fn(String) -> Result<(), String>>(&self, req: McpRequest, make_dir: &F) -> (r:
        McpResponse)
        requires
            forall|p: String| make_dir.requires((p,)),
        ensures
            r.jsonrpc@ == PROTOCOL_VERSION@,
            r.id == req.id,
            r.well_formed(),
            dispatch_outcome(req.method@, req.params, r.outcome()),
    {
        let outcome = if is_text(&req.method, "tools/list") {
            self.tools_list()
        } else if is_text(&req.method, "git_status") {
            self.git_status()
        } else if is_text(&req.method, "git_commit") {
            self.git_commit(&req.params)
        } else if is_text(&req.method, "git_create_pr") {
            self.git_create_pr(&req.params)
        } else if is_text(&req.method, "prs_list") {
            self.prs_list()
        } else if is_text(&req.method, "git_worktree_create") {
            self.git_worktree_create(&req.params, make_dir)
        } else if is_text(&req.method, "git_worktree_list") {
            self.git_worktree_list()
        } else {
            let text = String::from_str("method '").concat(req.method.as_str()).concat(
                "' not found",
            );
            Err(McpError::new(ErrorKind::MethodNotFound, text))
        };
        McpResponse::from_outcome(req.id, outcome)
    }

    /// `execute_mcp`, for a host application that forwards single calls.
    pub fn execute_mcp_for_tauri<F: Fn(String) -> Result<(), String>>(
        &self,
        req: McpRequest,
        make_dir: &F,
    ) -> (r: McpResponse)
        requires
            forall|p: String| make_dir.requires((p,)),
        ensures
            r.jsonrpc@ == PROTOCOL_VERSION@,
            r.id == req.id,
            r.well_formed(),
            dispatch_outcome(req.method@, req.params, r.outcome()),
    {
        self.execute_mcp(req, make_dir)
    }

    /// The answer to one message of a connection: none to a message that is
    /// not text; a parse error with no id to text that is not a request;
    /// else the dispatcher's response.
    pub fn answer_frame<F: Fn(String) -> Result<(), String>>(&self, frame: Frame, make_dir: &F) -> (r:
        Option<McpResponse>)
        requires
            forall|p: String| make_dir.requires((p,)),
        ensures
            frame is Other ==> r is None,
            frame matches Frame::Text(Err(detail)) ==> r matches Some(resp) && is_parse_failure(
                resp,
                detail@,
            ),
            frame matches Frame::Text(Ok(req)) ==> r matches Some(resp) && resp.id == req.id
                && resp.well_formed() && dispatch_outcome(req.method@, req.params, resp.outcome()),
    {
        match frame {
            Frame::Text(Ok(req)) => Some(self.execute_mcp(req, make_dir)),
            Frame::Text(Err(detail)) => Some(McpResponse::parse_failure(detail.as_str())),
            Frame::Other => None,
        }
    }
}

} // verus!
