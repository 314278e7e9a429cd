//! The repository backend: the version-control primitives that the
//! handlers sequence, each behind a trusted item over the `git2` crate.
//! What they return depends on the repository on disk, so their contracts
//! say only what holds of every outcome.
use vstd::prelude::*;

verus! {

#[verifier::external_type_specification]
#[verifier::external_body]
pub struct ExRepository(git2::Repository);

#[verifier::external_type_specification]
#[verifier::external_body]
pub struct ExGitError(git2::Error);

#[verifier::external_type_specification]
#[verifier::external_body]
pub struct ExIndex(git2::Index);

#[verifier::external_type_specification]
#[verifier::external_body]
pub struct ExOid(git2::Oid);

#[verifier::external_type_specification]
#[verifier::external_body]
pub struct ExTree<'repo>(git2::Tree<'repo>);

#[verifier::external_type_specification]
#[verifier::external_body]
pub struct ExSignature<'a>(git2::Signature<'a>);

#[verifier::external_type_specification]
#[verifier::external_body]
pub struct ExReference<'repo>(git2::Reference<'repo>);

#[verifier::external_type_specification]
#[verifier::external_body]
pub struct ExCommit<'repo>(git2::Commit<'repo>);

#[verifier::external_type_specification]
#[verifier::external_body]
pub struct ExStatusOptions(git2::StatusOptions);

#[verifier::external_type_specification]
#[verifier::external_body]
pub struct ExStatuses<'repo>(git2::Statuses<'repo>);

#[verifier::external_type_specification]
#[verifier::external_body]
pub struct ExStatusEntry<'s>(git2::StatusEntry<'s>);

#[verifier::external_type_specification]
#[verifier::external_body]
pub struct ExBranch<'repo>(git2::Branch<'repo>);

#[verifier::external_type_specification]
#[verifier::external_body]
pub struct ExWorktree(git2::Worktree);

/// A lowercase hexadecimal digit.
pub open spec fn is_hex_digit(c: char) -> bool {
    ('0' <= c && c <= '9') || ('a' <= c && c <= 'f')
}

/// Relies on git2::Repository::open: opens the repository at `path`.
#[verifier::external_body]
pub(crate) fn open_repository(path: &str) -> (r: Result<git2::Repository, git2::Error>) {
    git2::Repository::open(path)
}

/// Relies on git2::StatusOptions::new: default status options.
pub assume_specification[ git2::StatusOptions::new ]() -> git2::StatusOptions;

/// Relies on git2::StatusOptions::include_untracked.
#[verifier::external_body]
pub(crate) fn include_untracked(opts: &mut git2::StatusOptions, on: bool) {
    opts.include_untracked(on);
}

/// Relies on git2::StatusOptions::recurse_untracked_dirs.
#[verifier::external_body]
pub(crate) fn recurse_untracked_dirs(opts: &mut git2::StatusOptions, on: bool) {
    opts.recurse_untracked_dirs(on);
}

/// Relies on git2::Repository::statuses: the working-tree status under
/// `opts`.
#[verifier::external_body]
pub(crate) fn statuses<'r>(repo: &'r git2::Repository, opts: &mut git2::StatusOptions) -> (r:
    Result<git2::Statuses<'r>, git2::Error>) {
    repo.statuses(Some(opts))
}

/// Relies on git2::Statuses::get: entry `i`, or `None` past the last one.
#[verifier::external_body]
pub(crate) fn status_at<'s>(s: &'s git2::Statuses, i: usize) -> (r: Option<git2::StatusEntry<'s>>) {
    s.get(i)
}

/// Relies on git2::StatusEntry::path: the entry's path, `None` where it is
/// not UTF-8.
#[verifier::external_body]
pub(crate) fn entry_path(e: &git2::StatusEntry) -> (r: Option<String>) {
    e.path().ok().map(|p| p.to_string())
}

/// Relies on git2::StatusEntry::status: the entry's status flags, in their
/// `Debug` form.
#[verifier::external_body]
pub(crate) fn entry_status_label(e: &git2::StatusEntry) -> (r: String) {
    format!("{:?}", e.status())
}

/// Relies on git2::Repository::index: the repository's index.
#[verifier::external_body]
pub(crate) fn repo_index(repo: &git2::Repository) -> (r: Result<git2::Index, git2::Error>) {
    repo.index()
}

/// Relies on git2::Index::write: writes the index to disk.
#[verifier::external_body]
pub(crate) fn write_index(index: &mut git2::Index) -> (r: Result<(), git2::Error>) {
    index.write()
}

/// Relies on git2::Index::write_tree: writes the index as a tree.
#[verifier::external_body]
pub(crate) fn write_tree(index: &mut git2::Index) -> (r: Result<git2::Oid, git2::Error>) {
    index.write_tree()
}

/// Relies on git2::Repository::find_tree: the tree with id `oid`.
#[verifier::external_body]
pub(crate) fn find_tree<'r>(repo: &'r git2::Repository, oid: git2::Oid) -> (r: Result<
    git2::Tree<'r>,
    git2::Error,
>) {
    repo.find_tree(oid)
}

/// Relies on git2::Repository::signature: the configured identity.
#[verifier::external_body]
pub(crate) fn repo_signature(repo: &git2::Repository) -> (r: Result<
    git2::Signature<'static>,
    git2::Error,
>) {
    repo.signature()
}

/// Relies on git2::Signature::now: an identity stamped with the time now.
#[verifier::external_body]
pub(crate) fn signature_now(name: &str, email: &str) -> (r: Result<
    git2::Signature<'static>,
    git2::Error,
>) {
    git2::Signature::now(name, email)
}

/// Relies on git2::Repository::head: the reference HEAD points to.
#[verifier::external_body]
pub(crate) fn head<'r>(repo: &'r git2::Repository) -> (r: Result<git2::Reference<'r>, git2::Error>) {
    repo.head()
}

/// Relies on git2::Reference::target: the object a direct reference names.
#[verifier::external_body]
pub(crate) fn reference_target(reference: &git2::Reference) -> (r: Option<git2::Oid>) {
    reference.target()
}

/// Relies on git2::Repository::find_commit: the commit with id `oid`.
#[verifier::external_body]
pub(crate) fn find_commit<'r>(repo: &'r git2::Repository, oid: git2::Oid) -> (r: Result<
    git2::Commit<'r>,
    git2::Error,
>) {
    repo.find_commit(oid)
}

/// Relies on git2::Repository::commit: a commit of `tree` with `parents`,
/// by `sig` as author and committer, moving `update_ref` to it.
#[verifier::external_body]
pub(crate) fn create_commit(
    repo: &git2::Repository,
    update_ref: &str,
    sig: &git2::Signature,
    message: &str,
    tree: &git2::Tree,
    parents: &[&git2::Commit],
) -> (r: Result<git2::Oid, git2::Error>) {
    repo.commit(Some(update_ref), sig, sig, message, tree, parents)
}

/// Relies on the `Display` form of git2::Oid, which hex-encodes the id
/// with lowercase digits; without git2's `unstable-sha256` feature every id
/// is a SHA-1 of 40 digits.
#[verifier::external_body]
pub(crate) fn oid_hex(oid: &git2::Oid) -> (r: String)
    ensures
        r@.len() == 40,
        forall|i: int| 0 <= i < r@.len() ==> is_hex_digit(#[trigger] r@[i]),
{
    oid.to_string()
}

/// Relies on git2::Repository::find_reference: the reference named `name`.
#[verifier::external_body]
pub(crate) fn find_reference<'r>(repo: &'r git2::Repository, name: &str) -> (r: Result<
    git2::Reference<'r>,
    git2::Error,
>) {
    repo.find_reference(name)
}

/// Relies on git2::Repository::branch: a branch `name` at `target`.
#[verifier::external_body]
pub(crate) fn create_branch<'r>(
    repo: &'r git2::Repository,
    name: &str,
    target: &git2::Commit,
    force: bool,
) -> (r: Result<git2::Branch<'r>, git2::Error>) {
    repo.branch(name, target, force)
}

/// Relies on git2::Repository::worktree: a worktree `name` at `path`, with
/// default options.
#[verifier::external_body]
pub(crate) fn add_worktree(repo: &git2::Repository, name: &str, path: &str) -> (r: Result<
    git2::Worktree,
    git2::Error,
>) {
    repo.worktree(name, std::path::Path::new(path), None)
}

/// Relies on std::path::Path::exists: whether something is at `path`.
#[verifier::external_body]
pub(crate) fn path_exists(path: &str) -> (r: bool) {
    std::path::Path::new(path).exists()
}

/// Relies on the `Display` form of git2::Error: the error's text.
#[verifier::external_body]
pub(crate) fn git_error_message(e: &git2::Error) -> (r: String) {
    e.to_string()
}

} // verus!
