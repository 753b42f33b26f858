//! The calls into `git2`. Nothing in this module is proved. What a call
//! finds in the repository depends on the disk, and no contract here says
//! anything about it; only the two functions that read a status list that
//! is already in memory say what they return. Each function makes the calls
//! that its comment names and hands the result on, as a plain value or as an
//! opaque handle. None of them panics: `git2` reports every failure of these
//! calls as an `Err` or a `None`.

use vstd::prelude::*;

use crate::error::ErrorKind;
use crate::status::EntryFlags;

verus! {

/// `std::path::PathBuf`, carried through unread.
#[verifier::external_type_specification]
#[verifier::external_body]
pub struct ExPathBuf(std::path::PathBuf);

/// `git2::Repository`, an open repository; carried through unread.
#[verifier::external_type_specification]
#[verifier::external_body]
pub struct ExRepository(git2::Repository);

/// `git2::Reference`, a reference of a repository; carried through unread.
#[verifier::external_type_specification]
#[verifier::external_body]
pub struct ExReference<'repo>(git2::Reference<'repo>);

/// `git2::Branch`, a branch of a repository; carried through unread.
#[verifier::external_type_specification]
#[verifier::external_body]
pub struct ExBranch<'repo>(git2::Branch<'repo>);

/// `git2::Oid`, the identifier of a commit; carried through unread.
#[verifier::external_type_specification]
#[verifier::external_body]
pub struct ExOid(git2::Oid);

/// `git2::Buf`, a byte buffer filled by the backend; carried through unread.
#[verifier::external_type_specification]
#[verifier::external_body]
pub struct ExBuf(git2::Buf);

/// `git2::Statuses`, the list a status scan returns; a snapshot in memory
/// whose contents [`listed`] names.
#[verifier::external_type_specification]
#[verifier::external_body]
pub struct ExStatuses<'repo>(git2::Statuses<'repo>);

/// `git2::Error`, a failure reported by the backend; carried through unread.
#[verifier::external_type_specification]
#[verifier::external_body]
pub struct ExError(git2::Error);

/// Among which branches a name is looked up.
#[derive(Clone, Copy, Debug, PartialEq, Eq, Structural)]
pub enum BranchKind {
    Local,
    Remote,
}

/// Which comparisons a status scan makes.
#[derive(Clone, Copy, Debug, PartialEq, Eq, Structural)]
pub enum StatusScope {
    /// HEAD against the index only.
    Index,
    /// The index against the working tree only.
    Workdir,
    /// Both.
    IndexAndWorkdir,
}

/// `git2::Repository::discover`: opens the repository at or above `path`.
#[verifier::external_body]
pub(crate) fn discover(path: &std::path::PathBuf) -> Result<git2::Repository, git2::Error> {
    git2::Repository::discover(path)
}

/// `git2::Repository::head`: the reference that HEAD resolves to.
#[verifier::external_body]
pub(crate) fn head(repository: &git2::Repository) -> Result<git2::Reference<'_>, git2::Error> {
    repository.head()
}

/// `git2::Reference::name`: the full name of a reference, or `None` if the
/// name is not valid UTF-8.
#[verifier::external_body]
pub(crate) fn reference_name(reference: &git2::Reference<'_>) -> Option<String> {
    reference.name().map(|name| name.to_string())
}

/// `git2::Reference::target`: the commit a direct reference points to, or
/// `None` for a symbolic reference.
#[verifier::external_body]
pub(crate) fn reference_target(reference: &git2::Reference<'_>) -> Option<git2::Oid> {
    reference.target()
}

/// `git2::Repository::find_branch`: the branch of the given kind with the
/// given short name.
#[verifier::external_body]
pub(crate) fn find_branch<'repo>(
    repository: &'repo git2::Repository,
    name: &str,
    kind: BranchKind,
) -> Result<git2::Branch<'repo>, git2::Error> {
    let kind = match kind {
        BranchKind::Local => git2::BranchType::Local,
        BranchKind::Remote => git2::BranchType::Remote,
    };
    repository.find_branch(name, kind)
}

/// `git2::Branch::get`: the reference behind a branch.
#[verifier::external_body]
pub(crate) fn branch_reference<'a, 'repo>(branch: &'a git2::Branch<'repo>) -> &'a git2::Reference<
    'repo,
> {
    branch.get()
}

/// `git2::Repository::branch_upstream_name`: the name of the reference that
/// the local branch `ref_name` tracks.
#[verifier::external_body]
pub(crate) fn branch_upstream_name(repository: &git2::Repository, ref_name: &str) -> Result<
    git2::Buf,
    git2::Error,
> {
    repository.branch_upstream_name(ref_name)
}

/// `git2::Buf::as_str`: the content of a buffer, or `None` if it is not
/// valid UTF-8.
#[verifier::external_body]
pub(crate) fn buf_text(buf: &git2::Buf) -> Option<String> {
    buf.as_str().map(|text| text.to_string())
}

/// `git2::Repository::refname_to_id`: the commit that the reference with the
/// given full name resolves to.
#[verifier::external_body]
pub(crate) fn refname_to_id(repository: &git2::Repository, name: &str) -> Result<
    git2::Oid,
    git2::Error,
> {
    repository.refname_to_id(name)
}

/// `git2::Repository::graph_ahead_behind`: how many commits are reachable
/// from `local` but not from `upstream`, and how many the other way round.
#[verifier::external_body]
pub(crate) fn graph_ahead_behind(
    repository: &git2::Repository,
    local: git2::Oid,
    upstream: git2::Oid,
) -> Result<(usize, usize), git2::Error> {
    repository.graph_ahead_behind(local, upstream)
}

/// `git2::Repository::statuses`, with options made by
/// `git2::StatusOptions::new`, `include_untracked` and `show`: the list of
/// entries that differ between HEAD, the index and the working tree.
#[verifier::external_body]
pub(crate) fn statuses(
    repository: &git2::Repository,
    include_untracked: bool,
    scope: StatusScope,
) -> Result<git2::Statuses<'_>, git2::Error> {
    let mut options = git2::StatusOptions::new();
    options.include_untracked(include_untracked);
    options.show(
        match scope {
            StatusScope::Index => git2::StatusShow::Index,
            StatusScope::Workdir => git2::StatusShow::Workdir,
            StatusScope::IndexAndWorkdir => git2::StatusShow::IndexAndWorkdir,
        },
    );
    repository.statuses(Some(&mut options))
}

/// What a status list holds: for each of its entries, in the list's order,
/// the flags that `git2::StatusEntry::status` gives, read off through
/// `git2::Status::contains`. A list is a snapshot that the backend made in
/// memory; reading it does not go back to the disk.
pub uninterp spec fn listed(list: git2::Statuses<'_>) -> Seq<EntryFlags>;

/// `git2::Statuses::len`: the number of entries in the list.
#[verifier::external_body]
pub(crate) fn entry_count(list: &git2::Statuses<'_>) -> (count: usize)
    ensures
        count == listed(*list).len(),
{
    list.len()
}

/// `git2::Statuses::get`, then `git2::StatusEntry::status` and, for each of
/// the eight flags that the summary looks at, `git2::Status::contains`: the
/// flags of the entry at `index`, or `None` if `index` is not below the
/// number of entries.
#[verifier::external_body]
pub(crate) fn entry_at(list: &git2::Statuses<'_>, index: usize) -> (flags: Option<EntryFlags>)
    ensures
        index < listed(*list).len() ==> flags == Some(listed(*list)[index as int]),
        index >= listed(*list).len() ==> flags is None,
{
    list.get(index).map(|entry| entry.status()).map(|status| EntryFlags {
        index_new: status.contains(git2::Status::INDEX_NEW),
        index_modified: status.contains(git2::Status::INDEX_MODIFIED),
        index_renamed: status.contains(git2::Status::INDEX_RENAMED),
        index_deleted: status.contains(git2::Status::INDEX_DELETED),
        worktree_new: status.contains(git2::Status::WT_NEW),
        worktree_modified: status.contains(git2::Status::WT_MODIFIED),
        worktree_renamed: status.contains(git2::Status::WT_RENAMED),
        worktree_deleted: status.contains(git2::Status::WT_DELETED),
    })
}

/// `git2::Error::code`, reduced to the kinds that the prompt tells apart.
#[verifier::external_body]
pub(crate) fn error_kind(error: &git2::Error) -> ErrorKind {
    match error.code() {
        git2::ErrorCode::NotFound => ErrorKind::NotFound,
        git2::ErrorCode::UnbornBranch => ErrorKind::UnbornBranch,
        _ => ErrorKind::Other,
    }
}

/// The `Display` of a `git2::Error`: its message with class and code.
#[verifier::external_body]
pub(crate) fn error_text(error: &git2::Error) -> String {
    error.to_string()
}

} // verus!
