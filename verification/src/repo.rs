//! The analyses of a repository on disk.

use vstd::prelude::*;
use vstd::string::*;

use crate::branch::{names_branch, BranchStatus, MAINLINE_BRANCH};
use crate::error::{AnalysisError, Operation};
use crate::git;
use crate::git::{BranchKind, StatusScope};
use crate::status::{EntryFlags, RepoStatus};
use crate::style::{lemma_renders_concat, renders};

verus! {

/// A repository that was found on disk, and the short name of the branch
/// that counts as its mainline. The repository is only ever read.
pub struct Repo {
    repository: git2::Repository,
    mainline: String,
}

/// The prompt line for the two summaries: branch first, then status, with
/// nothing in between.
pub fn prompt_line(branch: &BranchStatus, status: &RepoStatus) -> (line: String)
    ensures
        renders(branch.spans() + status.spans(), line@),
{
    let mut line = branch.to_string();
    let ghost head = line@;
    let tail = status.to_string();
    line.append(tail.as_str());
    proof {
        lemma_renders_concat(branch.spans(), head, status.spans(), tail@);
    }
    line
}

/// Copies the flags of every entry out of a status list, in the list's
/// order.
fn read_entries(list: &git2::Statuses<'_>) -> (entries: Vec<EntryFlags>)
    ensures
        entries@ == git::listed(*list),
{
    let count = git::entry_count(list);
    let mut entries: Vec<EntryFlags> = Vec::new();
    let mut i: usize = 0;
    while i < count
        invariant
            i <= count,
            count == git::listed(*list).len(),
            entries@ == git::listed(*list).take(i as int),
        decreases count - i,
    {
        if let Some(flags) = git::entry_at(list, i) {
            entries.push(flags);
        }
        proof {
            assert(git::listed(*list).take(i + 1) =~= git::listed(*list).take(i as int).push(
                git::listed(*list)[i as int],
            ));
        }
        i += 1;
    }
    proof {
        assert(git::listed(*list).take(count as int) =~= git::listed(*list));
    }
    entries
}

impl Repo {
    /// The short name of the branch that counts as the mainline.
    pub closed spec fn mainline(&self) -> Seq<char> {
        self.mainline@
    }

    /// What a branch analysis of this repository can end in: the detached
    /// summary, or a summary for a HEAD on some branch.
    pub open spec fn may_report(&self, status: BranchStatus) -> bool {
        status.is_detached() || exists|ref_name: Seq<char>| #[trigger]
            status.is_on(ref_name, self.mainline())
    }

    /// Looks for a repository at `path` or above it; `None` if there is none
    /// that can be opened. The mainline is the branch named by
    /// [`MAINLINE_BRANCH`].
    pub fn discover(path: &std::path::PathBuf) -> (found: Option<Repo>)
        ensures
            found matches Some(repo) ==> repo.mainline() == MAINLINE_BRANCH@,
    {
        match git::discover(path) {
            Ok(repository) => Some(Repo { repository, mainline: String::from_str(MAINLINE_BRANCH) }),
            Err(_) => None,
        }
    }

    /// The same repository with another branch as its mainline.
    pub fn with_mainline(self, mainline: String) -> (repo: Repo)
        ensures
            repo.mainline() == mainline@,
    {
        Repo { repository: self.repository, mainline }
    }

    /// Scans the index and the working tree, untracked files included, and
    /// counts the changed entries by category. Fails only if the scan itself
    /// fails.
    pub fn status(&self) -> (outcome: Result<RepoStatus, AnalysisError>)
        ensures
            match outcome {
                Ok(status) => status.well_formed(),
                Err(error) => error.operation == Operation::Status,
            },
    {
        let scan = match git::statuses(&self.repository, true, StatusScope::IndexAndWorkdir) {
            Ok(list) => Ok(read_entries(&list)),
            Err(error) => Err(git::error_text(&error)),
        };
        RepoStatus::from_scan(scan)
    }

    /// Finds out where HEAD is and how far it is from the mainline and from
    /// its upstream. A repository without commits or without HEAD, and one
    /// whose HEAD is on no branch, is detached; a distance that cannot be
    /// measured is absent. Fails only if HEAD cannot be read for another
    /// reason.
    pub fn branch(&self) -> (outcome: Result<BranchStatus, AnalysisError>)
        ensures
            match outcome {
                Ok(status) => self.may_report(status),
                Err(error) => error.operation == Operation::Branch,
            },
    {
        let head = match git::head(&self.repository) {
            Ok(head) => head,
            Err(error) => {
                return BranchStatus::without_head(
                    git::error_kind(&error),
                    git::error_text(&error),
                );
            },
        };
        let ref_name = git::reference_name(&head);
        let at = git::reference_target(&head);
        let local = self.distance(at, self.mainline_target());
        let upstream = match &ref_name {
            Some(name) => self.distance(at, self.upstream_target(name.as_str())),
            None => None,
        };
        let ghost read = ref_name;
        let status = BranchStatus::for_head(ref_name, self.mainline.as_str(), local, upstream);
        proof {
            if read is Some && names_branch(read->0@) {
                assert(status.is_on(read->0@, self.mainline()));
            }
        }
        Ok(status)
    }

    /// Both analyses, written as one prompt line: the branch summary first,
    /// then the status summary. Fails if either analysis fails, and then
    /// writes nothing.
    pub fn prompt(&self) -> (outcome: Result<String, AnalysisError>)
        ensures
            outcome matches Ok(line) ==> exists|branch: BranchStatus, status: RepoStatus|
                #![auto]
                self.may_report(branch) && status.well_formed() && renders(
                    branch.spans() + status.spans(),
                    line@,
                ),
    {
        let branch = match self.branch() {
            Ok(branch) => branch,
            Err(error) => {
                return Err(error);
            },
        };
        let status = match self.status() {
            Ok(status) => status,
            Err(error) => {
                return Err(error);
            },
        };
        Ok(prompt_line(&branch, &status))
    }

    /// The commit of the local mainline branch, if there is one.
    fn mainline_target(&self) -> Option<git2::Oid> {
        match git::find_branch(&self.repository, self.mainline.as_str(), BranchKind::Local) {
            Ok(branch) => git::reference_target(git::branch_reference(&branch)),
            Err(_) => None,
        }
    }

    /// The commit of the branch that `ref_name` tracks, if one is configured
    /// and exists.
    fn upstream_target(&self, ref_name: &str) -> Option<git2::Oid> {
        let followed = match git::branch_upstream_name(&self.repository, ref_name) {
            Ok(buf) => git::buf_text(&buf),
            Err(_) => None,
        };
        match followed {
            Some(name) => git::refname_to_id(&self.repository, name.as_str()).ok(),
            None => None,
        }
    }

    /// The `(ahead, behind)` distance between two commits; absent if either
    /// commit is missing or the distance cannot be computed.
    fn distance(&self, from: Option<git2::Oid>, to: Option<git2::Oid>) -> (d: Option<
        (usize, usize),
    >)
        ensures
            from is None || to is None ==> d is None,
    {
        match (from, to) {
            (Some(from), Some(to)) => git::graph_ahead_behind(&self.repository, from, to).ok(),
            _ => None,
        }
    }
}

} // verus!
