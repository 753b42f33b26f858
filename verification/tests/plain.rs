use git_prompt::branch::{
    is_branch_ref, BranchStatus, BRANCH_PREFIX, DETACHED, MAINLINE_BRANCH, MAINLINE_GLYPH,
};
use git_prompt::error::{AnalysisError, ErrorKind, Operation};
use git_prompt::repo::prompt_line;
use git_prompt::status::{EntryFlags, RepoStatus};

fn unstyled() {
    colored::control::set_override(false);
}

fn branch(name: &str, local: Option<(usize, usize)>, upstream: Option<(usize, usize)>) -> BranchStatus {
    BranchStatus { name: name.to_string(), local, upstream }
}

#[test]
fn clean_status_is_empty() {
    unstyled();
    assert_eq!(RepoStatus::new().to_string(), "");
}

#[test]
fn status_tokens_come_in_fixed_order() {
    unstyled();
    let status = RepoStatus {
        modifications_staged: Some(2),
        modifications: Some(5),
        new_files: Some(1),
        untracked: Some(8),
        renames_staged: Some(3),
        renames: Some(6),
        deletions_staged: Some(4),
        deletions: Some(7),
    };
    assert_eq!(status.to_string(), "1N2M3R4D5M6R7D8U");
}

#[test]
fn absent_counters_leave_no_trace() {
    unstyled();
    let mut status = RepoStatus::new();
    status.deletions = Some(12);
    assert_eq!(status.to_string(), "12D");
    status.new_files = Some(3);
    assert_eq!(status.to_string(), "3N12D");
}

#[test]
fn present_zero_counter_is_written() {
    unstyled();
    let mut status = RepoStatus::new();
    status.untracked = Some(0);
    assert_eq!(status.to_string(), "0U");
}

#[test]
fn local_token_for_each_case() {
    unstyled();
    assert_eq!(branch("b", Some((3, 1)), None).local(), Some("↔31".to_string()));
    assert_eq!(branch("b", Some((3, 0)), None).local(), Some("←3".to_string()));
    assert_eq!(branch("b", Some((0, 14)), None).local(), Some("→14".to_string()));
    assert_eq!(branch("b", Some((0, 0)), None).local(), Some("⦰".to_string()));
    assert_eq!(branch("b", None, None).local(), Some("⦰".to_string()));
}

#[test]
fn upstream_token_for_each_case() {
    unstyled();
    assert_eq!(branch("b", None, Some((3, 1))).upstream(), Some("⇵31".to_string()));
    assert_eq!(branch("b", None, Some((12, 0))).upstream(), Some("↓12".to_string()));
    assert_eq!(branch("b", None, Some((0, 2))).upstream(), Some("↑2".to_string()));
    assert_eq!(branch("b", None, Some((0, 0))).upstream(), Some("≡".to_string()));
    assert_eq!(branch("b", None, None).upstream(), Some("⚡".to_string()));
}

#[test]
fn upstream_token_keeps_ahead_before_behind() {
    unstyled();
    assert_eq!(branch("b", None, Some((1, 3))).upstream(), Some("⇵13".to_string()));
    assert_eq!(branch("b", None, Some((10, 200))).upstream(), Some("⇵10200".to_string()));
}

#[test]
fn branch_string_is_name_local_upstream() {
    unstyled();
    let status = branch("refs/heads/topic", Some((2, 5)), Some((0, 1)));
    assert_eq!(status.to_string(), "refs/heads/topic↔25↑1");
}

#[test]
fn detached_branch_has_no_comparators() {
    unstyled();
    let status = BranchStatus::detached();
    assert_eq!(status.name, "detached");
    assert_eq!(status.name, DETACHED);
    assert_eq!(status.local, None);
    assert_eq!(status.upstream, None);
    assert_eq!(status.to_string(), "detached⦰⚡");
}

#[test]
fn head_on_a_branch_shows_its_name_and_distances() {
    let status = BranchStatus::for_head(Some("refs/heads/topic".to_string()), "master", Some((2, 0)), Some((0, 3)));
    let expected = BranchStatus { name: "refs/heads/topic".to_string(), local: Some((2, 0)), upstream: Some((0, 3)) };
    assert_eq!(status, expected);
    let status = BranchStatus::for_head(Some("refs/heads/master".to_string()), "master", Some((0, 0)), None);
    let expected = BranchStatus { name: "🅼".to_string(), local: Some((0, 0)), upstream: None };
    assert_eq!(status, expected);
}

#[test]
fn head_on_no_branch_is_detached_whatever_was_measured() {
    for name in ["HEAD", "refs/remotes/origin/master", "refs/tags/v1", "master", ""] {
        let status = BranchStatus::for_head(Some(name.to_string()), "master", Some((1, 2)), Some((3, 4)));
        assert_eq!(status, BranchStatus::detached());
    }
    let status = BranchStatus::for_head(None, "master", Some((1, 2)), Some((3, 4)));
    assert_eq!(status, BranchStatus::detached());
    assert_eq!(status.name, "detached");
    assert_eq!(status.local, None);
    assert_eq!(status.upstream, None);
}

#[test]
fn missing_or_unborn_head_is_detached() {
    let unborn = BranchStatus::without_head(ErrorKind::UnbornBranch, "no commits".to_string());
    assert_eq!(unborn, Ok(BranchStatus::detached()));
    let missing = BranchStatus::without_head(ErrorKind::NotFound, "no HEAD".to_string());
    assert_eq!(missing, Ok(BranchStatus::detached()));
}

#[test]
fn other_head_failure_is_an_error() {
    let outcome = BranchStatus::without_head(ErrorKind::Other, "corrupt".to_string());
    let expected = AnalysisError { operation: Operation::Branch, detail: "corrupt".to_string() };
    assert_eq!(outcome, Err(expected));
}

#[test]
fn mainline_is_shown_as_its_glyph() {
    let status = BranchStatus::on_reference("refs/heads/master".to_string(), MAINLINE_BRANCH, Some((0, 0)), None);
    assert_eq!(status.name, "🅼");
    assert_eq!(status.name, MAINLINE_GLYPH);
    assert_eq!(status.local, Some((0, 0)));
    assert_eq!(status.upstream, None);
}

#[test]
fn other_references_keep_their_name() {
    for name in ["refs/heads/main", "refs/heads/masters", "master", "HEAD", "refs/heads/feature/x", ""] {
        let status = BranchStatus::on_reference(name.to_string(), "master", None, Some((1, 2)));
        assert_eq!(status.name, name);
        assert_eq!(status.local, None);
        assert_eq!(status.upstream, Some((1, 2)));
    }
}

#[test]
fn branch_names_start_with_the_branch_prefix() {
    for name in ["refs/heads/master", "refs/heads/x", "refs/heads/", "refs/heads/a/b", "refs/heads/ü"] {
        assert!(is_branch_ref(name));
    }
    for name in ["", "HEAD", "master", "refs/heads", "refs/head/x", "refs/tags/v1", "refs/remotes/origin/master", "xrefs/heads/a", "Refs/heads/a", "ürefs/heads/"] {
        assert!(!is_branch_ref(name));
    }
    assert!(!is_branch_ref(DETACHED));
    assert!(!is_branch_ref(MAINLINE_GLYPH));
}

#[test]
fn another_branch_can_be_the_mainline() {
    let main = BranchStatus::on_reference("refs/heads/main".to_string(), "main", None, None);
    assert_eq!(main.name, "🅼");
    let master = BranchStatus::on_reference("refs/heads/master".to_string(), "main", None, None);
    assert_eq!(master.name, "refs/heads/master");
    let short = BranchStatus::on_reference("main".to_string(), "main", None, None);
    assert_eq!(short.name, "main");
    let nested = BranchStatus::on_reference("refs/heads/team/main".to_string(), "team/main", None, None);
    assert_eq!(nested.name, "🅼");
}

#[test]
fn names_of_the_prompt_are_what_they_are() {
    assert_eq!(MAINLINE_BRANCH, "master");
    assert_eq!(BRANCH_PREFIX, "refs/heads/");
    assert_eq!(MAINLINE_GLYPH, "🅼");
    assert_eq!(DETACHED, "detached");
}

#[test]
fn error_message_names_the_operation() {
    let branch = AnalysisError { operation: Operation::Branch, detail: "bad object".to_string() };
    assert_eq!(branch.message(), "failed to analyze branch: bad object");
    let status = AnalysisError { operation: Operation::Status, detail: "bad index".to_string() };
    assert_eq!(status.message(), "failed to get status: bad index");
}

#[test]
fn feature_branch_with_staged_and_untracked_files() {
    unstyled();
    let mut staged = EntryFlags::none();
    staged.index_new = true;
    let mut untracked = EntryFlags::none();
    untracked.worktree_new = true;
    let status = RepoStatus::tally(&vec![staged, untracked, staged]);
    let branch = BranchStatus::on_reference("refs/heads/feature".to_string(), "master", None, Some((3, 1)));
    assert_eq!(branch.to_string(), "refs/heads/feature⦰⇵31");
    assert_eq!(status.to_string(), "2N1U");
    let line = prompt_line(&branch, &status);
    assert_eq!(line, "refs/heads/feature⦰⇵312N1U");
    assert!(line.ends_with("2N1U"));
    for letter in ["M", "R", "D"] {
        assert!(!status.to_string().contains(letter));
    }
}

#[test]
fn clean_mainline_in_sync_with_upstream() {
    unstyled();
    let status = RepoStatus::tally(&Vec::new());
    let branch = BranchStatus::on_reference("refs/heads/master".to_string(), "master", Some((0, 0)), Some((0, 0)));
    assert_eq!(branch.upstream(), Some("≡".to_string()));
    assert_eq!(status.to_string(), "");
    assert_eq!(prompt_line(&branch, &status), "🅼⦰≡");
}

#[test]
fn rendering_twice_gives_the_same_text() {
    unstyled();
    let branch = branch("refs/heads/x", Some((1, 0)), Some((0, 4)));
    assert_eq!(branch.to_string(), branch.to_string());
    let mut status = RepoStatus::new();
    status.modifications = Some(3);
    assert_eq!(status.to_string(), status.to_string());
}
