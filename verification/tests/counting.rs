use git_prompt::decimal::decimal_string;
use git_prompt::error::{AnalysisError, Operation};
use git_prompt::status::{Category, EntryFlags, RepoStatus};

fn flags(set: &[Category]) -> EntryFlags {
    let mut flags = EntryFlags::none();
    for category in set {
        match category {
            Category::NewStaged => flags.index_new = true,
            Category::ModifiedStaged => flags.index_modified = true,
            Category::RenamedStaged => flags.index_renamed = true,
            Category::DeletedStaged => flags.index_deleted = true,
            Category::Modified => flags.worktree_modified = true,
            Category::Renamed => flags.worktree_renamed = true,
            Category::Deleted => flags.worktree_deleted = true,
            Category::Untracked => flags.worktree_new = true,
        }
    }
    flags
}

const ALL: [Category; 8] = [
    Category::ModifiedStaged,
    Category::Modified,
    Category::NewStaged,
    Category::Untracked,
    Category::RenamedStaged,
    Category::Renamed,
    Category::DeletedStaged,
    Category::Deleted,
];

#[test]
fn entry_without_flags_has_no_category() {
    assert_eq!(EntryFlags::none().classify(), None);
}

#[test]
fn single_flag_gives_its_own_category() {
    for category in ALL {
        assert_eq!(flags(&[category]).classify(), Some(category));
    }
}

#[test]
fn first_flag_in_precedence_order_decides() {
    for first in 0..ALL.len() {
        for second in first..ALL.len() {
            let both = flags(&[ALL[second], ALL[first]]);
            assert_eq!(both.classify(), Some(ALL[first]));
        }
    }
    assert_eq!(flags(&ALL).classify(), Some(Category::ModifiedStaged));
}

#[test]
fn staged_modification_hides_worktree_modification() {
    let both = flags(&[Category::ModifiedStaged, Category::Modified]);
    let status = RepoStatus::tally(&vec![both]);
    assert_eq!(status.modifications_staged, Some(1));
    assert_eq!(status.modifications, None);
}

#[test]
fn worktree_modification_hides_new_in_index() {
    let both = flags(&[Category::NewStaged, Category::Modified]);
    let status = RepoStatus::tally(&vec![both]);
    assert_eq!(status.modifications, Some(1));
    assert_eq!(status.new_files, None);
}

#[test]
fn new_summary_has_no_counters() {
    let status = RepoStatus::new();
    assert_eq!(status.modifications_staged, None);
    assert_eq!(status.modifications, None);
    assert_eq!(status.new_files, None);
    assert_eq!(status.untracked, None);
    assert_eq!(status.renames_staged, None);
    assert_eq!(status.renames, None);
    assert_eq!(status.deletions_staged, None);
    assert_eq!(status.deletions, None);
    assert_eq!(status, RepoStatus::tally(&Vec::new()));
}

#[test]
fn record_starts_a_counter_at_one_and_then_adds_one() {
    let mut status = RepoStatus::new();
    status.record(&flags(&[Category::Untracked]));
    assert_eq!(status.untracked, Some(1));
    status.record(&flags(&[Category::Untracked]));
    assert_eq!(status.untracked, Some(2));
    status.record(&flags(&[Category::Deleted]));
    assert_eq!(status.untracked, Some(2));
    assert_eq!(status.deletions, Some(1));
    let before = status;
    status.record(&EntryFlags::none());
    assert_eq!(status, before);
}

#[test]
fn record_continues_from_any_counter_below_the_maximum() {
    let mut status = RepoStatus::new();
    status.renames = Some(usize::MAX - 1);
    status.record(&flags(&[Category::Renamed]));
    assert_eq!(status.renames, Some(usize::MAX));
}

#[test]
fn tally_counts_each_entry_once() {
    let entries = vec![
        flags(&[Category::NewStaged]),
        flags(&[Category::NewStaged, Category::Deleted]),
        flags(&[Category::ModifiedStaged, Category::Modified]),
        flags(&[Category::Modified]),
        flags(&[Category::Modified, Category::Untracked]),
        flags(&[Category::Modified, Category::RenamedStaged]),
        flags(&[Category::RenamedStaged, Category::Renamed]),
        flags(&[Category::Renamed]),
        flags(&[Category::DeletedStaged, Category::Deleted]),
        flags(&[Category::Deleted]),
        flags(&[Category::Untracked]),
        EntryFlags::none(),
    ];
    let status = RepoStatus::tally(&entries);
    let expected = RepoStatus {
        modifications_staged: Some(1),
        modifications: Some(3),
        new_files: Some(2),
        untracked: Some(1),
        renames_staged: Some(1),
        renames: Some(1),
        deletions_staged: Some(1),
        deletions: Some(1),
    };
    assert_eq!(status, expected);
}

#[test]
fn tally_ignores_entries_without_flags() {
    let status = RepoStatus::tally(&vec![EntryFlags::none(), EntryFlags::none()]);
    assert_eq!(status, RepoStatus::new());
}

#[test]
fn tally_does_not_depend_on_the_order_of_entries() {
    let mut entries = vec![
        flags(&[Category::Untracked]),
        flags(&[Category::NewStaged]),
        flags(&[Category::Modified]),
        flags(&[Category::NewStaged]),
    ];
    let forward = RepoStatus::tally(&entries);
    entries.reverse();
    assert_eq!(RepoStatus::tally(&entries), forward);
}

#[test]
fn tally_twice_gives_the_same_summary() {
    let entries = vec![
        flags(&[Category::Untracked]),
        flags(&[Category::ModifiedStaged, Category::Deleted]),
        flags(&[Category::Renamed]),
    ];
    assert_eq!(RepoStatus::tally(&entries), RepoStatus::tally(&entries));
}

#[test]
fn scan_that_listed_entries_is_summarized() {
    let entries = vec![
        flags(&[Category::Untracked]),
        flags(&[Category::ModifiedStaged, Category::Modified]),
        flags(&[Category::Untracked, Category::Deleted]),
    ];
    let mut expected = RepoStatus::new();
    expected.untracked = Some(2);
    expected.modifications_staged = Some(1);
    assert_eq!(RepoStatus::from_scan(Ok(entries.clone())), Ok(expected));
    assert_eq!(RepoStatus::from_scan(Ok(entries.clone())), Ok(RepoStatus::tally(&entries)));
    assert_eq!(RepoStatus::from_scan(Ok(Vec::new())), Ok(RepoStatus::new()));
}

#[test]
fn scan_that_failed_is_an_error_of_the_status_analysis() {
    let outcome = RepoStatus::from_scan(Err("index is corrupt".to_string()));
    let expected = AnalysisError { operation: Operation::Status, detail: "index is corrupt".to_string() };
    assert_eq!(outcome, Err(expected));
    assert_eq!(outcome.unwrap_err().message(), "failed to get status: index is corrupt");
}

#[test]
fn decimal_of_single_digits() {
    let digits = ["0", "1", "2", "3", "4", "5", "6", "7", "8", "9"];
    for (n, digit) in digits.iter().enumerate() {
        assert_eq!(decimal_string(n), *digit);
    }
}

#[test]
fn decimal_of_longer_numbers() {
    assert_eq!(decimal_string(10), "10");
    assert_eq!(decimal_string(31), "31");
    assert_eq!(decimal_string(100), "100");
    assert_eq!(decimal_string(1_234_567_890), "1234567890");
    assert_eq!(decimal_string(usize::MAX), format!("{}", usize::MAX));
}

#[test]
fn decimal_agrees_with_the_standard_formatting() {
    let mut n: usize = 1;
    for _ in 0..40 {
        assert_eq!(decimal_string(n), format!("{}", n));
        assert_eq!(decimal_string(n - 1), format!("{}", n - 1));
        n = n.wrapping_mul(7).wrapping_add(3);
    }
}
