//! The status summary: how many changed entries fall into each category.

use vstd::prelude::*;
use vstd::string::*;

use crate::decimal::decimal;
use crate::error::{AnalysisError, Operation};
use crate::style::{
    append_number, append_tinted, escape, is_styling, lemma_push_each, lemma_shown_by_renders,
    renders, shown_by, Span, Tint,
};

verus! {

/// The flags of one changed entry that the summary looks at. Flags beyond
/// these eight (conflicts, ignored files, type changes) are not recorded.
#[derive(Clone, Copy, Debug, PartialEq, Eq, Structural)]
pub struct EntryFlags {
    pub index_new: bool,
    pub index_modified: bool,
    pub index_renamed: bool,
    pub index_deleted: bool,
    pub worktree_new: bool,
    pub worktree_modified: bool,
    pub worktree_renamed: bool,
    pub worktree_deleted: bool,
}

/// The eight buckets of the summary.
#[derive(Clone, Copy, Debug, PartialEq, Eq, Structural)]
pub enum Category {
    NewStaged,
    ModifiedStaged,
    RenamedStaged,
    DeletedStaged,
    Modified,
    Renamed,
    Deleted,
    Untracked,
}

impl Category {
    /// The place of a category in the order in which flags are tried; the
    /// lowest rank whose flag is set decides.
    pub open spec fn rank(self) -> nat {
        match self {
            Category::ModifiedStaged => 0,
            Category::Modified => 1,
            Category::NewStaged => 2,
            Category::Untracked => 3,
            Category::RenamedStaged => 4,
            Category::Renamed => 5,
            Category::DeletedStaged => 6,
            Category::Deleted => 7,
        }
    }
}

impl EntryFlags {
    /// An entry with no flag set.
    pub fn none() -> (flags: EntryFlags)
        ensures
            flags == (EntryFlags {
                index_new: false,
                index_modified: false,
                index_renamed: false,
                index_deleted: false,
                worktree_new: false,
                worktree_modified: false,
                worktree_renamed: false,
                worktree_deleted: false,
            }),
    {
        EntryFlags {
            index_new: false,
            index_modified: false,
            index_renamed: false,
            index_deleted: false,
            worktree_new: false,
            worktree_modified: false,
            worktree_renamed: false,
            worktree_deleted: false,
        }
    }

    /// Whether the flag that belongs to `category` is set.
    pub open spec fn has(self, category: Category) -> bool {
        match category {
            Category::NewStaged => self.index_new,
            Category::ModifiedStaged => self.index_modified,
            Category::RenamedStaged => self.index_renamed,
            Category::DeletedStaged => self.index_deleted,
            Category::Modified => self.worktree_modified,
            Category::Renamed => self.worktree_renamed,
            Category::Deleted => self.worktree_deleted,
            Category::Untracked => self.worktree_new,
        }
    }

    /// The one category an entry is counted under: the first, by rank, whose
    /// flag is set; `None` if none of the eight flags is set.
    pub open spec fn category(self) -> Option<Category> {
        if self.index_modified {
            Some(Category::ModifiedStaged)
        } else if self.worktree_modified {
            Some(Category::Modified)
        } else if self.index_new {
            Some(Category::NewStaged)
        } else if self.worktree_new {
            Some(Category::Untracked)
        } else if self.index_renamed {
            Some(Category::RenamedStaged)
        } else if self.worktree_renamed {
            Some(Category::Renamed)
        } else if self.index_deleted {
            Some(Category::DeletedStaged)
        } else if self.worktree_deleted {
            Some(Category::Deleted)
        } else {
            None
        }
    }

    /// Sorts an entry into its category.
    pub fn classify(&self) -> (category: Option<Category>)
        ensures
            category == self.category(),
            match category {
                Some(c) => self.has(c) && forall|d: Category| d.rank() < c.rank() ==> !self.has(d),
                None => forall|d: Category| !self.has(d),
            },
    {
        proof {
            lemma_category_is_first_match(*self);
        }
        if self.index_modified {
            Some(Category::ModifiedStaged)
        } else if self.worktree_modified {
            Some(Category::Modified)
        } else if self.index_new {
            Some(Category::NewStaged)
        } else if self.worktree_new {
            Some(Category::Untracked)
        } else if self.index_renamed {
            Some(Category::RenamedStaged)
        } else if self.worktree_renamed {
            Some(Category::Renamed)
        } else if self.index_deleted {
            Some(Category::DeletedStaged)
        } else if self.worktree_deleted {
            Some(Category::Deleted)
        } else {
            None
        }
    }
}

/// First match wins: an entry's category is the set flag of lowest rank, and
/// an entry has no category exactly when none of the eight flags is set.
pub proof fn lemma_category_is_first_match(flags: EntryFlags)
    ensures
        match flags.category() {
            Some(c) => flags.has(c) && forall|d: Category| d.rank() < c.rank() ==> !flags.has(d),
            None => forall|d: Category| !flags.has(d),
        },
{
}

/// How many of `entries` are counted under `category`.
pub open spec fn occurrences(entries: Seq<EntryFlags>, category: Category) -> nat
    decreases entries.len(),
{
    if entries.len() == 0 {
        0
    } else {
        let rest = occurrences(entries.drop_last(), category);
        if entries.last().category() == Some(category) {
            rest + 1
        } else {
            rest
        }
    }
}

/// No category holds more entries than there are.
pub proof fn lemma_occurrences_bounded(entries: Seq<EntryFlags>, category: Category)
    ensures
        occurrences(entries, category) <= entries.len(),
    decreases entries.len(),
{
    if entries.len() > 0 {
        lemma_occurrences_bounded(entries.drop_last(), category);
    }
}

/// A counter as the summary stores it: absent until something was counted.
pub open spec fn seen(count: nat) -> Option<usize> {
    if count == 0 {
        None
    } else {
        Some(count as usize)
    }
}

/// The counts of changed entries by category. A counter is `None` as long as
/// no entry of its category was observed.
#[derive(Clone, Copy, Debug, PartialEq, Eq, Structural)]
pub struct RepoStatus {
    pub modifications_staged: Option<usize>,
    pub modifications: Option<usize>,
    pub new_files: Option<usize>,
    pub untracked: Option<usize>,
    pub renames_staged: Option<usize>,
    pub renames: Option<usize>,
    pub deletions_staged: Option<usize>,
    pub deletions: Option<usize>,
}

impl RepoStatus {
    /// The counter that belongs to `category`.
    pub open spec fn counter(self, category: Category) -> Option<usize> {
        match category {
            Category::NewStaged => self.new_files,
            Category::ModifiedStaged => self.modifications_staged,
            Category::RenamedStaged => self.renames_staged,
            Category::DeletedStaged => self.deletions_staged,
            Category::Modified => self.modifications,
            Category::Renamed => self.renames,
            Category::Deleted => self.deletions,
            Category::Untracked => self.untracked,
        }
    }

    /// Whether `self` is the summary of `entries`: every counter holds the
    /// number of entries of its category, and is absent where that is zero.
    pub open spec fn summarizes(self, entries: Seq<EntryFlags>) -> bool {
        forall|c: Category| #[trigger] self.counter(c) == seen(occurrences(entries, c))
    }

    /// No counter is present with the value zero.
    pub open spec fn well_formed(self) -> bool {
        forall|c: Category| #[trigger] self.counter(c) != Some(0usize)
    }

    /// The summary of a clean repository.
    pub fn new() -> (status: RepoStatus)
        ensures
            status == (RepoStatus {
                modifications_staged: None,
                modifications: None,
                new_files: None,
                untracked: None,
                renames_staged: None,
                renames: None,
                deletions_staged: None,
                deletions: None,
            }),
            status.summarizes(Seq::empty()),
    {
        RepoStatus {
            modifications_staged: None,
            modifications: None,
            new_files: None,
            untracked: None,
            renames_staged: None,
            renames: None,
            deletions_staged: None,
            deletions: None,
        }
    }
}

/// A staged modification hides everything else about an entry: whatever
/// other flags are set, also the one for a modification in the working
/// tree, the entry counts once, as modified in the index, and leaves the
/// count of modifications in the working tree alone.
pub proof fn lemma_staged_modification_wins(entries: Seq<EntryFlags>, flags: EntryFlags)
    requires
        flags.index_modified,
    ensures
        flags.category() == Some(Category::ModifiedStaged),
        occurrences(entries.push(flags), Category::ModifiedStaged) == occurrences(
            entries,
            Category::ModifiedStaged,
        ) + 1,
        forall|c: Category|
            c != Category::ModifiedStaged ==> #[trigger] occurrences(entries.push(flags), c)
                == occurrences(entries, c),
{
    assert(entries.push(flags).drop_last() =~= entries);
}

/// A scan has one summary only: two summaries of the same entries are equal.
pub proof fn lemma_summary_unique(entries: Seq<EntryFlags>, first: RepoStatus, second: RepoStatus)
    requires
        first.summarizes(entries),
        second.summarizes(entries),
    ensures
        first == second,
{
    assert(first.counter(Category::NewStaged) == second.counter(Category::NewStaged));
    assert(first.counter(Category::ModifiedStaged) == second.counter(Category::ModifiedStaged));
    assert(first.counter(Category::RenamedStaged) == second.counter(Category::RenamedStaged));
    assert(first.counter(Category::DeletedStaged) == second.counter(Category::DeletedStaged));
    assert(first.counter(Category::Modified) == second.counter(Category::Modified));
    assert(first.counter(Category::Renamed) == second.counter(Category::Renamed));
    assert(first.counter(Category::Deleted) == second.counter(Category::Deleted));
    assert(first.counter(Category::Untracked) == second.counter(Category::Untracked));
}

/// A counter after one more entry was counted under it.
pub open spec fn bumped(counter: Option<usize>) -> Option<usize> {
    match counter {
        None => Some(1usize),
        Some(n) => Some((n + 1) as usize),
    }
}

/// What a counter contributes to the prompt: nothing while it is absent,
/// else its value followed by its letter in its color.
pub open spec fn counter_spans(counter: Option<usize>, letter: char, tint: Tint) -> Seq<Span> {
    match counter {
        None => Seq::empty(),
        Some(n) => seq![Span::plain(decimal(n as nat)), Span::tinted(seq![letter], tint)],
    }
}

impl RepoStatus {
    /// Counts one more entry: the counter of the entry's category goes from
    /// absent to one, or up by one; all others stay. An entry without a
    /// category changes nothing.
    pub fn record(&mut self, flags: &EntryFlags)
        requires
            forall|c: Category|
                flags.category() == Some(c) ==> #[trigger] old(self).counter(c) != Some(
                    usize::MAX,
                ),
        ensures
            forall|c: Category|
                #[trigger] final(self).counter(c) == if flags.category() == Some(c) {
                    bumped(old(self).counter(c))
                } else {
                    old(self).counter(c)
                },
    {
        match flags.classify() {
            Some(Category::ModifiedStaged) => {
                assert(self.counter(Category::ModifiedStaged) != Some(usize::MAX));
                self.modifications_staged = Some(bump(self.modifications_staged));
            },
            Some(Category::Modified) => {
                assert(self.counter(Category::Modified) != Some(usize::MAX));
                self.modifications = Some(bump(self.modifications));
            },
            Some(Category::NewStaged) => {
                assert(self.counter(Category::NewStaged) != Some(usize::MAX));
                self.new_files = Some(bump(self.new_files));
            },
            Some(Category::Untracked) => {
                assert(self.counter(Category::Untracked) != Some(usize::MAX));
                self.untracked = Some(bump(self.untracked));
            },
            Some(Category::RenamedStaged) => {
                assert(self.counter(Category::RenamedStaged) != Some(usize::MAX));
                self.renames_staged = Some(bump(self.renames_staged));
            },
            Some(Category::Renamed) => {
                assert(self.counter(Category::Renamed) != Some(usize::MAX));
                self.renames = Some(bump(self.renames));
            },
            Some(Category::DeletedStaged) => {
                assert(self.counter(Category::DeletedStaged) != Some(usize::MAX));
                self.deletions_staged = Some(bump(self.deletions_staged));
            },
            Some(Category::Deleted) => {
                assert(self.counter(Category::Deleted) != Some(usize::MAX));
                self.deletions = Some(bump(self.deletions));
            },
            None => {},
        }
    }

    /// Summarizes a scan: counts every entry under its category.
    pub fn tally(entries: &Vec<EntryFlags>) -> (status: RepoStatus)
        ensures
            status.summarizes(entries@),
            status.well_formed(),
    {
        let mut status = RepoStatus::new();
        let mut i: usize = 0;
        while i < entries.len()
            invariant
                i <= entries.len(),
                status.summarizes(entries@.take(i as int)),
            decreases entries.len() - i,
        {
            let ghost before = status;
            let ghost counted = entries@.take(i as int);
            let ghost next = entries@.take(i + 1);
            proof {
                assert(next.drop_last() =~= counted);
                assert(next.last() == entries@[i as int]);
                assert forall|c: Category| #[trigger]
                    status.counter(c) != Some(usize::MAX) by {
                    lemma_occurrences_bounded(counted, c);
                }
            }
            status.record(&entries[i]);
            proof {
                assert forall|c: Category| #[trigger]
                    status.counter(c) == seen(occurrences(next, c)) by {
                    lemma_occurrences_bounded(counted, c);
                    assert(before.counter(c) == seen(occurrences(counted, c)));
                }
            }
            i += 1;
        }
        proof {
            assert(entries@.take(i as int) =~= entries@);
            assert forall|c: Category| #[trigger] status.counter(c) != Some(0usize) by {
                lemma_occurrences_bounded(entries@, c);
                assert(status.counter(c) == seen(occurrences(entries@, c)));
            }
        }
        status
    }

    /// The outcome of the status analysis for a scan that ended in `scan`:
    /// the summary of the entries that the scan listed, or, for a scan that
    /// failed, an error of the status analysis with the scan's own words for
    /// the cause.
    pub fn from_scan(scan: Result<Vec<EntryFlags>, String>) -> (outcome: Result<
        RepoStatus,
        AnalysisError,
    >)
        ensures
            match scan {
                Ok(entries) => outcome matches Ok(status) && status.summarizes(entries@)
                    && status.well_formed(),
                Err(detail) => outcome matches Err(error) && error.operation == Operation::Status
                    && error.detail@ == detail@,
            },
    {
        match scan {
            Ok(entries) => Ok(RepoStatus::tally(&entries)),
            Err(detail) => Err(AnalysisError { operation: Operation::Status, detail }),
        }
    }

    /// The prompt text of the summary: the present counters in the order
    /// new, modified, renamed, deleted for the index (green), then modified,
    /// renamed, deleted for the working tree (red), then untracked (blue).
    pub open spec fn spans(self) -> Seq<Span> {
        counter_spans(self.new_files, 'N', Tint::Green) + counter_spans(
            self.modifications_staged,
            'M',
            Tint::Green,
        ) + counter_spans(self.renames_staged, 'R', Tint::Green) + counter_spans(
            self.deletions_staged,
            'D',
            Tint::Green,
        ) + counter_spans(self.modifications, 'M', Tint::Red) + counter_spans(
            self.renames,
            'R',
            Tint::Red,
        ) + counter_spans(self.deletions, 'D', Tint::Red) + counter_spans(
            self.untracked,
            'U',
            Tint::Blue,
        )
    }

    /// Writes the summary as prompt text.
    pub fn to_string(&self) -> (out: String)
        ensures
            renders(self.spans(), out@),
    {
        let mut result = String::new();
        proof {
            reveal_strlit("N");
            reveal_strlit("M");
            reveal_strlit("R");
            reveal_strlit("D");
            reveal_strlit("U");
            assert("N"@ =~= seq!['N']);
            assert("M"@ =~= seq!['M']);
            assert("R"@ =~= seq!['R']);
            assert("D"@ =~= seq!['D']);
            assert("U"@ =~= seq!['U']);
            assert(renders(Seq::<Span>::empty(), result@));
        }
        append_counter(&mut result, self.new_files, "N", Tint::Green);
        append_counter(&mut result, self.modifications_staged, "M", Tint::Green);
        append_counter(&mut result, self.renames_staged, "R", Tint::Green);
        append_counter(&mut result, self.deletions_staged, "D", Tint::Green);
        append_counter(&mut result, self.modifications, "M", Tint::Red);
        append_counter(&mut result, self.renames, "R", Tint::Red);
        append_counter(&mut result, self.deletions, "D", Tint::Red);
        append_counter(&mut result, self.untracked, "U", Tint::Blue);
        proof {
            assert(Seq::<Span>::empty() + counter_spans(self.new_files, 'N', Tint::Green)
                =~= counter_spans(self.new_files, 'N', Tint::Green));
        }
        result
    }
}

/// What a summary shows depends on its eight counters and on nothing else:
/// summaries with the same counters are equal, and so have the same spans,
/// the same renderings, and the same text under any one styling.
pub proof fn lemma_text_depends_on_counters(
    first: RepoStatus,
    second: RepoStatus,
    style: spec_fn(Seq<char>, Tint) -> Seq<char>,
    out: Seq<char>,
)
    requires
        forall|c: Category| #[trigger] first.counter(c) == second.counter(c),
    ensures
        first == second,
        first.spans() == second.spans(),
        renders(first.spans(), out) <==> renders(second.spans(), out),
        shown_by(first.spans(), style) == shown_by(second.spans(), style),
        is_styling(style) ==> renders(first.spans(), shown_by(second.spans(), style)),
{
    assert(first.counter(Category::NewStaged) == second.counter(Category::NewStaged));
    assert(first.counter(Category::ModifiedStaged) == second.counter(Category::ModifiedStaged));
    assert(first.counter(Category::RenamedStaged) == second.counter(Category::RenamedStaged));
    assert(first.counter(Category::DeletedStaged) == second.counter(Category::DeletedStaged));
    assert(first.counter(Category::Modified) == second.counter(Category::Modified));
    assert(first.counter(Category::Renamed) == second.counter(Category::Renamed));
    assert(first.counter(Category::Deleted) == second.counter(Category::Deleted));
    assert(first.counter(Category::Untracked) == second.counter(Category::Untracked));
    if is_styling(style) {
        lemma_shown_by_renders(first.spans(), style);
    }
}

/// The value of a counter after one more entry.
fn bump(counter: Option<usize>) -> (next: usize)
    requires
        counter != Some(usize::MAX),
    ensures
        Some(next) == bumped(counter),
{
    match counter {
        None => 1,
        Some(n) => n + 1,
    }
}

/// Appends what `counter` contributes to the prompt.
fn append_counter(out: &mut String, counter: Option<usize>, letter: &str, tint: Tint)
    requires
        letter@.len() == 1,
        letter@[0] != escape(),
    ensures
        forall|shown: Seq<Span>| #[trigger]
            renders(shown, old(out)@) ==> renders(
                shown + counter_spans(counter, letter@[0], tint),
                final(out)@,
            ),
{
    match counter {
        None => {
            proof {
                assert forall|shown: Seq<Span>| #[trigger] renders(shown, out@) implies renders(
                    shown + counter_spans(counter, letter@[0], tint),
                    out@,
                ) by {
                    assert(shown + counter_spans(counter, letter@[0], tint) =~= shown);
                }
            }
        },
        Some(n) => {
            let ghost before = out@;
            append_number(out, n);
            append_tinted(out, letter, tint);
            proof {
                assert(letter@ =~= seq![letter@[0]]);
                assert forall|shown: Seq<Span>| #[trigger] renders(shown, before) implies renders(
                    shown + counter_spans(counter, letter@[0], tint),
                    out@,
                ) by {
                    lemma_push_each(shown, counter_spans(counter, letter@[0], tint));
                }
            }
        },
    }
}

} // verus!
