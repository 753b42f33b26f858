//! The branch summary: where HEAD is, and how far it is from the mainline
//! and from its upstream.

use vstd::prelude::*;
use vstd::string::*;

use crate::decimal::decimal;
use crate::error::{AnalysisError, ErrorKind, Operation};
use crate::style::{
    append_number, append_plain, append_tinted, lemma_plain_text_renders, lemma_push_each,
    lemma_renders_push,
    lemma_renders_split, lemma_shown_by_renders, lemma_untinted_renders, is_styling, plain_text,
    renders, shown_by, styled, Span, Tint,
};

verus! {

/// The short name of the branch that is the mainline unless another is
/// chosen.
pub const MAINLINE_BRANCH: &'static str = "master";

/// What is shown in place of the mainline's reference name.
pub const MAINLINE_GLYPH: &'static str = "🅼";

/// What the full name of every local branch begins with.
pub const BRANCH_PREFIX: &'static str = "refs/heads/";

/// The name shown when HEAD is not on a branch.
pub const DETACHED: &'static str = "detached";

/// Whether `ref_name` is the full name of a local branch.
pub open spec fn names_branch(ref_name: Seq<char>) -> bool {
    BRANCH_PREFIX@.is_prefix_of(ref_name)
}

/// Tells whether a reference is a local branch, by its full name.
pub fn is_branch_ref(ref_name: &str) -> (yes: bool)
    ensures
        yes == names_branch(ref_name@),
{
    proof {
        reveal_strlit("refs/heads/");
    }
    if ref_name.unicode_len() < 11 {
        false
    } else {
        let start = ref_name.substring_char(0, 11);
        String::from_str(start) == String::from_str(BRANCH_PREFIX)
    }
}

/// The full reference name of the branch with the short name `branch`.
pub open spec fn branch_ref(branch: Seq<char>) -> Seq<char> {
    BRANCH_PREFIX@ + branch
}

/// The name under which a reference is shown when `mainline` is the short
/// name of the mainline: the mainline glyph for the mainline, the full
/// reference name for everything else.
pub open spec fn display_name(ref_name: Seq<char>, mainline: Seq<char>) -> Seq<char> {
    if ref_name == branch_ref(mainline) {
        MAINLINE_GLYPH@
    } else {
        ref_name
    }
}

/// The names the prompt gives out cannot be mistaken for one another: the
/// full name of a branch is a branch name, while the glyph and the detached
/// label are none.
pub proof fn lemma_names_differ(branch: Seq<char>)
    ensures
        names_branch(branch_ref(branch)),
        !names_branch(MAINLINE_GLYPH@),
        !names_branch(DETACHED@),
        MAINLINE_GLYPH@ != DETACHED@,
{
    reveal_strlit("🅼");
    reveal_strlit("detached");
    reveal_strlit("refs/heads/");
    assert(MAINLINE_GLYPH@.len() == 1);
    assert(DETACHED@.len() == 8);
    assert(BRANCH_PREFIX@.len() == 11);
    assert(branch_ref(branch).subrange(0, 11) =~= BRANCH_PREFIX@);
}

/// The mark and numbers for the distance to the local mainline. Absent and
/// equal both show the same mark.
pub open spec fn local_spans(local: Option<(usize, usize)>) -> Seq<Span> {
    match local {
        Some((ahead, behind)) => if ahead > 0 && behind > 0 {
            seq![
                Span::tinted(seq!['↔'], Tint::Magenta),
                Span::plain(decimal(ahead as nat)),
                Span::plain(decimal(behind as nat)),
            ]
        } else if ahead > 0 {
            seq![Span::tinted(seq!['←'], Tint::Magenta), Span::plain(decimal(ahead as nat))]
        } else if behind > 0 {
            seq![Span::tinted(seq!['→'], Tint::Magenta), Span::plain(decimal(behind as nat))]
        } else {
            seq![Span::tinted(seq!['⦰'], Tint::Red)]
        },
        None => seq![Span::tinted(seq!['⦰'], Tint::Red)],
    }
}

/// The mark and numbers for the distance to the upstream branch.
pub open spec fn upstream_spans(upstream: Option<(usize, usize)>) -> Seq<Span> {
    match upstream {
        Some((ahead, behind)) => if ahead > 0 && behind > 0 {
            seq![
                Span::tinted(seq!['⇵'], Tint::Yellow),
                Span::plain(decimal(ahead as nat)),
                Span::plain(decimal(behind as nat)),
            ]
        } else if ahead > 0 {
            seq![Span::tinted(seq!['↓'], Tint::Red), Span::plain(decimal(ahead as nat))]
        } else if behind > 0 {
            seq![Span::tinted(seq!['↑'], Tint::Green), Span::plain(decimal(behind as nat))]
        } else {
            seq![Span::plain(seq!['≡'])]
        },
        None => seq![Span::tinted(seq!['⚡'], Tint::Red)],
    }
}

/// A branch level with its comparator shows no numbers: against the upstream
/// the bare `≡`, which no styling can change, and against the mainline the
/// mark `⦰`, the same as when there is no mainline to measure against.
pub proof fn lemma_level_marks(out: Seq<char>)
    ensures
        plain_text(upstream_spans(Some((0usize, 0usize)))) == seq!['≡'],
        renders(upstream_spans(Some((0usize, 0usize))), out) <==> out == seq!['≡'],
        local_spans(Some((0usize, 0usize))) == local_spans(None),
        plain_text(local_spans(None)) == seq!['⦰'],
        renders(local_spans(None), out) <==> (out == seq!['⦰'] || out == styled(
            seq!['⦰'],
            Tint::Red,
        )),
{
    let level = seq![Span::plain(seq!['≡'])];
    let absent = seq![Span::tinted(seq!['⦰'], Tint::Red)];
    assert(upstream_spans(Some((0usize, 0usize))) == level);
    assert(local_spans(None) == absent);
    assert(level.drop_last() =~= Seq::<Span>::empty());
    assert(absent.drop_last() =~= Seq::<Span>::empty());
    reveal_with_fuel(plain_text, 2);
    assert(plain_text(level) =~= seq!['≡']);
    assert(plain_text(absent) =~= seq!['⦰']);
    if renders(level, out) {
        lemma_untinted_renders(level, out);
    }
    if out == seq!['≡'] {
        lemma_plain_text_renders(level);
    }
    if renders(absent, out) {
        let piece = lemma_renders_split(absent, out);
        assert(out =~= piece);
    }
    if out == seq!['⦰'] || out == styled(seq!['⦰'], Tint::Red) {
        assert(renders(Seq::<Span>::empty(), Seq::<char>::empty()));
        lemma_renders_push(Seq::empty(), Seq::empty(), absent[0], out);
        assert(Seq::<Span>::empty().push(absent[0]) =~= absent);
        assert(Seq::<char>::empty() + out =~= out);
    }
}

/// A branch that has both gained and lost commits against its upstream
/// reads `⇵`, then the number it is ahead, then the number it is behind,
/// with nothing in between; styling can only enclose the mark.
pub proof fn lemma_diverged_upstream(ahead: usize, behind: usize, out: Seq<char>)
    requires
        ahead > 0,
        behind > 0,
    ensures
        plain_text(upstream_spans(Some((ahead, behind)))) == seq!['⇵'] + decimal(ahead as nat)
            + decimal(behind as nat),
        renders(upstream_spans(Some((ahead, behind))), out) <==> (out == seq!['⇵'] + decimal(
            ahead as nat,
        ) + decimal(behind as nat) || out == styled(seq!['⇵'], Tint::Yellow) + decimal(
            ahead as nat,
        ) + decimal(behind as nat)),
{
    let mark = Span::tinted(seq!['⇵'], Tint::Yellow);
    let first = Span::plain(decimal(ahead as nat));
    let second = Span::plain(decimal(behind as nat));
    let spans = upstream_spans(Some((ahead, behind)));
    let two = seq![mark, first];
    let one = seq![mark];
    assert(spans.drop_last() =~= two);
    assert(two.drop_last() =~= one);
    assert(one.drop_last() =~= Seq::<Span>::empty());
    reveal_with_fuel(plain_text, 4);
    assert(plain_text(one) =~= seq!['⇵']);
    assert(plain_text(two) =~= seq!['⇵'] + decimal(ahead as nat));
    assert(plain_text(spans) =~= seq!['⇵'] + decimal(ahead as nat) + decimal(behind as nat));
    if renders(spans, out) {
        let third = lemma_renders_split(spans, out);
        let before_third = out.take(out.len() - third.len());
        let middle = lemma_renders_split(two, before_third);
        let before_middle = before_third.take(before_third.len() - middle.len());
        let start = lemma_renders_split(one, before_middle);
        assert(before_middle =~= start);
    }
    if out == seq!['⇵'] + decimal(ahead as nat) + decimal(behind as nat) || out == styled(
        seq!['⇵'],
        Tint::Yellow,
    ) + decimal(ahead as nat) + decimal(behind as nat) {
        let start = if out == seq!['⇵'] + decimal(ahead as nat) + decimal(behind as nat) {
            seq!['⇵']
        } else {
            styled(seq!['⇵'], Tint::Yellow)
        };
        assert(renders(Seq::<Span>::empty(), Seq::<char>::empty()));
        lemma_renders_push(Seq::empty(), Seq::empty(), mark, start);
        lemma_renders_push(Seq::<Span>::empty().push(mark), Seq::<char>::empty() + start, first, first.text);
        lemma_renders_push(
            Seq::<Span>::empty().push(mark).push(first),
            Seq::<char>::empty() + start + first.text,
            second,
            second.text,
        );
        assert(Seq::<Span>::empty().push(mark).push(first).push(second) =~= spans);
        assert(Seq::<char>::empty() + start + first.text + second.text =~= out);
    }
}

/// The mainline is shown as its glyph and every other reference under its
/// own full name, so nothing is ever shown under the mainline's reference
/// name, and what is shown for a branch is never the detached label.
pub proof fn lemma_display_name(ref_name: Seq<char>, mainline: Seq<char>)
    ensures
        ref_name == branch_ref(mainline) ==> display_name(ref_name, mainline) == MAINLINE_GLYPH@,
        ref_name != branch_ref(mainline) ==> display_name(ref_name, mainline) == ref_name,
        display_name(ref_name, mainline) != branch_ref(mainline),
        names_branch(ref_name) ==> display_name(ref_name, mainline) != DETACHED@,
{
    lemma_names_differ(mainline);
}

/// The current branch and its distances, each an `(ahead, behind)` pair that
/// is absent when there was nothing to measure against.
#[derive(Debug, PartialEq, Eq)]
pub struct BranchStatus {
    pub name: String,
    pub local: Option<(usize, usize)>,
    pub upstream: Option<(usize, usize)>,
}

impl BranchStatus {
    /// Whether this is the summary of a repository whose HEAD is on no
    /// branch: the detached label, and nothing measured.
    pub open spec fn is_detached(self) -> bool {
        self.name@ == DETACHED@ && self.local is None && self.upstream is None
    }

    /// Whether this is a summary for a HEAD on the branch with the full name
    /// `ref_name`, when `mainline` is the short name of the mainline.
    pub open spec fn is_on(self, ref_name: Seq<char>, mainline: Seq<char>) -> bool {
        names_branch(ref_name) && self.name@ == display_name(ref_name, mainline)
    }

    /// The summary for a HEAD that is on no branch.
    pub fn detached() -> (status: BranchStatus)
        ensures
            status.is_detached(),
    {
        BranchStatus { name: String::from_str(DETACHED), local: None, upstream: None }
    }

    /// The summary for a HEAD on the reference `ref_name`, with the distances
    /// that were measured, when `mainline` is the short name of the mainline.
    pub fn on_reference(
        ref_name: String,
        mainline: &str,
        local: Option<(usize, usize)>,
        upstream: Option<(usize, usize)>,
    ) -> (status: BranchStatus)
        ensures
            status.name@ == display_name(ref_name@, mainline@),
            status.local == local,
            status.upstream == upstream,
    {
        let mainline_ref = String::from_str(BRANCH_PREFIX).concat(mainline);
        let name = if ref_name == mainline_ref {
            String::from_str(MAINLINE_GLYPH)
        } else {
            ref_name
        };
        BranchStatus { name, local, upstream }
    }

    /// The summary for a HEAD that resolved to a reference, of which
    /// `ref_name` is the full name, or `None` if the name cannot be read as
    /// text. Only a HEAD on a local branch has a name to show and distances:
    /// a reference that is no branch, such as a HEAD that points directly at
    /// a commit, gives the detached summary, whatever was measured, and so
    /// does an unreadable name.
    pub fn for_head(
        ref_name: Option<String>,
        mainline: &str,
        local: Option<(usize, usize)>,
        upstream: Option<(usize, usize)>,
    ) -> (status: BranchStatus)
        ensures
            match ref_name {
                Some(name) => if names_branch(name@) {
                    status.name@ == display_name(name@, mainline@) && status.local == local
                        && status.upstream == upstream
                } else {
                    status.is_detached()
                },
                None => status.is_detached(),
            },
    {
        match ref_name {
            Some(name) => {
                if is_branch_ref(name.as_str()) {
                    BranchStatus::on_reference(name, mainline, local, upstream)
                } else {
                    BranchStatus::detached()
                }
            },
            None => BranchStatus::detached(),
        }
    }

    /// The outcome when HEAD could not be resolved: a repository without
    /// commits, or without a HEAD reference, is detached; any other failure
    /// is an error of the branch analysis.
    pub fn without_head(kind: ErrorKind, detail: String) -> (outcome: Result<
        BranchStatus,
        AnalysisError,
    >)
        ensures
            kind == ErrorKind::UnbornBranch || kind == ErrorKind::NotFound ==> (outcome matches Ok(
                status,
            ) && status.is_detached()),
            kind == ErrorKind::Other ==> (outcome matches Err(error) && error.operation
                == Operation::Branch && error.detail@ == detail@),
    {
        match kind {
            ErrorKind::UnbornBranch | ErrorKind::NotFound => Ok(BranchStatus::detached()),
            ErrorKind::Other => Err(AnalysisError { operation: Operation::Branch, detail }),
        }
    }

    /// The prompt text of the summary: the name, then the distance to the
    /// mainline, then the distance to the upstream.
    pub open spec fn spans(self) -> Seq<Span> {
        seq![Span::plain(self.name@)] + local_spans(self.local) + upstream_spans(self.upstream)
    }

    /// Writes the distance to the upstream.
    pub fn upstream(&self) -> (out: Option<String>)
        ensures
            out matches Some(text) && renders(upstream_spans(self.upstream), text@),
    {
        let mut text = String::new();
        assert(renders(Seq::<Span>::empty(), text@));
        append_upstream(&mut text, self.upstream);
        assert(Seq::<Span>::empty() + upstream_spans(self.upstream) =~= upstream_spans(
            self.upstream,
        ));
        Some(text)
    }

    /// Writes the distance to the mainline.
    pub fn local(&self) -> (out: Option<String>)
        ensures
            out matches Some(text) && renders(local_spans(self.local), text@),
    {
        let mut text = String::new();
        assert(renders(Seq::<Span>::empty(), text@));
        append_local(&mut text, self.local);
        assert(Seq::<Span>::empty() + local_spans(self.local) =~= local_spans(self.local));
        Some(text)
    }

    /// Writes the summary as prompt text.
    pub fn to_string(&self) -> (out: String)
        ensures
            renders(self.spans(), out@),
    {
        let mut result = String::new();
        assert(renders(Seq::<Span>::empty(), result@));
        append_plain(&mut result, self.name.as_str());
        append_local(&mut result, self.local);
        append_upstream(&mut result, self.upstream);
        assert(Seq::<Span>::empty().push(Span::plain(self.name@)) =~= seq![
            Span::plain(self.name@),
        ]);
        result
    }
}

/// What a summary shows depends on its three fields and on nothing else:
/// summaries with the same name and distances have the same spans, hence
/// the same renderings, and the same text under any one styling.
pub proof fn lemma_text_depends_on_fields(
    first: BranchStatus,
    second: BranchStatus,
    style: spec_fn(Seq<char>, Tint) -> Seq<char>,
    out: Seq<char>,
)
    requires
        first.name@ == second.name@,
        first.local == second.local,
        first.upstream == second.upstream,
    ensures
        first.spans() == second.spans(),
        renders(first.spans(), out) <==> renders(second.spans(), out),
        shown_by(first.spans(), style) == shown_by(second.spans(), style),
        is_styling(style) ==> renders(first.spans(), shown_by(second.spans(), style)),
{
    if is_styling(style) {
        lemma_shown_by_renders(first.spans(), style);
    }
}

/// Appends the distance to the mainline.
fn append_local(out: &mut String, local: Option<(usize, usize)>)
    ensures
        forall|shown: Seq<Span>| #[trigger]
            renders(shown, old(out)@) ==> renders(shown + local_spans(local), final(out)@),
{
    let ghost before = out@;
    proof {
        reveal_strlit("↔");
        reveal_strlit("←");
        reveal_strlit("→");
        reveal_strlit("⦰");
        assert("↔"@ =~= seq!['↔']);
        assert("←"@ =~= seq!['←']);
        assert("→"@ =~= seq!['→']);
        assert("⦰"@ =~= seq!['⦰']);
    }
    match local {
        Some((ahead, behind)) => {
            if ahead > 0 && behind > 0 {
                append_tinted(out, "↔", Tint::Magenta);
                append_number(out, ahead);
                append_number(out, behind);
            } else if ahead > 0 {
                append_tinted(out, "←", Tint::Magenta);
                append_number(out, ahead);
            } else if behind > 0 {
                append_tinted(out, "→", Tint::Magenta);
                append_number(out, behind);
            } else {
                append_tinted(out, "⦰", Tint::Red);
            }
        },
        None => {
            append_tinted(out, "⦰", Tint::Red);
        },
    }
    proof {
        assert forall|shown: Seq<Span>| #[trigger] renders(shown, before) implies renders(
            shown + local_spans(local),
            out@,
        ) by {
            lemma_push_each(shown, local_spans(local));
        }
    }
}

/// Appends the distance to the upstream.
fn append_upstream(out: &mut String, upstream: Option<(usize, usize)>)
    ensures
        forall|shown: Seq<Span>| #[trigger]
            renders(shown, old(out)@) ==> renders(shown + upstream_spans(upstream), final(out)@),
{
    let ghost before = out@;
    proof {
        reveal_strlit("⇵");
        reveal_strlit("↓");
        reveal_strlit("↑");
        reveal_strlit("≡");
        reveal_strlit("⚡");
        assert("⇵"@ =~= seq!['⇵']);
        assert("↓"@ =~= seq!['↓']);
        assert("↑"@ =~= seq!['↑']);
        assert("≡"@ =~= seq!['≡']);
        assert("⚡"@ =~= seq!['⚡']);
    }
    match upstream {
        Some((ahead, behind)) => {
            if ahead > 0 && behind > 0 {
                append_tinted(out, "⇵", Tint::Yellow);
                append_number(out, ahead);
                append_number(out, behind);
            } else if ahead > 0 {
                append_tinted(out, "↓", Tint::Red);
                append_number(out, ahead);
            } else if behind > 0 {
                append_tinted(out, "↑", Tint::Green);
                append_number(out, behind);
            } else {
                append_plain(out, "≡");
            }
        },
        None => {
            append_tinted(out, "⚡", Tint::Red);
        },
    }
    proof {
        assert forall|shown: Seq<Span>| #[trigger] renders(shown, before) implies renders(
            shown + upstream_spans(upstream),
            out@,
        ) by {
            lemma_push_each(shown, upstream_spans(upstream));
        }
    }
}

} // verus!
