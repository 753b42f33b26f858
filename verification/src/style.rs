//! Styled text: what a prompt is made of, and how it becomes a string.
//!
//! A prompt is a sequence of [`Span`]s, each a piece of text with an optional
//! semantic color. Turning a span into characters is left to the `colored`
//! crate, which decides from the environment whether to emit escape
//! sequences at all; [`renders`] describes every string that can come out.

use vstd::prelude::*;
use vstd::string::*;

use crate::decimal::{append_decimal, decimal};

verus! {

/// The semantic colors of the prompt.
#[derive(Clone, Copy, Debug, PartialEq, Eq, Structural)]
pub enum Tint {
    Green,
    Red,
    Blue,
    Yellow,
    Magenta,
}

/// A piece of prompt text; `tint` is `None` for text that is never styled.
pub struct Span {
    pub text: Seq<char>,
    pub tint: Option<Tint>,
}

impl Span {
    /// Text without a color.
    pub open spec fn plain(text: Seq<char>) -> Span {
        Span { text, tint: None }
    }

    /// Text shown in `tint`.
    pub open spec fn tinted(text: Seq<char>, tint: Tint) -> Span {
        Span { text, tint: Some(tint) }
    }
}

/// The escape character that starts every terminal control sequence.
pub open spec fn escape() -> char {
    '\u{1b}'
}

/// The control sequence that selects `tint` as the foreground color.
pub open spec fn color_on(tint: Tint) -> Seq<char> {
    let digit = match tint {
        Tint::Red => '1',
        Tint::Green => '2',
        Tint::Yellow => '3',
        Tint::Blue => '4',
        Tint::Magenta => '5',
    };
    seq![escape(), '[', '3', digit, 'm']
}

/// The control sequence that resets all styling.
pub open spec fn color_off() -> Seq<char> {
    seq![escape(), '[', '0', 'm']
}

/// `text` enclosed in the control sequences for `tint`.
pub open spec fn styled(text: Seq<char>, tint: Tint) -> Seq<char> {
    color_on(tint) + text + color_off()
}

/// The characters of `spans` with all styling left out.
pub open spec fn plain_text(spans: Seq<Span>) -> Seq<char>
    decreases spans.len(),
{
    if spans.len() == 0 {
        Seq::empty()
    } else {
        plain_text(spans.drop_last()) + spans.last().text
    }
}

/// Whether `piece` is a way to show `span`: the bare text, or, for a tinted
/// span, the text enclosed in its color's control sequences.
pub open spec fn span_renders(span: Span, piece: Seq<char>) -> bool {
    match span.tint {
        None => piece == span.text,
        Some(tint) => piece == span.text || piece == styled(span.text, tint),
    }
}

/// Whether `out` is a way to show `spans`: it splits into one piece per span,
/// in order, each piece showing its span.
pub open spec fn renders(spans: Seq<Span>, out: Seq<char>) -> bool
    decreases spans.len(),
{
    if spans.len() == 0 {
        out.len() == 0
    } else {
        exists|cut: int|
            0 <= cut <= out.len() && renders(spans.drop_last(), #[trigger] out.take(cut))
                && span_renders(spans.last(), out.skip(cut))
    }
}

/// The plain text is always one of the ways to show a sequence of spans.
pub proof fn lemma_plain_text_renders(spans: Seq<Span>)
    ensures
        renders(spans, plain_text(spans)),
    decreases spans.len(),
{
    if spans.len() > 0 {
        lemma_plain_text_renders(spans.drop_last());
        let out = plain_text(spans);
        let cut = plain_text(spans.drop_last()).len() as int;
        assert(out.take(cut) =~= plain_text(spans.drop_last()));
        assert(out.skip(cut) =~= spans.last().text);
    }
}

/// Showing one more span appends one more piece.
pub proof fn lemma_renders_push(spans: Seq<Span>, out: Seq<char>, span: Span, piece: Seq<char>)
    requires
        renders(spans, out),
        span_renders(span, piece),
    ensures
        renders(spans.push(span), out + piece),
{
    let all = out + piece;
    let cut = out.len() as int;
    assert(spans.push(span).drop_last() =~= spans);
    assert(all.take(cut) =~= out);
    assert(all.skip(cut) =~= piece);
}

/// Whether `style` is a way of showing tinted text that the renderings
/// allow: every text comes out bare or enclosed in its color's control
/// sequences.
pub open spec fn is_styling(style: spec_fn(Seq<char>, Tint) -> Seq<char>) -> bool {
    forall|text: Seq<char>, tint: Tint|
        #[trigger] style(text, tint) == text || style(text, tint) == styled(text, tint)
}

/// The characters of `spans` when every tinted piece is shown by `style`.
pub open spec fn shown_by(spans: Seq<Span>, style: spec_fn(Seq<char>, Tint) -> Seq<char>) -> Seq<
    char,
>
    decreases spans.len(),
{
    if spans.len() == 0 {
        Seq::empty()
    } else {
        let last = spans.last();
        shown_by(spans.drop_last(), style) + match last.tint {
            None => last.text,
            Some(tint) => style(last.text, tint),
        }
    }
}

/// With one styling applied to every piece, a sequence of spans has one
/// text, and that text is one of its renderings.
pub proof fn lemma_shown_by_renders(spans: Seq<Span>, style: spec_fn(Seq<char>, Tint) -> Seq<char>)
    requires
        is_styling(style),
    ensures
        renders(spans, shown_by(spans, style)),
    decreases spans.len(),
{
    if spans.len() > 0 {
        lemma_shown_by_renders(spans.drop_last(), style);
        let last = spans.last();
        let piece = match last.tint {
            None => last.text,
            Some(tint) => style(last.text, tint),
        };
        lemma_renders_push(spans.drop_last(), shown_by(spans.drop_last(), style), last, piece);
        assert(spans.drop_last().push(last) =~= spans);
    }
}

/// Pushing the spans of a short sequence one after the other is the same as
/// appending the sequence.
pub proof fn lemma_push_each(shown: Seq<Span>, spans: Seq<Span>)
    requires
        1 <= spans.len() <= 3,
    ensures
        spans.len() == 1 ==> shown.push(spans[0]) == shown + spans,
        spans.len() == 2 ==> shown.push(spans[0]).push(spans[1]) == shown + spans,
        spans.len() == 3 ==> shown.push(spans[0]).push(spans[1]).push(spans[2]) == shown + spans,
{
    if spans.len() == 1 {
        assert(shown.push(spans[0]) =~= shown + spans);
    } else if spans.len() == 2 {
        assert(shown.push(spans[0]).push(spans[1]) =~= shown + spans);
    } else {
        assert(shown.push(spans[0]).push(spans[1]).push(spans[2]) =~= shown + spans);
    }
}

/// Renderings concatenate: a way to show `first` followed by a way to show
/// `second` is a way to show `first + second`.
pub proof fn lemma_renders_concat(
    first: Seq<Span>,
    head: Seq<char>,
    second: Seq<Span>,
    tail: Seq<char>,
)
    requires
        renders(first, head),
        renders(second, tail),
    ensures
        renders(first + second, head + tail),
    decreases second.len(),
{
    if second.len() == 0 {
        assert(first + second =~= first);
        assert(head + tail =~= head);
    } else {
        let cut = choose|cut: int|
            0 <= cut <= tail.len() && renders(second.drop_last(), #[trigger] tail.take(cut))
                && span_renders(second.last(), tail.skip(cut));
        lemma_renders_concat(first, head, second.drop_last(), tail.take(cut));
        lemma_renders_push(
            first + second.drop_last(),
            head + tail.take(cut),
            second.last(),
            tail.skip(cut),
        );
        assert((first + second.drop_last()).push(second.last()) =~= first + second);
        assert(head + tail.take(cut) + tail.skip(cut) =~= head + tail);
    }
}

/// A rendering ends in a piece that shows the last span, and what stands
/// before that piece shows the spans before the last.
pub proof fn lemma_renders_split(spans: Seq<Span>, out: Seq<char>) -> (piece: Seq<char>)
    requires
        spans.len() > 0,
        renders(spans, out),
    ensures
        span_renders(spans.last(), piece),
        piece.len() <= out.len(),
        out == out.take(out.len() - piece.len()) + piece,
        renders(spans.drop_last(), out.take(out.len() - piece.len())),
{
    let cut = choose|cut: int|
        0 <= cut <= out.len() && renders(spans.drop_last(), #[trigger] out.take(cut))
            && span_renders(spans.last(), out.skip(cut));
    assert(out =~= out.take(cut) + out.skip(cut));
    out.skip(cut)
}

/// Spans without a color have one rendering only, their plain text.
pub proof fn lemma_untinted_renders(spans: Seq<Span>, out: Seq<char>)
    requires
        forall|i: int| 0 <= i < spans.len() ==> (#[trigger] spans[i]).tint is None,
        renders(spans, out),
    ensures
        out == plain_text(spans),
    decreases spans.len(),
{
    if spans.len() == 0 {
        assert(out =~= plain_text(spans));
    } else {
        let cut = choose|cut: int|
            0 <= cut <= out.len() && renders(spans.drop_last(), #[trigger] out.take(cut))
                && span_renders(spans.last(), out.skip(cut));
        lemma_untinted_renders(spans.drop_last(), out.take(cut));
        assert(out =~= out.take(cut) + out.skip(cut));
    }
}

/// Shows `text` in `tint` through `colored`: the crate's `Colorize::color`
/// followed by the `Display` of the `ColoredString` it returns. Nothing of
/// this is proved. Depending on the environment (`CLICOLOR`, `NO_COLOR`,
/// `CLICOLOR_FORCE`, whether the output is a terminal, a manual override)
/// the crate either hands the text back as it is or encloses it in
/// `ESC [ 3x m` and `ESC [ 0 m`, where `x` is the color's digit; the
/// contract allows both and nothing else. Text that itself holds an escape
/// character is left out, because the crate rewrites reset sequences inside
/// its input. The crate's override is assumed not to be switched by another
/// thread while a call is under way.
#[verifier::external_body]
fn paint(text: &str, tint: Tint) -> (out: String)
    requires
        !text@.contains(escape()),
    ensures
        out@ == text@ || out@ == styled(text@, tint),
{
    let color = match tint {
        Tint::Green => colored::Color::Green,
        Tint::Red => colored::Color::Red,
        Tint::Blue => colored::Color::Blue,
        Tint::Yellow => colored::Color::Yellow,
        Tint::Magenta => colored::Color::Magenta,
    };
    colored::Colorize::color(text, color).to_string()
}

/// Appends `text` to `out` as it is.
pub(crate) fn append_plain(out: &mut String, text: &str)
    ensures
        final(out)@ == old(out)@ + text@,
        forall|shown: Seq<Span>| #[trigger]
            renders(shown, old(out)@) ==> renders(
                shown.push(Span::plain(text@)),
                final(out)@,
            ),
{
    out.append(text);
    proof {
        assert forall|shown: Seq<Span>| #[trigger] renders(shown, old(out)@) implies renders(
            shown.push(Span::plain(text@)),
            out@,
        ) by {
            lemma_renders_push(shown, old(out)@, Span::plain(text@), text@);
        }
    }
}

/// Appends the decimal numeral of `n` to `out`.
pub(crate) fn append_number(out: &mut String, n: usize)
    ensures
        final(out)@ == old(out)@ + decimal(n as nat),
        forall|shown: Seq<Span>| #[trigger]
            renders(shown, old(out)@) ==> renders(
                shown.push(Span::plain(decimal(n as nat))),
                final(out)@,
            ),
{
    append_decimal(out, n);
    proof {
        assert forall|shown: Seq<Span>| #[trigger] renders(shown, old(out)@) implies renders(
            shown.push(Span::plain(decimal(n as nat))),
            out@,
        ) by {
            lemma_renders_push(
                shown,
                old(out)@,
                Span::plain(decimal(n as nat)),
                decimal(n as nat),
            );
        }
    }
}

/// Appends `glyph` to `out`, shown in `tint`. The glyph must be free of
/// escape characters, as every mark of the prompt is.
pub(crate) fn append_tinted(out: &mut String, glyph: &str, tint: Tint)
    requires
        !glyph@.contains(escape()),
    ensures
        final(out)@ == old(out)@ + glyph@ || final(out)@ == old(out)@ + styled(glyph@, tint),
        forall|shown: Seq<Span>| #[trigger]
            renders(shown, old(out)@) ==> renders(
                shown.push(Span::tinted(glyph@, tint)),
                final(out)@,
            ),
{
    let piece = paint(glyph, tint);
    out.append(piece.as_str());
    proof {
        assert forall|shown: Seq<Span>| #[trigger] renders(shown, old(out)@) implies renders(
            shown.push(Span::tinted(glyph@, tint)),
            out@,
        ) by {
            lemma_renders_push(shown, old(out)@, Span::tinted(glyph@, tint), piece@);
        }
    }
}

} // verus!
