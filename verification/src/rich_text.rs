//! Styled text: spans, lines, and how many columns they take.

use vstd::prelude::*;

verus! {

/// A colour of text, background or underline: the terminal's default, one of its sixteen
/// named colours, one given by its parts, or one of its indexed colours.
#[derive(Clone, Copy, Debug, PartialEq, Eq, Structural)]
pub enum Color {
    Reset,
    Black,
    Red,
    Green,
    Yellow,
    Blue,
    Magenta,
    Cyan,
    Gray,
    DarkGray,
    LightRed,
    LightGreen,
    LightYellow,
    LightBlue,
    LightMagenta,
    LightCyan,
    White,
    Rgb(u8, u8, u8),
    Indexed(u8),
}

/// A set of text effects.
#[derive(Clone, Copy, Debug, PartialEq, Eq, Structural)]
pub struct Modifiers {
    pub bold: bool,
    pub dim: bool,
    pub italic: bool,
    pub underlined: bool,
    pub slow_blink: bool,
    pub rapid_blink: bool,
    pub reversed: bool,
    pub hidden: bool,
    pub crossed_out: bool,
}

/// How a text is shown, as a change to how it would be shown otherwise: its
/// colours where it has its own, and the effects that it adds and takes away.
#[derive(Clone, Copy, Debug, PartialEq, Eq, Structural)]
pub struct TextStyle {
    pub color: Option<Color>,
    pub background: Option<Color>,
    pub underline: Option<Color>,
    pub added: Modifiers,
    pub removed: Modifiers,
}

/// No effect.
#[verifier::allow_in_spec]
pub fn no_modifiers() -> Modifiers
    returns
        (Modifiers {
            bold: false,
            dim: false,
            italic: false,
            underlined: false,
            slow_blink: false,
            rapid_blink: false,
            reversed: false,
            hidden: false,
            crossed_out: false,
        }),
{
    Modifiers {
        bold: false,
        dim: false,
        italic: false,
        underlined: false,
        slow_blink: false,
        rapid_blink: false,
        reversed: false,
        hidden: false,
        crossed_out: false,
    }
}

/// Nothing of its own.
#[verifier::allow_in_spec]
pub fn plain() -> TextStyle
    returns
        (TextStyle {
            color: None,
            background: None,
            underline: None,
            added: no_modifiers(),
            removed: no_modifiers(),
        }),
{
    TextStyle {
        color: None,
        background: None,
        underline: None,
        added: no_modifiers(),
        removed: no_modifiers(),
    }
}

/// Dim.
#[verifier::allow_in_spec]
pub fn dim() -> TextStyle
    returns
        (TextStyle {
            color: None,
            background: None,
            underline: None,
            added: Modifiers { dim: true, ..no_modifiers() },
            removed: no_modifiers(),
        }),
{
    TextStyle {
        color: None,
        background: None,
        underline: None,
        added: Modifiers { dim: true, ..no_modifiers() },
        removed: no_modifiers(),
    }
}

/// Bold.
#[verifier::allow_in_spec]
pub fn bold() -> TextStyle
    returns
        (TextStyle {
            color: None,
            background: None,
            underline: None,
            added: Modifiers { bold: true, ..no_modifiers() },
            removed: no_modifiers(),
        }),
{
    TextStyle {
        color: None,
        background: None,
        underline: None,
        added: Modifiers { bold: true, ..no_modifiers() },
        removed: no_modifiers(),
    }
}

/// In one colour.
#[verifier::allow_in_spec]
pub fn colored(color: Color) -> TextStyle
    returns
        (TextStyle {
            color: Some(color),
            background: None,
            underline: None,
            added: no_modifiers(),
            removed: no_modifiers(),
        }),
{
    TextStyle {
        color: Some(color),
        background: None,
        underline: None,
        added: no_modifiers(),
        removed: no_modifiers(),
    }
}

/// In one colour and bold.
#[verifier::allow_in_spec]
pub fn bold_colored(color: Color) -> TextStyle
    returns
        (TextStyle {
            color: Some(color),
            background: None,
            underline: None,
            added: Modifiers { bold: true, ..no_modifiers() },
            removed: no_modifiers(),
        }),
{
    TextStyle {
        color: Some(color),
        background: None,
        underline: None,
        added: Modifiers { bold: true, ..no_modifiers() },
        removed: no_modifiers(),
    }
}

/// A text in one style.
#[derive(Debug)]
pub struct Span {
    pub content: String,
    pub style: TextStyle,
}

/// The mathematical counterpart of [`Span`].
pub struct SpanView {
    pub content: Seq<char>,
    pub style: TextStyle,
}

impl View for Span {
    type V = SpanView;

    open spec fn view(&self) -> SpanView {
        SpanView { content: self.content@, style: self.style }
    }
}

/// A line of spans.
#[derive(Debug)]
pub struct Line {
    pub spans: Vec<Span>,
}

/// Spans as their mathematical counterparts.
pub open spec fn span_views(spans: Seq<Span>) -> Seq<SpanView> {
    spans.map_values(|span: Span| span@)
}

impl View for Line {
    type V = Seq<SpanView>;

    open spec fn view(&self) -> Seq<SpanView> {
        span_views(self.spans@)
    }
}

/// Lines as their mathematical counterparts.
pub open spec fn line_views(lines: Seq<Line>) -> Seq<Seq<SpanView>> {
    lines.map_values(|line: Line| line@)
}

/// A span of a text in a style.
pub open spec fn span(content: Seq<char>, style: TextStyle) -> SpanView {
    SpanView { content, style }
}

/// The text of a line.
pub open spec fn line_text(line: Seq<SpanView>) -> Seq<char>
    decreases line.len(),
{
    if line.len() == 0 {
        Seq::empty()
    } else {
        line_text(line.drop_last()) + line.last().content
    }
}

/// The number of columns that a text takes, as `ratatui` measures it.
pub uninterp spec fn text_width(text: Seq<char>) -> usize;

/// The number of columns that a line takes: the sum over its spans.
pub open spec fn line_width(line: Seq<SpanView>) -> nat
    decreases line.len(),
{
    if line.len() == 0 {
        0
    } else {
        line_width(line.drop_last()) + text_width(line.last().content) as nat
    }
}

/// `ratatui::text::Span::width` of a span with this text: a number of columns
/// that the text alone decides.
#[verifier::external_body]
pub(crate) fn measure(text: &str) -> (width: usize)
    ensures
        width == text_width(text@),
{
    ratatui::text::Span::raw(text).width()
}

/// A width, cut to the largest machine number.
pub open spec fn capped(width: nat) -> nat {
    if width <= usize::MAX {
        width
    } else {
        usize::MAX as nat
    }
}

impl Span {
    /// A span of a text in a style.
    pub fn new(content: &str, style: TextStyle) -> (result: Span)
        ensures
            result@ == span(content@, style),
    {
        Span { content: content.to_owned(), style }
    }

    /// A copy of this span.
    pub fn copy(&self) -> (result: Span)
        ensures
            result@ == self@,
    {
        Span { content: self.content.clone(), style: self.style }
    }
}

impl Line {
    /// The number of columns that the line takes.
    pub fn width(&self) -> (width: usize)
        ensures
            width == capped(line_width(self@)),
    {
        let mut width: usize = 0;
        for i in 0..self.spans.len()
            invariant
                width == capped(line_width(self@.take(i as int))),
        {
            assert(self@.take(i + 1).drop_last() =~= self@.take(i as int));
            width = width.saturating_add(measure(self.spans[i].content.as_str()));
        }
        assert(self@.take(self.spans@.len() as int) =~= self@);
        width
    }

    /// Appends copies of another line's spans.
    pub fn extend(&mut self, other: &Line)
        ensures
            final(self)@ == old(self)@ + other@,
    {
        let ghost before = self@;
        for i in 0..other.spans.len()
            invariant
                self@ == before + other@.take(i as int),
        {
            let copy = other.spans[i].copy();
            let ghost so_far = self.spans@;
            self.spans.push(copy);
            assert(self@ =~= span_views(so_far).push(copy@));
            assert(other@.take(i + 1) =~= other@.take(i as int).push(other@[i as int]));
        }
        assert(other@.take(other.spans@.len() as int) =~= other@);
    }
}

/// Each line with a span in front: `initial` before the first, `subsequent`
/// before the others.
pub open spec fn prefixed(
    lines: Seq<Seq<SpanView>>,
    initial: SpanView,
    subsequent: SpanView,
) -> Seq<Seq<SpanView>> {
    Seq::new(
        lines.len(),
        |i: int|
            seq![if i == 0 {
                initial
            } else {
                subsequent
            }] + lines[i],
    )
}

/// Puts a span in front of each line: `initial` before the first, `subsequent`
/// before the others.
pub fn prefix_lines(lines: &Vec<Line>, initial: &Span, subsequent: &Span) -> (result: Vec<Line>)
    ensures
        line_views(result@) == prefixed(line_views(lines@), initial@, subsequent@),
{
    let mut result: Vec<Line> = Vec::new();
    for i in 0..lines.len()
        invariant
            result@.len() == i,
            forall|j: int|
                0 <= j < i ==> (#[trigger] result@[j])@ == prefixed(
                    line_views(lines@),
                    initial@,
                    subsequent@,
                )[j],
    {
        let first = if i == 0 {
            initial.copy()
        } else {
            subsequent.copy()
        };
        let mut spans: Vec<Span> = Vec::new();
        spans.push(first);
        let mut line = Line { spans };
        assert(line@ =~= seq![first@]);
        line.extend(&lines[i]);
        result.push(line);
    }
    assert(line_views(result@) =~= prefixed(line_views(lines@), initial@, subsequent@));
    result
}

} // verus!
