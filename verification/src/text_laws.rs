//! What holds of splitting, measuring, styling and prefixing texts.

use crate::rich_text;
use crate::rich_text::{Color, Line, Modifiers, Span, SpanView, TextStyle};
use crate::texts;
use vstd::prelude::*;

verus! {

/// A part without the separator, the separator and any rest split into that part
/// and the parts of the rest; a text without the separator is its one part.
pub proof fn law_splitting_goes_part_by_part(part: Seq<char>, rest: Seq<char>, c: char)
    requires
        !part.contains(c),
    ensures
        texts::split_on(part, c) == seq![part],
        texts::split_on(part + seq![c] + rest, c) == seq![part] + texts::split_on(rest, c),
        texts::first_of(part, c) == part.len(),
        texts::first_of(part + seq![c] + rest, c) == part.len(),
{
    let text = part + seq![c] + rest;
    assert forall|i: int| 0 <= i < part.len() implies #[trigger] part[i] != c by {
        assert(part.contains(part[i]));
    }
    assert forall|i: int| 0 <= i < part.len() implies #[trigger] text[i] != c by {
        assert(text[i] == part[i]);
    }
    assert(text[part.len() as int] == c);
    texts::lemma_is_first_of(part, c, part.len());
    texts::lemma_is_first_of(text, c, part.len());
    assert(text.take(part.len() as int) =~= part);
    assert(text.skip(part.len() as int + 1) =~= rest);
}

/// The first line of a text ends at its first line feed, and a carriage return
/// right before that line feed belongs to neither line; the other lines are
/// those of the rest. A text without a line feed is one line, carriage return
/// and all, and an empty text has no line.
pub proof fn law_lines_end_at_line_feeds(line: Seq<char>, rest: Seq<char>)
    requires
        !line.contains('\n'),
    ensures
        line.len() == 0 ==> texts::text_lines(line) == Seq::<Seq<char>>::empty(),
        line.len() > 0 ==> texts::text_lines(line) == seq![line],
        !(line.len() > 0 && line.last() == '\r') ==> texts::text_lines(line + seq!['\n'] + rest)
            == seq![line] + texts::text_lines(rest),
        line.len() > 0 && line.last() == '\r' ==> texts::text_lines(line + seq!['\n'] + rest)
            == seq![line.drop_last()] + texts::text_lines(rest),
{
    texts::law_a_text_without_line_feeds_is_one_line(line);
    law_splitting_goes_part_by_part(line, rest, '\n');
    texts::law_split_parts_join_to_the_text(rest, '\n');
    let text = line + seq!['\n'] + rest;
    let parts = texts::split_on(text, '\n');
    let behind = texts::split_on(rest, '\n');
    assert(parts.drop_last() =~= seq![line] + behind.drop_last());
    assert(parts.last() == behind.last());
    assert(texts::text_lines(text) =~= seq![texts::without_return(line)] + texts::text_lines(rest));
}

/// The text of a line is that of its spans, one after the other, and its width
/// is the sum of theirs; a width that is too large for a machine number counts
/// as the largest one.
pub proof fn law_a_line_is_the_sum_of_its_spans(
    one: Seq<SpanView>,
    other: Seq<SpanView>,
    span: SpanView,
    width: nat,
)
    ensures
        rich_text::line_text(Seq::<SpanView>::empty()) == Seq::<char>::empty(),
        rich_text::line_text(seq![span]) == span.content,
        rich_text::line_text(one + other) == rich_text::line_text(one) + rich_text::line_text(
            other,
        ),
        rich_text::line_width(Seq::<SpanView>::empty()) == 0,
        rich_text::line_width(seq![span]) == rich_text::text_width(span.content),
        rich_text::line_width(one + other) == rich_text::line_width(one) + rich_text::line_width(
            other,
        ),
        width <= usize::MAX ==> rich_text::capped(width) == width,
        width > usize::MAX ==> rich_text::capped(width) == usize::MAX,
    decreases other.len(),
{
    let single = seq![span];
    assert(single.drop_last() =~= Seq::<SpanView>::empty());
    reveal_with_fuel(rich_text::line_text, 2);
    reveal_with_fuel(rich_text::line_width, 2);
    assert(rich_text::line_text(single) =~= span.content);
    if other.len() == 0 {
        assert(one + other =~= one);
        assert(rich_text::line_text(one) + rich_text::line_text(other) =~= rich_text::line_text(
            one,
        ));
    } else {
        assert((one + other).drop_last() =~= one + other.drop_last());
        law_a_line_is_the_sum_of_its_spans(one, other.drop_last(), span, width);
        assert(rich_text::line_text(one + other) =~= rich_text::line_text(one)
            + rich_text::line_text(other));
    }
}

/// Whether a style has exactly this colour and adds exactly these two effects,
/// and nothing else.
pub open spec fn is_style(style: TextStyle, color: Option<Color>, bold: bool, dim: bool) -> bool {
    &&& style.color == color
    &&& style.background is None
    &&& style.underline is None
    &&& style.added == (Modifiers {
        bold,
        dim,
        italic: false,
        underlined: false,
        slow_blink: false,
        rapid_blink: false,
        reversed: false,
        hidden: false,
        crossed_out: false,
    })
    &&& style.removed == (Modifiers {
        bold: false,
        dim: false,
        italic: false,
        underlined: false,
        slow_blink: false,
        rapid_blink: false,
        reversed: false,
        hidden: false,
        crossed_out: false,
    })
}

/// A named style has what its name says, and nothing else.
pub proof fn law_a_style_is_what_its_name_says(color: Color, content: Seq<char>, style: TextStyle)
    ensures
        is_style(rich_text::plain(), None, false, false),
        is_style(rich_text::dim(), None, false, true),
        is_style(rich_text::bold(), None, true, false),
        is_style(rich_text::colored(color), Some(color), false, false),
        is_style(rich_text::bold_colored(color), Some(color), true, false),
        rich_text::span(content, style).content == content,
        rich_text::span(content, style).style == style,
{
}

/// Prefixing puts one span in front of each line and changes nothing else: the
/// first one's before the first line, the other one before every other line.
pub proof fn law_prefixing_keeps_the_lines(
    lines: Seq<Seq<SpanView>>,
    initial: SpanView,
    subsequent: SpanView,
    i: int,
)
    requires
        0 <= i < lines.len(),
    ensures
        rich_text::prefixed(lines, initial, subsequent).len() == lines.len(),
        rich_text::prefixed(lines, initial, subsequent)[i].drop_first() == lines[i],
        rich_text::prefixed(lines, initial, subsequent)[i].len() == lines[i].len() + 1,
        i == 0 ==> rich_text::prefixed(lines, initial, subsequent)[i][0] == initial,
        i > 0 ==> rich_text::prefixed(lines, initial, subsequent)[i][0] == subsequent,
        rich_text::prefixed(Seq::empty(), initial, subsequent).len() == 0,
{
    assert(rich_text::prefixed(lines, initial, subsequent)[i].drop_first() =~= lines[i]);
}

/// A span, a line and some lines are seen whole.
pub proof fn law_lines_are_seen_whole(span: Span, line: Line, lines: Seq<Line>, i: int)
    ensures
        span@.content == span.content@,
        span@.style == span.style,
        line@.len() == line.spans@.len(),
        0 <= i < line.spans@.len() ==> line@[i] == line.spans@[i]@,
        rich_text::line_views(lines).len() == lines.len(),
        0 <= i < lines.len() ==> rich_text::line_views(lines)[i] == lines[i]@,
{
}

} // verus!
