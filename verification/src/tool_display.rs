//! How a dynamic tool call is laid out in lines.
//!
//! Three functions come from the caller: one cuts a tool's output short, one
//! wraps a line, and one breaks an output into unstyled lines. Contracts say
//! what is handed to them and what becomes of what they return, whatever that
//! is.

use crate::dynamic_tool::{
    ContentItemView, CellView, DynamicToolCallCell, DynamicToolCallOutputContentItem,
};
use crate::dynamic_tool;
use crate::rich_text::{bold, bold_colored, colored, dim, plain, prefix_lines};
use crate::rich_text::{Color, Line, Span, SpanView};
use crate::rich_text;
use crate::texts::{break_lines, split_text};
use crate::texts;
use vstd::prelude::*;

verus! {

/// Whether `cut`, given this text and these limits, may return `out`.
pub open spec fn cuts_to<C: Fn(&str, usize, usize) -> String>(
    cut: C,
    text: Seq<char>,
    max_lines: usize,
    width: usize,
    out: Seq<char>,
) -> bool {
    exists|given: &str, result: String| #[trigger]
        call_ensures(cut, (given, max_lines, width), result) && given@ == text && result@ == out
}

/// Whether `cut` may return these texts for these items.
pub open spec fn cuts_all<C: Fn(&str, usize, usize) -> String>(
    cut: C,
    items: Seq<ContentItemView>,
    max_lines: usize,
    width: usize,
    texts: Seq<Seq<char>>,
) -> bool {
    &&& texts.len() == items.len()
    &&& forall|i: int|
        0 <= i < items.len() ==> cuts_to(
            cut,
            dynamic_tool::item_text(#[trigger] items[i]),
            max_lines,
            width,
            texts[i],
        )
}

/// Shows an item as text, cut short by `cut`.
pub fn render_content_item<C: Fn(&str, usize, usize) -> String>(
    item: &DynamicToolCallOutputContentItem,
    max_lines: usize,
    width: usize,
    cut: &C,
) -> (text: String)
    requires
        forall|given: &str, lines: usize, columns: usize| #[trigger]
            call_requires(*cut, (given, lines, columns)),
    ensures
        cuts_to(*cut, dynamic_tool::item_text(item@), max_lines, width, text@),
{
    let whole = item.text();
    let text = cut(whole.as_str(), max_lines, width);
    text
}

/// Whether `wrap` may return these lines for this line at this width, with no
/// indent for the first line and four spaces for the others.
pub open spec fn wraps_to<W: Fn(&Line, usize, &str, &str) -> Vec<Line>>(
    wrap: W,
    line: Seq<SpanView>,
    width: usize,
    out: Seq<Seq<SpanView>>,
) -> bool {
    exists|given: &Line, initial: &str, subsequent: &str, result: Vec<Line>| #[trigger]
        call_ensures(wrap, (given, width, initial, subsequent), result) && given@ == line
            && initial@ == ""@ && subsequent@ == "    "@ && rich_text::line_views(result@) == out
}

/// Some blocks of lines, one after the other.
pub open spec fn all_lines(blocks: Seq<Seq<Seq<SpanView>>>) -> Seq<Seq<SpanView>>
    decreases blocks.len(),
{
    if blocks.len() == 0 {
        Seq::empty()
    } else {
        all_lines(blocks.drop_last()) + blocks.last()
    }
}

/// Whether `wrap` may return these lines for these sources, one after the
/// other.
pub open spec fn wraps_all<W: Fn(&Line, usize, &str, &str) -> Vec<Line>>(
    wrap: W,
    sources: Seq<Seq<SpanView>>,
    width: usize,
    lines: Seq<Seq<SpanView>>,
) -> bool {
    exists|blocks: Seq<Seq<Seq<SpanView>>>|
        blocks.len() == sources.len() && lines == #[trigger] all_lines(blocks) && (forall|i: int|
            0 <= i < sources.len() ==> wraps_to(wrap, #[trigger] sources[i], width, blocks[i]))
}

proof fn lemma_all_lines_concat(a: Seq<Seq<Seq<SpanView>>>, b: Seq<Seq<Seq<SpanView>>>)
    ensures
        all_lines(a + b) == all_lines(a) + all_lines(b),
    decreases b.len(),
{
    if b.len() == 0 {
        assert(a + b =~= a);
        assert(all_lines(a) + all_lines(b) =~= all_lines(a));
    } else {
        assert((a + b).drop_last() =~= a + b.drop_last());
        lemma_all_lines_concat(a, b.drop_last());
        assert(all_lines(a + b) =~= all_lines(a) + all_lines(b));
    }
}

proof fn lemma_wraps_all_concat<W: Fn(&Line, usize, &str, &str) -> Vec<Line>>(
    wrap: W,
    sources_a: Seq<Seq<SpanView>>,
    sources_b: Seq<Seq<SpanView>>,
    width: usize,
    lines_a: Seq<Seq<SpanView>>,
    lines_b: Seq<Seq<SpanView>>,
)
    requires
        wraps_all(wrap, sources_a, width, lines_a),
        wraps_all(wrap, sources_b, width, lines_b),
    ensures
        wraps_all(wrap, sources_a + sources_b, width, lines_a + lines_b),
{
    let a = choose|blocks: Seq<Seq<Seq<SpanView>>>|
        blocks.len() == sources_a.len() && lines_a == #[trigger] all_lines(blocks) && (forall|
            i: int,
        |
            0 <= i < sources_a.len() ==> wraps_to(wrap, #[trigger] sources_a[i], width, blocks[i]));
    let b = choose|blocks: Seq<Seq<Seq<SpanView>>>|
        blocks.len() == sources_b.len() && lines_b == #[trigger] all_lines(blocks) && (forall|
            i: int,
        |
            0 <= i < sources_b.len() ==> wraps_to(wrap, #[trigger] sources_b[i], width, blocks[i]));
    lemma_all_lines_concat(a, b);
    let sources = sources_a + sources_b;
    let blocks = a + b;
    assert forall|i: int| 0 <= i < sources.len() implies wraps_to(
        wrap,
        #[trigger] sources[i],
        width,
        blocks[i],
    ) by {
        if i < sources_a.len() {
            assert(sources[i] == sources_a[i]);
        } else {
            assert(sources[i] == sources_b[i - sources_a.len()]);
        }
    }
}

/// Each text as a dim line.
pub open spec fn dim_lines(texts: Seq<Seq<char>>) -> Seq<Seq<SpanView>> {
    texts.map_values(|text: Seq<char>| seq![rich_text::span(text, rich_text::dim())])
}

/// The lines to wrap for some outputs: one dim line per line of each.
pub open spec fn detail_sources(texts: Seq<Seq<char>>) -> Seq<Seq<SpanView>>
    decreases texts.len(),
{
    if texts.len() == 0 {
        Seq::empty()
    } else {
        detail_sources(texts.drop_last()) + dim_lines(texts::split_on(texts.last(), '\n'))
    }
}

/// Appends lines.
fn append_lines(lines: &mut Vec<Line>, more: Vec<Line>)
    ensures
        rich_text::line_views(final(lines)@) == rich_text::line_views(old(lines)@)
            + rich_text::line_views(more@),
{
    let ghost before = lines@;
    let mut more = more;
    let ghost added = more@;
    lines.append(&mut more);
    assert(rich_text::line_views(lines@) =~= rich_text::line_views(before)
        + rich_text::line_views(added));
}

/// Wraps each line of an output, dim.
#[verifier::loop_isolation(false)]
pub fn wrap_output<W: Fn(&Line, usize, &str, &str) -> Vec<Line>>(
    text: &str,
    width: usize,
    wrap: &W,
) -> (lines: Vec<Line>)
    requires
        forall|line: &Line, columns: usize, initial: &str, subsequent: &str| #[trigger]
            call_requires(*wrap, (line, columns, initial, subsequent)),
    ensures
        wraps_all(
            *wrap,
            dim_lines(texts::split_on(text@, '\n')),
            width,
            rich_text::line_views(lines@),
        ),
{
    let parts = split_text(text, '\n');
    let ghost sources = dim_lines(texts::split_on(text@, '\n'));
    let mut lines: Vec<Line> = Vec::new();
    let ghost mut blocks: Seq<Seq<Seq<SpanView>>> = Seq::empty();
    assert(rich_text::line_views(lines@) =~= all_lines(blocks));
    for i in 0..parts.len()
        invariant
            blocks.len() == i,
            rich_text::line_views(lines@) == all_lines(blocks),
            forall|j: int|
                0 <= j < i ==> wraps_to(*wrap, #[trigger] sources[j], width, blocks[j]),
    {
        let mut spans: Vec<Span> = Vec::new();
        spans.push(Span::new(parts[i].as_str(), dim()));
        let line = Line { spans };
        assert(texts::text_views(parts@)[i as int] == parts@[i as int]@);
        assert(line@ =~= sources[i as int]);
        let wrapped = wrap(&line, width, "", "    ");
        proof {
            let block = rich_text::line_views(wrapped@);
            assert(wraps_to(*wrap, sources[i as int], width, block));
            assert(blocks.push(block).drop_last() =~= blocks);
            blocks = blocks.push(block);
        }
        append_lines(&mut lines, wrapped);
    }
    lines
}

/// The bullet in front of a call: green once it succeeded, red once it failed,
/// and the activity indicator while it runs, or a dim bullet without one.
pub open spec fn bullet_of(success: Option<bool>, indicator: Option<SpanView>) -> SpanView {
    match success {
        Some(true) => rich_text::span("•"@, rich_text::bold_colored(Color::Green)),
        Some(false) => rich_text::span("•"@, rich_text::bold_colored(Color::Red)),
        None => match indicator {
            Some(indicator) => indicator,
            None => rich_text::span("•"@, rich_text::dim()),
        },
    }
}

/// The word in front of a call.
pub open spec fn header_word(success: Option<bool>) -> Seq<char> {
    if success is Some {
        "Called"@
    } else {
        "Calling"@
    }
}

/// What follows a call that came to an end.
pub open spec fn status_suffix(success: Option<bool>) -> Seq<SpanView> {
    match success {
        Some(true) => seq![
            rich_text::span(" -> "@, rich_text::dim()),
            rich_text::span("success"@, rich_text::colored(Color::Green)),
        ],
        Some(false) => seq![
            rich_text::span(" -> "@, rich_text::dim()),
            rich_text::span("failed"@, rich_text::colored(Color::Red)),
        ],
        None => Seq::empty(),
    }
}

/// The header of a call, without the space behind it.
pub open spec fn bare_header(success: Option<bool>, indicator: Option<SpanView>) -> Seq<SpanView> {
    seq![
        bullet_of(success, indicator),
        rich_text::span(" "@, rich_text::plain()),
        rich_text::span(header_word(success), rich_text::bold()),
    ]
}

/// The header of a call that shares its line with the call.
pub open spec fn compact_header(success: Option<bool>, indicator: Option<SpanView>) -> Seq<
    SpanView,
> {
    bare_header(success, indicator).push(rich_text::span(" "@, rich_text::plain()))
}

/// The content of an optional span.
pub open spec fn optional_span(span: Option<Span>) -> Option<SpanView> {
    match span {
        Some(span) => Some(span@),
        None => None,
    }
}

/// Whether a call of this width fits beside what the line reserves.
pub open spec fn fits(width: u16, reserved: nat, invocation: nat) -> bool {
    if reserved <= width {
        invocation <= width - reserved
    } else {
        invocation == 0
    }
}

/// Whether a call of this width fits beside what the line reserves.
pub fn fits_inline(width: u16, reserved: usize, invocation: usize) -> (yes: bool)
    ensures
        yes == fits(width, reserved as nat, invocation as nat),
{
    invocation <= (width as usize).saturating_sub(reserved)
}

/// The width that is left of `width` for lines that are set in.
pub open spec fn inner_width(width: u16) -> usize {
    if width >= 4 {
        (width - 4) as usize
    } else {
        0
    }
}

/// The width to wrap outputs at: at least one column.
pub open spec fn detail_width(width: u16) -> usize {
    if inner_width(width) == 0 {
        1
    } else {
        inner_width(width)
    }
}

/// The corner that leads from a header to what belongs to it.
pub open spec fn corner() -> SpanView {
    rich_text::span("  └ "@, rich_text::dim())
}

/// The space in front of lines that are set in.
pub open spec fn indent() -> SpanView {
    rich_text::span("    "@, rich_text::plain())
}

/// The lines of a call: the header, with the call beside it or wrapped below
/// it, and the output below.
pub open spec fn layout(
    success: Option<bool>,
    indicator: Option<SpanView>,
    invocation: Seq<SpanView>,
    inline: bool,
    wrapped_invocation: Seq<Seq<SpanView>>,
    details: Seq<Seq<SpanView>>,
) -> Seq<Seq<SpanView>> {
    if inline {
        seq![compact_header(success, indicator) + invocation + status_suffix(success)]
            + rich_text::prefixed(details, corner(), indent())
    } else {
        seq![bare_header(success, indicator) + status_suffix(success)] + rich_text::prefixed(
            wrapped_invocation,
            corner(),
            indent(),
        ) + rich_text::prefixed(details, indent(), indent())
    }
}

fn bullet(success: Option<bool>, indicator: &Option<Span>) -> (span: Span)
    ensures
        span@ == bullet_of(success, optional_span(*indicator)),
{
    match success {
        Some(succeeded) => if succeeded {
            Span::new("•", bold_colored(Color::Green))
        } else {
            Span::new("•", bold_colored(Color::Red))
        },
        None => match indicator {
            Some(indicator) => indicator.copy(),
            None => Span::new("•", dim()),
        },
    }
}

fn word(success: Option<bool>) -> (word: &'static str)
    ensures
        word@ == header_word(success),
{
    if success.is_some() {
        "Called"
    } else {
        "Calling"
    }
}

fn suffix(success: Option<bool>) -> (line: Line)
    ensures
        line@ == status_suffix(success),
{
    let mut spans: Vec<Span> = Vec::new();
    if let Some(succeeded) = success {
        spans.push(Span::new(" -> ", dim()));
        if succeeded {
            spans.push(Span::new("success", colored(Color::Green)));
        } else {
            spans.push(Span::new("failed", colored(Color::Red)));
        }
    }
    let line = Line { spans };
    assert(line@ =~= status_suffix(success));
    line
}

fn bare(success: Option<bool>, indicator: &Option<Span>) -> (line: Line)
    ensures
        line@ == bare_header(success, optional_span(*indicator)),
{
    let mut spans: Vec<Span> = Vec::new();
    spans.push(bullet(success, indicator));
    spans.push(Span::new(" ", plain()));
    spans.push(Span::new(word(success), bold()));
    let line = Line { spans };
    assert(line@ =~= bare_header(success, optional_span(*indicator)));
    line
}

fn compact(success: Option<bool>, indicator: &Option<Span>) -> (line: Line)
    ensures
        line@ == compact_header(success, optional_span(*indicator)),
{
    let mut line = bare(success, indicator);
    let ghost before = line@;
    line.spans.push(Span::new(" ", plain()));
    assert(line@ =~= before.push(rich_text::span(" "@, rich_text::plain())));
    line
}

/// Lays out a call from its parts.
pub fn lay_out(
    success: Option<bool>,
    indicator: &Option<Span>,
    invocation: &Line,
    inline: bool,
    wrapped_invocation: &Vec<Line>,
    details: &Vec<Line>,
) -> (lines: Vec<Line>)
    ensures
        rich_text::line_views(lines@) == layout(
            success,
            optional_span(*indicator),
            invocation@,
            inline,
            rich_text::line_views(wrapped_invocation@),
            rich_text::line_views(details@),
        ),
{
    let status = suffix(success);
    let mut lines: Vec<Line> = Vec::new();
    if inline {
        let mut header = compact(success, indicator);
        header.extend(invocation);
        header.extend(&status);
        lines.push(header);
        assert(rich_text::line_views(lines@) =~= seq![header@]);
        append_lines(
            &mut lines,
            prefix_lines(details, &Span::new("  └ ", dim()), &Span::new("    ", plain())),
        );
    } else {
        let mut header = bare(success, indicator);
        header.extend(&status);
        lines.push(header);
        assert(rich_text::line_views(lines@) =~= seq![header@]);
        append_lines(
            &mut lines,
            prefix_lines(
                wrapped_invocation,
                &Span::new("  └ ", dim()),
                &Span::new("    ", plain()),
            ),
        );
        append_lines(
            &mut lines,
            prefix_lines(details, &Span::new("    ", plain()), &Span::new("    ", plain())),
        );
    }
    lines
}

/// Whether a cell's call is shown beside its header at this width.
pub open spec fn is_inline(cell: CellView, width: u16, indicator: Option<SpanView>) -> bool {
    fits(
        width,
        rich_text::line_width(compact_header(cell.success, indicator)) + rich_text::line_width(
            status_suffix(cell.success),
        ),
        rich_text::line_width(dynamic_tool::invocation_spans(cell.invocation())),
    )
}

/// Whether these are the lines of a cell, with these outputs cut short, this
/// wrapped call (where it does not fit beside the header) and these wrapped
/// outputs.
pub open spec fn displays<
    C: Fn(&str, usize, usize) -> String,
    W: Fn(&Line, usize, &str, &str) -> Vec<Line>,
>(
    cell: CellView,
    width: u16,
    indicator: Option<SpanView>,
    max_lines: usize,
    cut: C,
    wrap: W,
    texts: Seq<Seq<char>>,
    wrapped_invocation: Seq<Seq<SpanView>>,
    details: Seq<Seq<SpanView>>,
    lines: Seq<Seq<SpanView>>,
) -> bool {
    let invocation = dynamic_tool::invocation_spans(cell.invocation());
    let inline = is_inline(cell, width, indicator);
    &&& cuts_all(cut, cell.items(), max_lines, detail_width(width), texts)
    &&& inline || wraps_to(wrap, invocation, inner_width(width), wrapped_invocation)
    &&& wraps_all(wrap, detail_sources(texts), detail_width(width), details)
    &&& lines == layout(cell.success, indicator, invocation, inline, wrapped_invocation, details)
}

/// The status behind a written-out call.
pub open spec fn raw_suffix(success: Option<bool>) -> Seq<char> {
    match success {
        Some(true) => " -> success"@,
        Some(false) => " -> failed"@,
        None => Seq::empty(),
    }
}

/// The text of a call's header without styling.
pub open spec fn raw_header_text(success: Option<bool>, invocation: Seq<char>) -> Seq<char> {
    header_word(success) + " "@ + invocation + raw_suffix(success)
}

/// The header of a call without styling: one line, with a span for each line of
/// its text.
pub open spec fn raw_header_line(success: Option<bool>, invocation: Seq<char>) -> Seq<SpanView> {
    texts::text_lines(raw_header_text(success, invocation)).map_values(
        |line: Seq<char>| rich_text::span(line, rich_text::plain()),
    )
}

/// The header of a call without styling.
pub fn raw_header(success: Option<bool>, invocation: &str) -> (line: Line)
    ensures
        line@ == raw_header_line(success, invocation@),
{
    let mut text = word(success).to_owned();
    text.append(" ");
    text.append(invocation);
    if let Some(succeeded) = success {
        text.append(
            if succeeded {
                " -> success"
            } else {
                " -> failed"
            },
        );
    }
    assert(text@ =~= raw_header_text(success, invocation@));
    let parts = break_lines(text.as_str());
    let mut spans: Vec<Span> = Vec::new();
    for i in 0..parts.len()
        invariant
            spans@.len() == i,
            forall|j: int|
                0 <= j < i ==> (#[trigger] spans@[j])@ == rich_text::span(
                    parts@[j]@,
                    rich_text::plain(),
                ),
    {
        spans.push(Span::new(parts[i].as_str(), plain()));
    }
    let line = Line { spans };
    assert forall|j: int| 0 <= j < parts@.len() implies #[trigger] line@[j] == raw_header_line(
        success,
        invocation@,
    )[j] by {
        assert(texts::text_views(parts@)[j] == parts@[j]@);
    }
    assert(texts::text_views(parts@).len() == parts@.len());
    assert(line@ =~= raw_header_line(success, invocation@));
    line
}

/// Whether `plain_lines`, given this text, may return these lines.
pub open spec fn breaks_to<R: Fn(&str) -> Vec<Line>>(
    plain_lines: R,
    text: Seq<char>,
    out: Seq<Seq<SpanView>>,
) -> bool {
    exists|given: &str, result: Vec<Line>| #[trigger]
        call_ensures(plain_lines, (given,), result) && given@ == text && rich_text::line_views(
            result@,
        ) == out
}

/// Whether these are the unstyled lines of a cell, with these outputs cut
/// short and these blocks of lines made of them.
pub open spec fn displays_raw<C: Fn(&str, usize, usize) -> String, R: Fn(&str) -> Vec<Line>>(
    cell: CellView,
    max_lines: usize,
    raw_width: usize,
    cut: C,
    plain_lines: R,
    texts: Seq<Seq<char>>,
    blocks: Seq<Seq<Seq<SpanView>>>,
    lines: Seq<Seq<SpanView>>,
) -> bool {
    &&& cuts_all(cut, cell.items(), max_lines, raw_width, texts)
    &&& blocks.len() == texts.len()
    &&& forall|i: int| 0 <= i < texts.len() ==> breaks_to(plain_lines, #[trigger] texts[i], blocks[i])
    &&& lines == seq![raw_header_line(cell.success, cell.invocation())] + all_lines(blocks)
}

impl DynamicToolCallCell {
    /// Whether the call is shown beside its header at this width.
    pub fn is_inline(&self, width: u16, indicator: &Option<Span>) -> (yes: bool)
        ensures
            yes == is_inline(self@, width, optional_span(*indicator)),
    {
        let header = compact(self.success(), indicator).width();
        let reserved = header.saturating_add(suffix(self.success()).width());
        fits_inline(width, reserved, self.invocation_line().width())
    }

    /// The cell's lines at this width. While the call runs, `indicator` is its
    /// bullet. `cut` cuts an output short to a number of lines and columns;
    /// `wrap` wraps a line at a width with an indent for its first line and
    /// one for the others.
    pub fn display_lines<
        C: Fn(&str, usize, usize) -> String,
        W: Fn(&Line, usize, &str, &str) -> Vec<Line>,
    >(
        &self,
        width: u16,
        indicator: &Option<Span>,
        max_lines: usize,
        cut: &C,
        wrap: &W,
    ) -> (lines: Vec<Line>)
        requires
            forall|given: &str, lines: usize, columns: usize| #[trigger]
                call_requires(*cut, (given, lines, columns)),
            forall|line: &Line, columns: usize, initial: &str, subsequent: &str| #[trigger]
                call_requires(*wrap, (line, columns, initial, subsequent)),
        ensures
            exists|
                texts: Seq<Seq<char>>,
                wrapped_invocation: Seq<Seq<SpanView>>,
                details: Seq<Seq<SpanView>>,
            | #[trigger]
                displays(
                    self@,
                    width,
                    optional_span(*indicator),
                    max_lines,
                    *cut,
                    *wrap,
                    texts,
                    wrapped_invocation,
                    details,
                    rich_text::line_views(lines@),
                ),
    {
        let invocation = self.invocation_line();
        let inline = self.is_inline(width, indicator);
        let inner: usize = (width as usize).saturating_sub(4);
        let outer: usize = if inner == 0 {
            1
        } else {
            inner
        };
        let wrapped_invocation = if inline {
            Vec::new()
        } else {
            wrap(&invocation, inner, "", "    ")
        };
        let mut details: Vec<Line> = Vec::new();
        let ghost mut texts: Seq<Seq<char>> = Seq::empty();
        proof {
            assert(rich_text::line_views(details@) =~= all_lines(Seq::empty()));
        }
        match self.content_items() {
            Some(items) => {
                for i in 0..items.len()
                    invariant
                        self@.content_items == Some(dynamic_tool::item_views(items@)),
                        outer == detail_width(width),
                        texts.len() == i,
                        forall|given: &str, lines: usize, columns: usize| #[trigger]
                            call_requires(*cut, (given, lines, columns)),
                        forall|line: &Line, columns: usize, initial: &str, subsequent: &str|
                         #[trigger]
                            call_requires(*wrap, (line, columns, initial, subsequent)),
                        forall|j: int|
                            0 <= j < i ==> cuts_to(
                                *cut,
                                dynamic_tool::item_text(#[trigger] self@.items()[j]),
                                max_lines,
                                outer,
                                texts[j],
                            ),
                        wraps_all(
                            *wrap,
                            detail_sources(texts),
                            outer,
                            rich_text::line_views(details@),
                        ),
                {
                    let text = render_content_item(&items[i], max_lines, outer, cut);
                    let wrapped = wrap_output(text.as_str(), outer, wrap);
                    proof {
                        assert(self@.items()[i as int] == items@[i as int]@);
                        lemma_wraps_all_concat(
                            *wrap,
                            detail_sources(texts),
                            dim_lines(texts::split_on(text@, '\n')),
                            outer,
                            rich_text::line_views(details@),
                            rich_text::line_views(wrapped@),
                        );
                        assert(texts.push(text@).drop_last() =~= texts);
                        texts = texts.push(text@);
                    }
                    append_lines(&mut details, wrapped);
                }
            },
            None => {},
        }
        let lines = lay_out(
            self.success(),
            indicator,
            &invocation,
            inline,
            &wrapped_invocation,
            &details,
        );
        proof {
            assert(displays(
                self@,
                width,
                optional_span(*indicator),
                max_lines,
                *cut,
                *wrap,
                texts,
                rich_text::line_views(wrapped_invocation@),
                rich_text::line_views(details@),
                rich_text::line_views(lines@),
            ));
        }
        lines
    }

    /// The cell's lines without styling. `cut` cuts an output short to a
    /// number of lines and columns; `plain_lines` breaks it into lines.
    pub fn raw_lines<C: Fn(&str, usize, usize) -> String, R: Fn(&str) -> Vec<Line>>(
        &self,
        max_lines: usize,
        raw_width: usize,
        cut: &C,
        plain_lines: &R,
    ) -> (lines: Vec<Line>)
        requires
            forall|given: &str, lines: usize, columns: usize| #[trigger]
                call_requires(*cut, (given, lines, columns)),
            forall|given: &str| #[trigger] call_requires(*plain_lines, (given,)),
        ensures
            exists|texts: Seq<Seq<char>>, blocks: Seq<Seq<Seq<SpanView>>>| #[trigger]
                displays_raw(
                    self@,
                    max_lines,
                    raw_width,
                    *cut,
                    *plain_lines,
                    texts,
                    blocks,
                    rich_text::line_views(lines@),
                ),
    {
        let mut lines: Vec<Line> = Vec::new();
        lines.push(raw_header(self.success(), self.invocation().as_str()));
        assert(rich_text::line_views(lines@) =~= seq![raw_header_line(
            self@.success,
            self@.invocation(),
        )]);
        let ghost header = rich_text::line_views(lines@);
        let ghost mut texts: Seq<Seq<char>> = Seq::empty();
        let ghost mut blocks: Seq<Seq<Seq<SpanView>>> = Seq::empty();
        assert(header + all_lines(blocks) =~= header);
        match self.content_items() {
            Some(items) => {
                for i in 0..items.len()
                    invariant
                        self@.content_items == Some(dynamic_tool::item_views(items@)),
                        texts.len() == i,
                        blocks.len() == i,
                        forall|given: &str, lines: usize, columns: usize| #[trigger]
                            call_requires(*cut, (given, lines, columns)),
                        forall|given: &str| #[trigger] call_requires(*plain_lines, (given,)),
                        forall|j: int|
                            0 <= j < i ==> cuts_to(
                                *cut,
                                dynamic_tool::item_text(#[trigger] self@.items()[j]),
                                max_lines,
                                raw_width,
                                texts[j],
                            ),
                        forall|j: int|
                            0 <= j < i ==> breaks_to(*plain_lines, #[trigger] texts[j], blocks[j]),
                        rich_text::line_views(lines@) == header + all_lines(blocks),
                {
                    let text = render_content_item(&items[i], max_lines, raw_width, cut);
                    let block = plain_lines(text.as_str());
                    proof {
                        assert(self@.items()[i as int] == items@[i as int]@);
                        let added = rich_text::line_views(block@);
                        assert(breaks_to(*plain_lines, text@, added));
                        assert(blocks.push(added).drop_last() =~= blocks);
                        assert(header + all_lines(blocks.push(added)) =~= header + all_lines(blocks)
                            + added);
                        texts = texts.push(text@);
                        blocks = blocks.push(added);
                    }
                    append_lines(&mut lines, block);
                }
            },
            None => {},
        }
        proof {
            assert(displays_raw(
                self@,
                max_lines,
                raw_width,
                *cut,
                *plain_lines,
                texts,
                blocks,
                rich_text::line_views(lines@),
            ));
        }
        lines
    }
}

proof fn lemma_line_text_concat(a: Seq<SpanView>, b: Seq<SpanView>)
    ensures
        rich_text::line_text(a + b) == rich_text::line_text(a) + rich_text::line_text(b),
    decreases b.len(),
{
    if b.len() == 0 {
        assert(a + b =~= a);
        assert(rich_text::line_text(a) + rich_text::line_text(b) =~= rich_text::line_text(a));
    } else {
        assert((a + b).drop_last() =~= a + b.drop_last());
        lemma_line_text_concat(a, b.drop_last());
        assert(rich_text::line_text(a + b) =~= rich_text::line_text(a) + rich_text::line_text(b));
    }
}

/// A call without line feeds, shown beside its header, reads behind the bullet
/// exactly as it does without styling.
pub proof fn law_an_inline_call_reads_as_its_raw_header(
    cell: CellView,
    indicator: Option<SpanView>,
    wrapped_invocation: Seq<Seq<SpanView>>,
    details: Seq<Seq<SpanView>>,
)
    requires
        !cell.invocation().contains('\n'),
    ensures
        rich_text::line_text(
            layout(
                cell.success,
                indicator,
                dynamic_tool::invocation_spans(cell.invocation()),
                true,
                wrapped_invocation,
                details,
            )[0],
        ) == bullet_of(cell.success, indicator).content + " "@ + rich_text::line_text(
            raw_header_line(cell.success, cell.invocation()),
        ),
{
    let success = cell.success;
    let invocation = dynamic_tool::invocation_spans(cell.invocation());
    let header = compact_header(success, indicator);
    let suffix = status_suffix(success);
    dynamic_tool::law_styling_keeps_the_invocation(cell.namespace, cell.tool, cell.arguments);
    lemma_line_text_concat(header + invocation, suffix);
    lemma_line_text_concat(header, invocation);
    assert(header.drop_last().drop_last().drop_last().drop_last() =~= Seq::<SpanView>::empty());
    reveal_with_fuel(rich_text::line_text, 5);
    assert(rich_text::line_text(header) =~= bullet_of(success, indicator).content + " "@
        + header_word(success) + " "@);
    assert(rich_text::line_text(suffix) =~= raw_suffix(success)) by {
        reveal_strlit(" -> ");
        reveal_strlit("success");
        reveal_strlit("failed");
        reveal_strlit(" -> success");
        reveal_strlit(" -> failed");
        if success is Some {
            assert(suffix.drop_last().drop_last() =~= Seq::<SpanView>::empty());
        }
    }
    let raw = raw_header_line(success, cell.invocation());
    let text = raw_header_text(success, cell.invocation());
    assert(!text.contains('\n') && text.len() > 0) by {
        reveal_strlit("Called");
        reveal_strlit("Calling");
        reveal_strlit(" ");
        reveal_strlit(" -> success");
        reveal_strlit(" -> failed");
        let word = header_word(success) + " "@;
        assert forall|i: int| 0 <= i < text.len() implies #[trigger] text[i] != '\n' by {
            if word.len() <= i < word.len() + cell.invocation().len() {
                assert(text[i] == cell.invocation()[i - word.len()]);
                assert(cell.invocation().contains(cell.invocation()[i - word.len()]));
            }
        }
    }
    texts::law_a_text_without_line_feeds_is_one_line(text);
    assert(raw =~= seq![rich_text::span(text, rich_text::plain())]);
    assert(raw.drop_last() =~= Seq::<SpanView>::empty());
    assert(rich_text::line_text(raw) =~= text);
    assert(bullet_of(success, indicator).content + " "@ + rich_text::line_text(raw)
        =~= rich_text::line_text(header) + cell.invocation() + raw_suffix(success));
}

/// A cell shows one header line, the wrapped call where it does not fit beside
/// the header, and all lines of the output.
pub proof fn law_a_cell_shows_every_line(
    success: Option<bool>,
    indicator: Option<SpanView>,
    invocation: Seq<SpanView>,
    inline: bool,
    wrapped_invocation: Seq<Seq<SpanView>>,
    details: Seq<Seq<SpanView>>,
)
    ensures
        ({
            let lines = layout(success, indicator, invocation, inline, wrapped_invocation, details);
            let body = if inline {
                1
            } else {
                1 + wrapped_invocation.len()
            };
            &&& lines.len() == body + details.len()
            &&& forall|i: int|
                0 <= i < details.len() ==> (#[trigger] lines[body + i]).drop_first() == details[i]
        }),
{
    let lines = layout(success, indicator, invocation, inline, wrapped_invocation, details);
    let body = if inline {
        1
    } else {
        1 + wrapped_invocation.len()
    };
    assert forall|i: int| 0 <= i < details.len() implies (#[trigger] lines[body
        + i]).drop_first() == details[i] by {
        assert(lines[body + i].drop_first() =~= details[i]);
    }
}

/// Completing a call keeps what was called, ends the animation, and replaces
/// any earlier outcome.
pub proof fn law_completion_ends_the_animation(
    cell: CellView,
    duration: u128,
    success: bool,
    items: Seq<ContentItemView>,
    now: u64,
    later_duration: u128,
    later_success: bool,
    later_items: Seq<ContentItemView>,
)
    ensures
        cell.completed(duration, success, items).call_id == cell.call_id,
        cell.completed(duration, success, items).invocation() == cell.invocation(),
        cell.completed(duration, success, items).animation_tick(now) is None,
        header_word(cell.completed(duration, success, items).success) == "Called"@,
        cell.completed(duration, success, items).completed(
            later_duration,
            later_success,
            later_items,
        ) == cell.completed(later_duration, later_success, later_items),
{
}

} // verus!
