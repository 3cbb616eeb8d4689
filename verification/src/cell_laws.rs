//! What the cell of a dynamic tool call holds and shows, in terms of the call,
//! its outcome and the width.

use crate::dynamic_tool;
use crate::dynamic_tool::{CellView, ContentItemView};
use crate::rich_text;
use crate::rich_text::{Color, Line, SpanView};
use crate::text_laws;
use crate::texts;
use crate::tool_display;
use vstd::prelude::*;

verus! {

/// A new cell holds what it was given and neither outcome, duration nor output;
/// a completed one holds the outcome, the duration and the output that it was
/// given last, and everything else as before.
pub proof fn law_a_cell_holds_what_it_was_given(
    call_id: Seq<char>,
    namespace: Option<Seq<char>>,
    tool: Seq<char>,
    arguments: Seq<char>,
    start_time: u64,
    animations_enabled: bool,
    cell: CellView,
    duration: u128,
    success: bool,
    items: Seq<ContentItemView>,
)
    ensures
        ({
            let new = CellView::started(
                call_id,
                namespace,
                tool,
                arguments,
                start_time,
                animations_enabled,
            );
            &&& new.call_id == call_id
            &&& new.namespace == namespace
            &&& new.tool == tool
            &&& new.arguments == arguments
            &&& new.start_time == start_time
            &&& new.animations_enabled == animations_enabled
            &&& new.duration is None
            &&& new.success is None
            &&& new.content_items is None
            &&& new.items().len() == 0
        }),
        ({
            let done = cell.completed(duration, success, items);
            &&& done.duration == Some(duration)
            &&& done.success == Some(success)
            &&& done.content_items == Some(items)
            &&& done.items() == items
            &&& done.call_id == cell.call_id
            &&& done.namespace == cell.namespace
            &&& done.tool == cell.tool
            &&& done.arguments == cell.arguments
            &&& done.start_time == cell.start_time
            &&& done.animations_enabled == cell.animations_enabled
        }),
{
}

/// A call is written out as its tool and its arguments in parentheses, behind
/// its namespace and a point where it has one that is not empty.
pub proof fn law_a_call_is_written_out(
    namespace: Seq<char>,
    tool: Seq<char>,
    arguments: Seq<char>,
    cell: CellView,
)
    ensures
        dynamic_tool::invocation_text(None, tool, arguments) == tool + seq!['('] + arguments + seq![
            ')',
        ],
        namespace.len() == 0 ==> dynamic_tool::invocation_text(Some(namespace), tool, arguments)
            == tool + seq!['('] + arguments + seq![')'],
        namespace.len() > 0 ==> dynamic_tool::invocation_text(Some(namespace), tool, arguments)
            == namespace + seq!['.'] + tool + seq!['('] + arguments + seq![')'],
        cell.invocation() == dynamic_tool::invocation_text(
            cell.namespace,
            cell.tool,
            cell.arguments,
        ),
{
    reveal_strlit("(");
    reveal_strlit(")");
    reveal_strlit(".");
    assert("("@ =~= seq!['(']);
    assert(")"@ =~= seq![')']);
    assert("."@ =~= seq!['.']);
}

/// A styled call has four spans: what stands before the first parenthesis in
/// cyan, that parenthesis, what stands behind it dim, and the final parenthesis.
pub proof fn law_a_call_is_styled_in_four_spans(before: Seq<char>, inside: Seq<char>)
    requires
        !before.contains('('),
    ensures
        dynamic_tool::invocation_spans(before + seq!['('] + inside + seq![')']) == seq![
            rich_text::span(before, rich_text::colored(Color::Cyan)),
            rich_text::span("("@, rich_text::plain()),
            rich_text::span(inside, rich_text::dim()),
            rich_text::span(")"@, rich_text::plain()),
        ],
{
    let text = before + seq!['('] + inside + seq![')'];
    text_laws::law_splitting_goes_part_by_part(before, inside + seq![')'], '(');
    assert(text =~= before + seq!['('] + (inside + seq![')']));
    assert(text.take(before.len() as int) =~= before);
    assert(text.subrange(before.len() as int + 1, text.len() - 1) =~= inside);
}

/// An item is shown as its text, and an image as "image: " and its address.
pub proof fn law_an_item_is_shown_as_its_text(text: Seq<char>)
    ensures
        dynamic_tool::item_text((ContentItemView::InputText { text })) == text,
        dynamic_tool::item_text((ContentItemView::InputImage { image_url: text })) == "image: "@
            + text,
{
}

/// A call is animated if and only if it runs and animations are on. Its frame
/// counts the whole spans of fifty milliseconds since it started, and is the
/// first one as long as the clock is not past the start.
pub proof fn law_a_frame_takes_fifty_milliseconds(cell: CellView, now: u64)
    ensures
        cell.animation_tick(now) is Some <==> cell.animations_enabled && cell.success is None,
        cell.animation_tick(now) matches Some(frame) ==> {
            &&& now <= cell.start_time ==> frame == 0
            &&& now > cell.start_time ==> frame * 50_000_000 <= now - cell.start_time < (frame + 1)
                * 50_000_000
        },
{
}

/// A call fits beside what the line reserves if both together take no more than
/// the width, or if the call itself takes no column at all.
pub proof fn law_fitting_is_a_matter_of_the_sum(width: u16, reserved: nat, invocation: nat)
    ensures
        tool_display::fits(width, reserved, invocation) <==> reserved + invocation <= width
            || invocation == 0,
{
}

/// What is set in takes four columns less than the terminal has, and outputs get
/// at least one column.
pub proof fn law_four_columns_are_set_in(width: u16)
    ensures
        width <= 4 ==> tool_display::inner_width(width) == 0,
        width >= 4 ==> tool_display::inner_width(width) == width - 4,
        width <= 5 ==> tool_display::detail_width(width) == 1,
        width >= 5 ==> tool_display::detail_width(width) == width - 4,
{
}

/// The lines of a call, laid out from its parts. The first line starts with the
/// bullet, a space and the word; a call beside it and the status follow, or the
/// status alone. Below it come the wrapped call, where it is not beside the
/// header, and the output, all set in, with a corner before the first of them.
pub proof fn law_parts_are_laid_out_in_order(
    success: Option<bool>,
    indicator: Option<SpanView>,
    invocation: Seq<SpanView>,
    inline: bool,
    wrapped: Seq<Seq<SpanView>>,
    details: Seq<Seq<SpanView>>,
    i: int,
)
    ensures
        ({
            let lines = tool_display::layout(
                success,
                indicator,
                invocation,
                inline,
                wrapped,
                details,
            );
            let space = rich_text::span(" "@, rich_text::plain());
            let indent = rich_text::span("    "@, rich_text::plain());
            let corner = rich_text::span("  └ "@, rich_text::dim());
            let head = seq![lines[0][0], lines[0][1], lines[0][2]];
            let tail = match success {
                Some(true) => seq![
                    rich_text::span(" -> "@, rich_text::dim()),
                    rich_text::span("success"@, rich_text::colored(Color::Green)),
                ],
                Some(false) => seq![
                    rich_text::span(" -> "@, rich_text::dim()),
                    rich_text::span("failed"@, rich_text::colored(Color::Red)),
                ],
                None => Seq::<SpanView>::empty(),
            };
            &&& lines[0].len() >= 3
            &&& success == Some(true) ==> lines[0][0] == rich_text::span(
                "•"@,
                rich_text::bold_colored(Color::Green),
            )
            &&& success == Some(false) ==> lines[0][0] == rich_text::span(
                "•"@,
                rich_text::bold_colored(Color::Red),
            )
            &&& success is None && indicator is Some ==> lines[0][0] == indicator->0
            &&& success is None && indicator is None ==> lines[0][0] == rich_text::span(
                "•"@,
                rich_text::dim(),
            )
            &&& lines[0][1] == space
            &&& success is Some ==> lines[0][2] == rich_text::span("Called"@, rich_text::bold())
            &&& success is None ==> lines[0][2] == rich_text::span("Calling"@, rich_text::bold())
            &&& inline ==> {
                &&& lines[0] == head + seq![space] + invocation + tail
                &&& lines.len() == 1 + details.len()
                &&& 0 <= i < details.len() ==> lines[1 + i] == seq![if i == 0 {
                    corner
                } else {
                    indent
                }] + details[i]
            }
            &&& !inline ==> {
                &&& lines[0] == head + tail
                &&& lines.len() == 1 + wrapped.len() + details.len()
                &&& 0 <= i < wrapped.len() ==> lines[1 + i] == seq![if i == 0 {
                    corner
                } else {
                    indent
                }] + wrapped[i]
                &&& 0 <= i < details.len() ==> lines[1 + wrapped.len() + i] == seq![indent]
                    + details[i]
            }
        }),
{
    let lines = tool_display::layout(success, indicator, invocation, inline, wrapped, details);
    let space = rich_text::span(" "@, rich_text::plain());
    let head = seq![lines[0][0], lines[0][1], lines[0][2]];
    let tail = tool_display::status_suffix(success);
    if inline {
        assert(lines[0] =~= head + seq![space] + invocation + tail);
    } else {
        assert(lines[0] =~= head + tail);
    }
}

/// A call stands beside its header if and only if it fits: then bullet, word,
/// call and status together take at most the width; and whenever they do, the
/// call stands there. (A call that takes no column at all stands there too,
/// however narrow the terminal.) Otherwise the call is wrapped below, set in by
/// four columns, and the first line has bullet, word and status alone.
pub proof fn law_a_call_stands_beside_its_header_if_it_fits<
    C: Fn(&str, usize, usize) -> String,
    W: Fn(&Line, usize, &str, &str) -> Vec<Line>,
>(
    cell: CellView,
    width: u16,
    indicator: Option<SpanView>,
    max_lines: usize,
    cut: C,
    wrap: W,
    texts: Seq<Seq<char>>,
    wrapped: Seq<Seq<SpanView>>,
    details: Seq<Seq<SpanView>>,
    lines: Seq<Seq<SpanView>>,
)
    requires
        tool_display::displays(
            cell,
            width,
            indicator,
            max_lines,
            cut,
            wrap,
            texts,
            wrapped,
            details,
            lines,
        ),
    ensures
        ({
            let space = rich_text::span(" "@, rich_text::plain());
            let head = seq![lines[0][0], lines[0][1], lines[0][2]];
            let call = dynamic_tool::invocation_spans(cell.invocation());
            let tail = match cell.success {
                Some(true) => seq![
                    rich_text::span(" -> "@, rich_text::dim()),
                    rich_text::span("success"@, rich_text::colored(Color::Green)),
                ],
                Some(false) => seq![
                    rich_text::span(" -> "@, rich_text::dim()),
                    rich_text::span("failed"@, rich_text::colored(Color::Red)),
                ],
                None => Seq::<SpanView>::empty(),
            };
            let whole = head + seq![space] + call + tail;
            let beside = tool_display::is_inline(cell, width, indicator);
            &&& lines.len() >= 1
            &&& beside <==> rich_text::line_width(whole) <= width || rich_text::line_width(call)
                == 0
            &&& beside ==> lines[0] == whole && lines.len() == 1 + details.len()
            &&& beside ==> rich_text::line_width(lines[0]) <= width || rich_text::line_width(call)
                == 0
            &&& !beside ==> lines[0] == head + tail && lines.len() == 1 + wrapped.len()
                + details.len()
            &&& !beside ==> rich_text::line_width(lines[0]) + rich_text::text_width(" "@)
                + rich_text::line_width(call) > width
            &&& !beside ==> exists|given: &Line, columns: usize, first: &str, others: &str, out: Vec<
                Line,
            >| #[trigger]
                call_ensures(wrap, (given, columns, first, others), out) && given@ == call
                    && columns == (if width >= 4 {
                    width - 4
                } else {
                    0
                }) && first@ == ""@ && others@ == "    "@ && rich_text::line_views(out@) == wrapped
        }),
{
    let space = rich_text::span(" "@, rich_text::plain());
    let call = dynamic_tool::invocation_spans(cell.invocation());
    let beside = tool_display::is_inline(cell, width, indicator);
    law_parts_are_laid_out_in_order(cell.success, indicator, call, beside, wrapped, details, 0);
    let head = seq![lines[0][0], lines[0][1], lines[0][2]];
    let tail = tool_display::status_suffix(cell.success);
    let compact = tool_display::compact_header(cell.success, indicator);
    assert(compact =~= head + seq![space]);
    text_laws::law_a_line_is_the_sum_of_its_spans(compact + call, tail, space, 0);
    text_laws::law_a_line_is_the_sum_of_its_spans(compact, call, space, 0);
    text_laws::law_a_line_is_the_sum_of_its_spans(head, seq![space], space, 0);
    text_laws::law_a_line_is_the_sum_of_its_spans(head, tail, space, 0);
    law_fitting_is_a_matter_of_the_sum(
        width,
        rich_text::line_width(compact) + rich_text::line_width(tail),
        rich_text::line_width(call),
    );
    if !beside {
        let columns = tool_display::inner_width(width);
        let (given, first, others, out) = choose|
            given: &Line,
            first: &str,
            others: &str,
            out: Vec<Line>,
        | #[trigger]
            call_ensures(wrap, (given, columns, first, others), out) && given@ == call && first@
                == ""@ && others@ == "    "@ && rich_text::line_views(out@) == wrapped;
        assert(call_ensures(wrap, (given, columns, first, others), out));
    }
}

/// Every item of the output is cut, to the lines that were asked for and to four
/// columns less than the width, but at least one; what comes of it is the text
/// that is shown.
pub proof fn law_every_item_is_cut<C: Fn(&str, usize, usize) -> String>(
    cut: C,
    items: Seq<ContentItemView>,
    max_lines: usize,
    width: usize,
    texts: Seq<Seq<char>>,
    i: int,
)
    requires
        tool_display::cuts_all(cut, items, max_lines, width, texts),
        0 <= i < items.len(),
    ensures
        texts.len() == items.len(),
        exists|given: &str, out: String| #[trigger]
            call_ensures(cut, (given, max_lines, width), out) && given@ == dynamic_tool::item_text(
                items[i],
            ) && out@ == texts[i],
{
    assert(tool_display::cuts_to(
        cut,
        dynamic_tool::item_text(items[i]),
        max_lines,
        width,
        texts[i],
    ));
}

/// The lines to wrap for some outputs are one dim span for each part between the
/// line feeds of each output, in order.
pub proof fn law_outputs_are_wrapped_line_by_line(
    outputs: Seq<Seq<char>>,
    output: Seq<char>,
    part: Seq<char>,
    rest: Seq<char>,
    parts: Seq<Seq<char>>,
    i: int,
)
    requires
        !part.contains('\n'),
    ensures
        tool_display::detail_sources(Seq::empty()).len() == 0,
        tool_display::detail_sources(outputs.push(output)) == tool_display::detail_sources(outputs)
            + tool_display::dim_lines(texts::split_on(output, '\n')),
        tool_display::dim_lines(texts::split_on(part, '\n')) == seq![
            seq![rich_text::span(part, rich_text::dim())],
        ],
        tool_display::dim_lines(texts::split_on(part + seq!['\n'] + rest, '\n')) == seq![
            seq![rich_text::span(part, rich_text::dim())],
        ] + tool_display::dim_lines(texts::split_on(rest, '\n')),
        tool_display::dim_lines(parts).len() == parts.len(),
        0 <= i < parts.len() ==> tool_display::dim_lines(parts)[i] == seq![
            rich_text::span(parts[i], rich_text::dim()),
        ],
{
    assert(outputs.push(output).drop_last() =~= outputs);
    text_laws::law_splitting_goes_part_by_part(part, rest, '\n');
    assert(tool_display::dim_lines(texts::split_on(part, '\n')) =~= seq![
        seq![rich_text::span(part, rich_text::dim())],
    ]);
    assert(tool_display::dim_lines(texts::split_on(part + seq!['\n'] + rest, '\n')) =~= seq![
        seq![rich_text::span(part, rich_text::dim())],
    ] + tool_display::dim_lines(texts::split_on(rest, '\n')));
}

/// Blocks of lines follow one another: no line is lost, added or moved.
pub proof fn law_blocks_follow_one_another(
    blocks: Seq<Seq<Seq<SpanView>>>,
    block: Seq<Seq<SpanView>>,
)
    ensures
        tool_display::all_lines(Seq::empty()).len() == 0,
        tool_display::all_lines(blocks.push(block)) == tool_display::all_lines(blocks) + block,
{
    assert(blocks.push(block).drop_last() =~= blocks);
}

/// The wrapped lines of some sources are, source by source, what wrapping gave
/// for it at the width, with no indent for the first line and four spaces for
/// the others.
pub proof fn law_sources_are_wrapped_in_order<W: Fn(&Line, usize, &str, &str) -> Vec<Line>>(
    wrap: W,
    sources: Seq<Seq<SpanView>>,
    width: usize,
    lines: Seq<Seq<SpanView>>,
) -> (blocks: Seq<Seq<Seq<SpanView>>>)
    requires
        tool_display::wraps_all(wrap, sources, width, lines),
    ensures
        blocks.len() == sources.len(),
        lines == tool_display::all_lines(blocks),
        forall|i: int|
            0 <= i < sources.len() ==> exists|given: &Line, first: &str, others: &str, out: Vec<
                Line,
            >| #[trigger]
                call_ensures(wrap, (given, width, first, others), out) && given@ == sources[i]
                    && first@ == ""@ && others@ == "    "@ && rich_text::line_views(out@)
                    == #[trigger] blocks[i],
{
    let blocks = choose|blocks: Seq<Seq<Seq<SpanView>>>|
        blocks.len() == sources.len() && lines == #[trigger] tool_display::all_lines(blocks) && (
        forall|i: int|
            0 <= i < sources.len() ==> tool_display::wraps_to(
                wrap,
                #[trigger] sources[i],
                width,
                blocks[i],
            ));
    assert forall|i: int| 0 <= i < sources.len() implies exists|
        given: &Line,
        first: &str,
        others: &str,
        out: Vec<Line>,
    | #[trigger]
        call_ensures(wrap, (given, width, first, others), out) && given@ == sources[i] && first@
            == ""@ && others@ == "    "@ && rich_text::line_views(out@) == #[trigger] blocks[i] by {
        assert(tool_display::wraps_to(wrap, sources[i], width, blocks[i]));
    }
    blocks
}

/// The output below a call is all of it: every item, cut to the lines that were
/// asked for, is wrapped line by line at four columns less than the width, but
/// at least one.
pub proof fn law_the_whole_output_is_shown<
    C: Fn(&str, usize, usize) -> String,
    W: Fn(&Line, usize, &str, &str) -> Vec<Line>,
>(
    cell: CellView,
    width: u16,
    indicator: Option<SpanView>,
    max_lines: usize,
    cut: C,
    wrap: W,
    texts: Seq<Seq<char>>,
    wrapped: Seq<Seq<SpanView>>,
    details: Seq<Seq<SpanView>>,
    lines: Seq<Seq<SpanView>>,
)
    requires
        tool_display::displays(
            cell,
            width,
            indicator,
            max_lines,
            cut,
            wrap,
            texts,
            wrapped,
            details,
            lines,
        ),
    ensures
        ({
            let columns: usize = if width >= 5 {
                (width - 4) as usize
            } else {
                1
            };
            &&& cell.content_items is None ==> texts.len() == 0
            &&& cell.content_items matches Some(items) ==> tool_display::cuts_all(
                cut,
                items,
                max_lines,
                columns,
                texts,
            )
            &&& tool_display::wraps_all(wrap, tool_display::detail_sources(texts), columns, details)
            &&& lines == tool_display::layout(
                cell.success,
                indicator,
                dynamic_tool::invocation_spans(cell.invocation()),
                tool_display::is_inline(cell, width, indicator),
                wrapped,
                details,
            )
            &&& lines.len() >= details.len()
            &&& forall|i: int|
                0 <= i < details.len() ==> (#[trigger] lines[lines.len() - details.len()
                    + i]).drop_first() == details[i]
        }),
{
    let invocation = dynamic_tool::invocation_spans(cell.invocation());
    let beside = tool_display::is_inline(cell, width, indicator);
    tool_display::law_a_cell_shows_every_line(
        cell.success,
        indicator,
        invocation,
        beside,
        wrapped,
        details,
    );
    let body = if beside {
        1
    } else {
        1 + wrapped.len()
    };
    assert forall|i: int| 0 <= i < details.len() implies (#[trigger] lines[lines.len()
        - details.len() + i]).drop_first() == details[i] by {
        assert(lines[body + i].drop_first() == details[i]);
    }
}

/// Without styling, a call's header reads as the word, the call and the status,
/// and is one line with a plain span for each line of that text. The blocks of
/// the output follow it, one for each item, cut to the lines and columns that
/// were asked for.
pub proof fn law_raw_lines_hold_header_and_output<
    C: Fn(&str, usize, usize) -> String,
    R: Fn(&str) -> Vec<Line>,
>(
    cell: CellView,
    max_lines: usize,
    raw_width: usize,
    cut: C,
    plain_lines: R,
    outputs: Seq<Seq<char>>,
    blocks: Seq<Seq<Seq<SpanView>>>,
    lines: Seq<Seq<SpanView>>,
    i: int,
)
    requires
        tool_display::displays_raw(
            cell,
            max_lines,
            raw_width,
            cut,
            plain_lines,
            outputs,
            blocks,
            lines,
        ),
    ensures
        ({
            let word = if cell.success is Some {
                "Called "@
            } else {
                "Calling "@
            };
            let status = match cell.success {
                Some(true) => " -> success"@,
                Some(false) => " -> failed"@,
                None => Seq::empty(),
            };
            let header = texts::text_lines(word + cell.invocation() + status);
            &&& lines.len() >= 1
            &&& lines[0].len() == header.len()
            &&& 0 <= i < header.len() ==> lines[0][i] == rich_text::span(
                header[i],
                rich_text::plain(),
            )
            &&& lines.drop_first() == tool_display::all_lines(blocks)
            &&& blocks.len() == outputs.len()
            &&& cell.content_items is None ==> outputs.len() == 0
            &&& cell.content_items matches Some(items) ==> tool_display::cuts_all(
                cut,
                items,
                max_lines,
                raw_width,
                outputs,
            )
            &&& 0 <= i < outputs.len() ==> exists|given: &str, out: Vec<Line>| #[trigger]
                call_ensures(plain_lines, (given,), out) && given@ == outputs[i]
                    && rich_text::line_views(out@) == blocks[i]
        }),
{
    reveal_strlit("Called");
    reveal_strlit("Calling");
    reveal_strlit("Called ");
    reveal_strlit("Calling ");
    reveal_strlit(" ");
    assert("Called"@ + " "@ =~= "Called "@);
    assert("Calling"@ + " "@ =~= "Calling "@);
    let header = tool_display::raw_header_line(cell.success, cell.invocation());
    assert(lines[0] == header);
    assert(lines.drop_first() =~= tool_display::all_lines(blocks));
    if 0 <= i < outputs.len() {
        assert(tool_display::breaks_to(plain_lines, outputs[i], blocks[i]));
    }
}

} // verus!
