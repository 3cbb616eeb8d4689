//! What holds of every cell that is shown: its header tells how the call went,
//! and a completed call looks the same wherever and whenever it is shown.

use crate::dynamic_tool;
use crate::dynamic_tool::{CellView, ContentItemView};
use crate::rich_text;
use crate::rich_text::{Color, Line, SpanView};
use crate::tool_display;
use vstd::prelude::*;

verus! {

/// Whether `cut` returns one text for each text and limits.
pub open spec fn cut_is_a_function<C: Fn(&str, usize, usize) -> String>(cut: C) -> bool {
    forall|text: Seq<char>, max_lines: usize, width: usize, a: Seq<char>, b: Seq<char>|
        #[trigger] tool_display::cuts_to(cut, text, max_lines, width, a)
            && #[trigger] tool_display::cuts_to(cut, text, max_lines, width, b) ==> a == b
}

/// Whether `wrap` returns the same lines whenever it wraps the same line at the
/// same width.
pub open spec fn wrap_is_a_function<W: Fn(&Line, usize, &str, &str) -> Vec<Line>>(wrap: W) -> bool {
    forall|line: Seq<SpanView>, width: usize, a: Seq<Seq<SpanView>>, b: Seq<Seq<SpanView>>|
        #[trigger] tool_display::wraps_to(wrap, line, width, a)
            && #[trigger] tool_display::wraps_to(wrap, line, width, b) ==> a == b
}

/// Whether an indicator could be taken for the bullet of a call that came to an
/// end.
pub open spec fn looks_completed(indicator: Option<SpanView>) -> bool {
    indicator is Some && (indicator->0.style == rich_text::bold_colored(Color::Green)
        || indicator->0.style == rich_text::bold_colored(Color::Red))
}

/// The header of a cell tells how the call went. It says "Called" once the call
/// came to an end and "Calling" before; its bullet is bold green if and only if
/// the call succeeded, bold red if and only if it failed; and it ends in a green
/// "success" or a red "failed" behind an arrow on the same terms. The bullet of
/// a running call is the activity indicator, or a dim bullet without one; so
/// what is said of the bullet's style leaves out a running call whose indicator
/// is itself a bold green or bold red one.
pub proof fn law_the_header_tells_the_outcome<
    C: Fn(&str, usize, usize) -> String,
    W: Fn(&Line, usize, &str, &str) -> Vec<Line>,
>(
    cell: CellView,
    width: u16,
    indicator: Option<SpanView>,
    max_lines: usize,
    cut: C,
    wrap: W,
    texts: Seq<Seq<char>>,
    wrapped_invocation: Seq<Seq<SpanView>>,
    details: Seq<Seq<SpanView>>,
    lines: Seq<Seq<SpanView>>,
)
    requires
        tool_display::displays(
            cell,
            width,
            indicator,
            max_lines,
            cut,
            wrap,
            texts,
            wrapped_invocation,
            details,
            lines,
        ),
    ensures
        lines.len() >= 1,
        lines[0].len() >= 3,
        lines[0][2].style == rich_text::bold(),
        lines[0][2].content == "Called"@ <==> cell.success is Some,
        lines[0][2].content == "Calling"@ <==> cell.success is None,
        cell.success is None ==> lines[0][0] == match indicator {
            Some(indicator) => indicator,
            None => rich_text::span("•"@, rich_text::dim()),
        },
        cell.success is Some || !looks_completed(indicator) ==> (lines[0][0].style
            == rich_text::bold_colored(Color::Green) <==> cell.success == Some(true)),
        cell.success is Some || !looks_completed(indicator) ==> (lines[0][0].style
            == rich_text::bold_colored(Color::Red) <==> cell.success == Some(false)),
        cell.success is Some ==> lines[0][lines[0].len() - 2] == rich_text::span(
            " -> "@,
            rich_text::dim(),
        ),
        lines[0].last() == rich_text::span("success"@, rich_text::colored(Color::Green))
            <==> cell.success == Some(true),
        lines[0].last() == rich_text::span("failed"@, rich_text::colored(Color::Red))
            <==> cell.success == Some(false),
{
    reveal_strlit("Called");
    reveal_strlit("Calling");
    assert("Called"@.len() != "Calling"@.len());
    let inline = tool_display::is_inline(cell, width, indicator);
    let bare = tool_display::bare_header(cell.success, indicator);
    let suffix = tool_display::status_suffix(cell.success);
    assert(lines[0][0] == bare[0]);
    assert(lines[0][2] == bare[2]);
    if cell.success is Some {
        assert(lines[0].last() == suffix[1]);
        assert(lines[0][lines[0].len() - 2] == suffix[0]);
    } else if inline {
        assert(lines[0].last().style == rich_text::plain());
    } else {
        assert(lines[0].last().style == rich_text::bold());
    }
}

proof fn lemma_cuts_agree<C: Fn(&str, usize, usize) -> String>(
    cut: C,
    items: Seq<ContentItemView>,
    max_lines: usize,
    width: usize,
    a: Seq<Seq<char>>,
    b: Seq<Seq<char>>,
)
    requires
        cut_is_a_function(cut),
        tool_display::cuts_all(cut, items, max_lines, width, a),
        tool_display::cuts_all(cut, items, max_lines, width, b),
    ensures
        a == b,
{
    assert forall|i: int| 0 <= i < items.len() implies a[i] == b[i] by {
        let text = dynamic_tool::item_text(items[i]);
        assert(tool_display::cuts_to(cut, text, max_lines, width, a[i]));
        assert(tool_display::cuts_to(cut, text, max_lines, width, b[i]));
    }
    assert(a =~= b);
}

proof fn lemma_wraps_agree<W: Fn(&Line, usize, &str, &str) -> Vec<Line>>(
    wrap: W,
    sources: Seq<Seq<SpanView>>,
    width: usize,
    a: Seq<Seq<SpanView>>,
    b: Seq<Seq<SpanView>>,
)
    requires
        wrap_is_a_function(wrap),
        tool_display::wraps_all(wrap, sources, width, a),
        tool_display::wraps_all(wrap, sources, width, b),
    ensures
        a == b,
{
    let blocks_a = choose|blocks: Seq<Seq<Seq<SpanView>>>|
        blocks.len() == sources.len() && a == #[trigger] tool_display::all_lines(blocks) && (forall|
            i: int,
        |
            0 <= i < sources.len() ==> tool_display::wraps_to(
                wrap,
                #[trigger] sources[i],
                width,
                blocks[i],
            ));
    let blocks_b = choose|blocks: Seq<Seq<Seq<SpanView>>>|
        blocks.len() == sources.len() && b == #[trigger] tool_display::all_lines(blocks) && (forall|
            i: int,
        |
            0 <= i < sources.len() ==> tool_display::wraps_to(
                wrap,
                #[trigger] sources[i],
                width,
                blocks[i],
            ));
    assert forall|i: int| 0 <= i < sources.len() implies blocks_a[i] == blocks_b[i] by {
        assert(tool_display::wraps_to(wrap, sources[i], width, blocks_a[i]));
        assert(tool_display::wraps_to(wrap, sources[i], width, blocks_b[i]));
    }
    assert(blocks_a =~= blocks_b);
}

/// How a completed call may look depends on nothing but its tool, arguments,
/// outcome and output: whatever cutting and wrapping do, another call with the
/// same ones may look exactly the same, whatever the ids, times and indicators.
pub proof fn law_a_completed_call_looks_by_its_content<
    C: Fn(&str, usize, usize) -> String,
    W: Fn(&Line, usize, &str, &str) -> Vec<Line>,
>(
    cell: CellView,
    other: CellView,
    width: u16,
    indicator: Option<SpanView>,
    other_indicator: Option<SpanView>,
    max_lines: usize,
    cut: C,
    wrap: W,
    texts: Seq<Seq<char>>,
    wrapped_invocation: Seq<Seq<SpanView>>,
    details: Seq<Seq<SpanView>>,
    lines: Seq<Seq<SpanView>>,
)
    requires
        cell.success is Some,
        other.namespace == cell.namespace,
        other.tool == cell.tool,
        other.arguments == cell.arguments,
        other.success == cell.success,
        other.content_items == cell.content_items,
    ensures
        tool_display::displays(
            cell,
            width,
            indicator,
            max_lines,
            cut,
            wrap,
            texts,
            wrapped_invocation,
            details,
            lines,
        ) == tool_display::displays(
            other,
            width,
            other_indicator,
            max_lines,
            cut,
            wrap,
            texts,
            wrapped_invocation,
            details,
            lines,
        ),
{
}

/// Two completed calls with the same tool, arguments, outcome and output look
/// the same, whatever their ids, times and indicators, provided that cutting
/// and wrapping depend on nothing but what is cut and wrapped.
pub proof fn law_equal_completed_calls_look_the_same<
    C: Fn(&str, usize, usize) -> String,
    W: Fn(&Line, usize, &str, &str) -> Vec<Line>,
>(
    cell: CellView,
    other: CellView,
    width: u16,
    indicator: Option<SpanView>,
    other_indicator: Option<SpanView>,
    max_lines: usize,
    cut: C,
    wrap: W,
    texts: Seq<Seq<char>>,
    other_texts: Seq<Seq<char>>,
    wrapped_invocation: Seq<Seq<SpanView>>,
    other_wrapped_invocation: Seq<Seq<SpanView>>,
    details: Seq<Seq<SpanView>>,
    other_details: Seq<Seq<SpanView>>,
    lines: Seq<Seq<SpanView>>,
    other_lines: Seq<Seq<SpanView>>,
)
    requires
        cut_is_a_function(cut),
        wrap_is_a_function(wrap),
        cell.success is Some,
        other.namespace == cell.namespace,
        other.tool == cell.tool,
        other.arguments == cell.arguments,
        other.success == cell.success,
        other.content_items == cell.content_items,
        tool_display::displays(
            cell,
            width,
            indicator,
            max_lines,
            cut,
            wrap,
            texts,
            wrapped_invocation,
            details,
            lines,
        ),
        tool_display::displays(
            other,
            width,
            other_indicator,
            max_lines,
            cut,
            wrap,
            other_texts,
            other_wrapped_invocation,
            other_details,
            other_lines,
        ),
    ensures
        lines == other_lines,
{
    let columns = tool_display::detail_width(width);
    lemma_cuts_agree(cut, cell.items(), max_lines, columns, texts, other_texts);
    lemma_wraps_agree(
        wrap,
        tool_display::detail_sources(texts),
        columns,
        details,
        other_details,
    );
}

/// An image is cut as the text "image: " and its address would be: whatever
/// cutting does, the one may come out as the other may.
pub proof fn law_an_image_is_cut_as_text<C: Fn(&str, usize, usize) -> String>(
    cut: C,
    image_url: Seq<char>,
    max_lines: usize,
    width: usize,
    out: Seq<char>,
)
    ensures
        tool_display::cuts_to(
            cut,
            dynamic_tool::item_text((ContentItemView::InputImage { image_url })),
            max_lines,
            width,
            out,
        ) == tool_display::cuts_to(cut, "image: "@ + image_url, max_lines, width, out),
        tool_display::cuts_to(
            cut,
            dynamic_tool::item_text((ContentItemView::InputText { text: "image: "@ + image_url })),
            max_lines,
            width,
            out,
        ) == tool_display::cuts_to(cut, "image: "@ + image_url, max_lines, width, out),
{
}

/// An image is shown as the text "image: " and its address would be, provided
/// that cutting depends on nothing but what is cut.
pub proof fn law_an_image_is_shown_as_text<C: Fn(&str, usize, usize) -> String>(
    cut: C,
    image_url: Seq<char>,
    max_lines: usize,
    width: usize,
    image: Seq<char>,
    text: Seq<char>,
)
    requires
        cut_is_a_function(cut),
        tool_display::cuts_to(
            cut,
            dynamic_tool::item_text((ContentItemView::InputImage { image_url })),
            max_lines,
            width,
            image,
        ),
        tool_display::cuts_to(
            cut,
            dynamic_tool::item_text((ContentItemView::InputText { text: "image: "@ + image_url })),
            max_lines,
            width,
            text,
        ),
    ensures
        image == text,
{
}

} // verus!
