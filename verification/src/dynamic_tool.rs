//! Dynamic tool-call history cells.
//!
//! A cell shows one call of a dynamic tool: what is called with which
//! arguments, whether it succeeded, and what it returned. Wrapping lines and
//! cutting long outputs short is left to functions that the caller hands in.

use crate::json;
use crate::rich_text::{colored, dim, plain};
use crate::rich_text::{Color, Line, Span, SpanView};
use crate::rich_text;
use crate::texts::find_char;
use crate::texts;
use vstd::prelude::*;

verus! {

/// One item of a tool's output.
#[derive(Debug)]
pub enum DynamicToolCallOutputContentItem {
    InputText { text: String },
    InputImage { image_url: String },
}

/// The mathematical counterpart of [`DynamicToolCallOutputContentItem`].
pub enum ContentItemView {
    InputText { text: Seq<char> },
    InputImage { image_url: Seq<char> },
}

impl View for DynamicToolCallOutputContentItem {
    type V = ContentItemView;

    open spec fn view(&self) -> ContentItemView {
        match *self {
            DynamicToolCallOutputContentItem::InputText { text } => ContentItemView::InputText {
                text: text@,
            },
            DynamicToolCallOutputContentItem::InputImage { image_url } =>
                ContentItemView::InputImage { image_url: image_url@ },
        }
    }
}

/// Items as their mathematical counterparts.
pub open spec fn item_views(items: Seq<DynamicToolCallOutputContentItem>) -> Seq<ContentItemView> {
    items.map_values(|item: DynamicToolCallOutputContentItem| item@)
}

/// The text that an item is shown as, before it is cut short.
pub open spec fn item_text(item: ContentItemView) -> Seq<char> {
    match item {
        ContentItemView::InputText { text } => text,
        ContentItemView::InputImage { image_url } => "image: "@ + image_url,
    }
}

impl DynamicToolCallOutputContentItem {
    /// The text that the item is shown as, before it is cut short.
    pub fn text(&self) -> (text: String)
        ensures
            text@ == item_text(self@),
    {
        match self {
            DynamicToolCallOutputContentItem::InputText { text } => text.clone(),
            DynamicToolCallOutputContentItem::InputImage { image_url } => {
                let mut text = "image: ".to_owned();
                text.append(image_url.as_str());
                text
            },
        }
    }
}

/// A call of a dynamic tool, as it is shown in the history. Times are in
/// nanoseconds.
#[derive(Debug)]
pub struct DynamicToolCallCell {
    call_id: String,
    namespace: Option<String>,
    tool: String,
    arguments: serde_json::Value,
    start_time: u64,
    duration: Option<u128>,
    success: Option<bool>,
    content_items: Option<Vec<DynamicToolCallOutputContentItem>>,
    animations_enabled: bool,
}

/// The mathematical counterpart of [`DynamicToolCallCell`].
pub struct CellView {
    pub call_id: Seq<char>,
    pub namespace: Option<Seq<char>>,
    pub tool: Seq<char>,
    /// The arguments as compact JSON text.
    pub arguments: Seq<char>,
    pub start_time: u64,
    pub duration: Option<u128>,
    pub success: Option<bool>,
    pub content_items: Option<Seq<ContentItemView>>,
    pub animations_enabled: bool,
}

impl View for DynamicToolCallCell {
    type V = CellView;

    closed spec fn view(&self) -> CellView {
        CellView {
            call_id: self.call_id@,
            namespace: texts::optional_text(self.namespace),
            tool: self.tool@,
            arguments: json::json_text(self.arguments),
            start_time: self.start_time,
            duration: self.duration,
            success: self.success,
            content_items: match self.content_items {
                Some(items) => Some(item_views(items@)),
                None => None,
            },
            animations_enabled: self.animations_enabled,
        }
    }
}

/// A call written out: the tool, qualified by its namespace where that is not
/// empty, and the arguments in parentheses.
pub open spec fn invocation_text(
    namespace: Option<Seq<char>>,
    tool: Seq<char>,
    arguments: Seq<char>,
) -> Seq<char> {
    if namespace is Some && namespace->0.len() > 0 {
        namespace->0 + "."@ + tool + "("@ + arguments + ")"@
    } else {
        tool + "("@ + arguments + ")"@
    }
}

/// A call written out, with the arguments given as text.
pub fn write_invocation(namespace: Option<&str>, tool: &str, arguments: &str) -> (text: String)
    ensures
        text@ == invocation_text(texts::optional_str(namespace), tool@, arguments@),
{
    let mut text = String::new();
    if let Some(namespace) = namespace {
        if !namespace.is_empty() {
            text.append(namespace);
            text.append(".");
            assert(text@ =~= namespace@ + "."@);
            text.append(tool);
            text.append("(");
            text.append(arguments);
            text.append(")");
            return text;
        }
    }
    text.append(tool);
    assert(text@ =~= tool@);
    text.append("(");
    text.append(arguments);
    text.append(")");
    text
}

/// A call written out.
pub fn plain_dynamic_tool_invocation(
    namespace: Option<&str>,
    tool: &str,
    arguments: &serde_json::Value,
) -> (text: String)
    ensures
        text@ == invocation_text(texts::optional_str(namespace), tool@, json::json_text(*arguments)),
{
    let arguments = json::compact(arguments);
    write_invocation(namespace, tool, arguments.as_str())
}

/// A written-out call as a line: what stands before the first opening
/// parenthesis in cyan, what stands between it and the final character dim.
pub open spec fn invocation_spans(text: Seq<char>) -> Seq<SpanView> {
    let at = texts::first_of(text, '(') as int;
    seq![
        rich_text::span(text.take(at), rich_text::colored(Color::Cyan)),
        rich_text::span("("@, rich_text::plain()),
        rich_text::span(text.subrange(at + 1, text.len() - 1), rich_text::dim()),
        rich_text::span(")"@, rich_text::plain()),
    ]
}

proof fn lemma_invocation_shape(
    namespace: Option<Seq<char>>,
    tool: Seq<char>,
    arguments: Seq<char>,
)
    ensures
        texts::first_of(invocation_text(namespace, tool, arguments), '(') + 1
            <= invocation_text(namespace, tool, arguments).len() - 1,
        invocation_text(namespace, tool, arguments).last() == ')',
{
    reveal_strlit("(");
    reveal_strlit(")");
    reveal_strlit(".");
    let text = invocation_text(namespace, tool, arguments);
    let at = text.len() - arguments.len() - 2;
    assert(text[at] == '(');
    texts::lemma_first_of(text, '(');
}

/// Styles a written-out call.
pub fn style_invocation(text: &str) -> (line: Line)
    requires
        texts::first_of(text@, '(') + 1 <= text@.len() - 1,
    ensures
        line@ == invocation_spans(text@),
{
    let at = find_char(text, '(');
    let length = text.unicode_len();
    let mut spans: Vec<Span> = Vec::new();
    spans.push(Span::new(text.substring_char(0, at), colored(Color::Cyan)));
    spans.push(Span::new("(", plain()));
    spans.push(Span::new(text.substring_char(at + 1, length - 1), dim()));
    spans.push(Span::new(")", plain()));
    assert(text@.subrange(0, at as int) =~= text@.take(at as int));
    let line = Line { spans };
    assert(line@ =~= invocation_spans(text@));
    line
}

/// A call as a line.
pub fn format_dynamic_tool_invocation(
    namespace: Option<&str>,
    tool: &str,
    arguments: &serde_json::Value,
) -> (line: Line)
    ensures
        line@ == invocation_spans(
            invocation_text(texts::optional_str(namespace), tool@, json::json_text(*arguments)),
        ),
{
    let invocation = plain_dynamic_tool_invocation(namespace, tool, arguments);
    proof {
        lemma_invocation_shape(texts::optional_str(namespace), tool@, json::json_text(*arguments));
    }
    style_invocation(invocation.as_str())
}

/// The styled call reads as the call written out: styling changes no text.
pub proof fn law_styling_keeps_the_invocation(
    namespace: Option<Seq<char>>,
    tool: Seq<char>,
    arguments: Seq<char>,
)
    ensures
        rich_text::line_text(invocation_spans(invocation_text(namespace, tool, arguments)))
            == invocation_text(namespace, tool, arguments),
{
    reveal_strlit("(");
    reveal_strlit(")");
    let text = invocation_text(namespace, tool, arguments);
    lemma_invocation_shape(namespace, tool, arguments);
    texts::lemma_first_of(text, '(');
    let spans = invocation_spans(text);
    assert(spans.drop_last().drop_last().drop_last().drop_last() =~= Seq::<SpanView>::empty());
    reveal_with_fuel(rich_text::line_text, 5);
    let at = texts::first_of(text, '(') as int;
    assert(rich_text::line_text(spans) =~= text.take(at) + "("@ + text.subrange(
        at + 1,
        text.len() - 1,
    ) + ")"@);
    assert(text =~= text.take(at) + "("@ + text.subrange(at + 1, text.len() - 1) + ")"@);
}

impl CellView {
    /// A cell of a call that has just started.
    pub open spec fn started(
        call_id: Seq<char>,
        namespace: Option<Seq<char>>,
        tool: Seq<char>,
        arguments: Seq<char>,
        start_time: u64,
        animations_enabled: bool,
    ) -> CellView {
        CellView {
            call_id,
            namespace,
            tool,
            arguments,
            start_time,
            duration: None,
            success: None,
            content_items: None,
            animations_enabled,
        }
    }

    /// The cell of the call after it came to an end.
    pub open spec fn completed(
        self,
        duration: u128,
        success: bool,
        items: Seq<ContentItemView>,
    ) -> CellView {
        CellView {
            duration: Some(duration),
            success: Some(success),
            content_items: Some(items),
            ..self
        }
    }

    /// The call written out.
    pub open spec fn invocation(self) -> Seq<char> {
        invocation_text(self.namespace, self.tool, self.arguments)
    }

    /// The output so far.
    pub open spec fn items(self) -> Seq<ContentItemView> {
        match self.content_items {
            Some(items) => items,
            None => Seq::empty(),
        }
    }

    /// The animation frame at this time: one every fifty milliseconds, as long
    /// as the call runs and animations are on.
    pub open spec fn animation_tick(self, now: u64) -> Option<u64> {
        if !self.animations_enabled || self.success is Some {
            None
        } else {
            let elapsed = if now > self.start_time {
                now - self.start_time
            } else {
                0
            };
            Some((elapsed / 1_000_000 / 50) as u64)
        }
    }
}

impl DynamicToolCallCell {
    /// A cell of a call that starts at this time.
    pub fn new(
        call_id: String,
        namespace: Option<String>,
        tool: String,
        arguments: serde_json::Value,
        start_time: u64,
        animations_enabled: bool,
    ) -> (cell: Self)
        ensures
            cell@ == CellView::started(
                call_id@,
                texts::optional_text(namespace),
                tool@,
                json::json_text(arguments),
                start_time,
                animations_enabled,
            ),
    {
        DynamicToolCallCell {
            call_id,
            namespace,
            tool,
            arguments,
            start_time,
            duration: None,
            success: None,
            content_items: None,
            animations_enabled,
        }
    }

    /// The call's id.
    pub fn call_id(&self) -> (call_id: &str)
        ensures
            call_id@ == self@.call_id,
    {
        self.call_id.as_str()
    }

    /// Records how the call came to an end.
    pub fn complete(
        &mut self,
        duration: u128,
        success: bool,
        content_items: Vec<DynamicToolCallOutputContentItem>,
    )
        ensures
            final(self)@ == old(self)@.completed(duration, success, item_views(content_items@)),
    {
        self.duration = Some(duration);
        self.success = Some(success);
        self.content_items = Some(content_items);
    }

    /// The animation frame at this time.
    pub fn transcript_animation_tick(&self, now: u64) -> (tick: Option<u64>)
        ensures
            tick == self@.animation_tick(now),
    {
        if !self.animations_enabled || self.success.is_some() {
            return None;
        }
        Some(now.saturating_sub(self.start_time) / 1_000_000 / 50)
    }

    /// When the call started.
    pub fn start_time(&self) -> (start_time: u64)
        ensures
            start_time == self@.start_time,
    {
        self.start_time
    }

    /// How long the call took, once it came to an end.
    pub fn duration(&self) -> (duration: Option<u128>)
        ensures
            duration == self@.duration,
    {
        self.duration
    }

    /// Whether a running call is animated.
    pub fn animations_enabled(&self) -> (enabled: bool)
        ensures
            enabled == self@.animations_enabled,
    {
        self.animations_enabled
    }

    /// Whether the call succeeded, once it came to an end.
    pub fn success(&self) -> (success: Option<bool>)
        ensures
            success == self@.success,
    {
        self.success
    }

    /// The call's output, once there is one.
    pub fn content_items(&self) -> (items: Option<&Vec<DynamicToolCallOutputContentItem>>)
        ensures
            match items {
                Some(items) => self@.content_items == Some(item_views(items@)),
                None => self@.content_items is None,
            },
    {
        self.content_items.as_ref()
    }

    fn namespace_str(&self) -> (namespace: Option<&str>)
        ensures
            texts::optional_str(namespace) == self@.namespace,
    {
        match &self.namespace {
            Some(namespace) => Some(namespace.as_str()),
            None => None,
        }
    }

    /// The call written out.
    pub fn invocation(&self) -> (text: String)
        ensures
            text@ == self@.invocation(),
    {
        plain_dynamic_tool_invocation(self.namespace_str(), self.tool.as_str(), &self.arguments)
    }

    /// The call as a line.
    pub fn invocation_line(&self) -> (line: Line)
        ensures
            line@ == invocation_spans(self@.invocation()),
    {
        format_dynamic_tool_invocation(self.namespace_str(), self.tool.as_str(), &self.arguments)
    }
}

/// A cell of a call that starts at this time.
pub fn new_active_dynamic_tool_call(
    call_id: String,
    namespace: Option<String>,
    tool: String,
    arguments: serde_json::Value,
    start_time: u64,
    animations_enabled: bool,
) -> (cell: DynamicToolCallCell)
    ensures
        cell@ == CellView::started(
            call_id@,
            texts::optional_text(namespace),
            tool@,
            json::json_text(arguments),
            start_time,
            animations_enabled,
        ),
{
    DynamicToolCallCell::new(call_id, namespace, tool, arguments, start_time, animations_enabled)
}

} // verus!
