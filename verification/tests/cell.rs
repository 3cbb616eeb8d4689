use mcp_session::dynamic_tool::{
    format_dynamic_tool_invocation, new_active_dynamic_tool_call, plain_dynamic_tool_invocation,
    style_invocation, write_invocation, DynamicToolCallCell, DynamicToolCallOutputContentItem,
};
use mcp_session::json::compact;
use mcp_session::rich_text::{
    bold, bold_colored, colored, dim, no_modifiers, plain, prefix_lines, Color, Line, Modifiers,
    Span, TextStyle,
};
use mcp_session::texts::{break_lines, find_char, split_text};
use mcp_session::tool_display::{fits_inline, lay_out, raw_header, render_content_item};

fn arguments() -> serde_json::Value {
    serde_json::from_str("{ \"q\": \"a (b)\", \"n\": [1, 2] }").unwrap()
}

fn cell(namespace: Option<&str>) -> DynamicToolCallCell {
    new_active_dynamic_tool_call(
        "call-1".to_string(),
        namespace.map(|namespace| namespace.to_string()),
        "search".to_string(),
        arguments(),
        1_000_000_000,
        true,
    )
}

fn item(text: &str) -> DynamicToolCallOutputContentItem {
    DynamicToolCallOutputContentItem::InputText {
        text: text.to_string(),
    }
}

fn content(line: &Line) -> String {
    line.spans.iter().map(|span| span.content.as_str()).collect()
}

fn parts(line: &Line) -> Vec<(&str, TextStyle)> {
    line.spans
        .iter()
        .map(|span| (span.content.as_str(), span.style))
        .collect()
}

fn line(text: &str) -> Line {
    Line {
        spans: vec![Span::new(text, plain())],
    }
}

fn keep(text: &str, _max_lines: usize, _width: usize) -> String {
    text.to_string()
}

/// Wraps by a fixed number of characters, so that tests can see the limits.
fn wrap(line: &Line, width: usize, initial: &str, subsequent: &str) -> Vec<Line> {
    assert_eq!(initial, "");
    assert_eq!(subsequent, "    ");
    let text: Vec<char> = content(line).chars().collect();
    if text.is_empty() {
        return vec![Line {
            spans: vec![Span::new("", line.spans[0].style)],
        }];
    }
    text.chunks(width.max(1))
        .map(|chunk| Line {
            spans: vec![Span::new(
                &chunk.iter().collect::<String>(),
                line.spans[0].style,
            )],
        })
        .collect()
}

#[test]
fn json_is_written_compactly() {
    assert_eq!(compact(&arguments()), "{\"n\":[1,2],\"q\":\"a (b)\"}");
    assert_eq!(compact(&serde_json::Value::Null), "null");
}

#[test]
fn texts_are_split_at_every_separator() {
    assert_eq!(split_text("a\nb\n\nc", '\n'), vec!["a", "b", "", "c"]);
    assert_eq!(split_text("", '\n'), vec![""]);
    assert_eq!(split_text("x\n", '\n'), vec!["x", ""]);
    assert_eq!(split_text("x\ny", '\n').join("\n"), "x\ny");
    assert_eq!(find_char("äb(c(", '('), 2);
    assert_eq!(find_char("äb", '('), 2);
}

#[test]
fn invocations_are_written_out() {
    assert_eq!(write_invocation(Some("ns"), "t", "{}"), "ns.t({})");
    assert_eq!(write_invocation(Some(""), "t", "{}"), "t({})");
    assert_eq!(write_invocation(None, "t", "{}"), "t({})");
    assert_eq!(
        plain_dynamic_tool_invocation(Some("web"), "search", &arguments()),
        "web.search({\"n\":[1,2],\"q\":\"a (b)\"})"
    );
}

#[test]
fn invocations_are_styled() {
    let line = format_dynamic_tool_invocation(Some("web"), "search", &arguments());
    assert_eq!(
        parts(&line),
        vec![
            ("web.search", colored(Color::Cyan)),
            ("(", plain()),
            ("{\"n\":[1,2],\"q\":\"a (b)\"}", dim()),
            (")", plain()),
        ]
    );
    assert_eq!(
        content(&line),
        plain_dynamic_tool_invocation(Some("web"), "search", &arguments())
    );
    // A parenthesis in the tool's name is taken for the first one.
    let odd = style_invocation("a(b({})");
    assert_eq!(
        parts(&odd),
        vec![
            ("a", colored(Color::Cyan)),
            ("(", plain()),
            ("b({}", dim()),
            (")", plain()),
        ]
    );
}

#[test]
fn items_are_shown_as_text() {
    let image = DynamicToolCallOutputContentItem::InputImage {
        image_url: "http://x/y.png".to_string(),
    };
    assert_eq!(image.text(), "image: http://x/y.png");
    assert_eq!(item("plain").text(), "plain");
    let cut = |text: &str, max_lines: usize, width: usize| format!("{max_lines}x{width}:{text}");
    assert_eq!(
        render_content_item(&image, 5, 40, &cut),
        "5x40:image: http://x/y.png"
    );
}

#[test]
fn a_call_that_fits_is_shown_beside_its_header() {
    assert!(fits_inline(10, 4, 6));
    assert!(!fits_inline(10, 4, 7));
    assert!(fits_inline(3, 4, 0));
    assert!(!fits_inline(3, 4, 1));
}

#[test]
fn a_running_call_is_laid_out() {
    let cell = cell(Some("web"));
    assert_eq!(cell.call_id(), "call-1");
    let lines = cell.display_lines(80, &None, 5, &keep, &wrap);
    assert_eq!(lines.len(), 1);
    assert_eq!(
        parts(&lines[0])[..4],
        [
            ("•", dim()),
            (" ", plain()),
            ("Calling", bold()),
            (" ", plain())
        ]
    );
    assert_eq!(
        content(&lines[0]),
        "• Calling web.search({\"n\":[1,2],\"q\":\"a (b)\"})"
    );
    let spinner = Some(Span::new("◦", plain()));
    let lines = cell.display_lines(80, &spinner, 5, &keep, &wrap);
    assert_eq!(
        content(&lines[0]),
        "◦ Calling web.search({\"n\":[1,2],\"q\":\"a (b)\"})"
    );
}

#[test]
fn a_completed_call_shows_its_output() {
    let mut cell = cell(None);
    cell.complete(5, true, vec![item("one\ntwo"), item("three")]);
    let lines = cell.display_lines(80, &None, 5, &keep, &wrap);
    let texts: Vec<String> = lines.iter().map(content).collect();
    assert_eq!(
        texts,
        vec![
            "• Called search({\"n\":[1,2],\"q\":\"a (b)\"}) -> success",
            "  └ one",
            "    two",
            "    three",
        ]
    );
    assert_eq!(parts(&lines[0])[0], ("•", bold_colored(Color::Green)));
    assert_eq!(
        parts(&lines[0])[8..],
        [(" -> ", dim()), ("success", colored(Color::Green))]
    );
    assert_eq!(parts(&lines[1]), vec![("  └ ", dim()), ("one", dim())]);
    assert_eq!(parts(&lines[2]), vec![("    ", plain()), ("two", dim())]);
}

#[test]
fn a_call_that_does_not_fit_is_wrapped_below_its_header() {
    let mut cell = cell(None);
    cell.complete(5, false, vec![item("output")]);
    // "• Called " and " -> failed" take 19 columns, the call 31.
    assert!(cell.is_inline(50, &None));
    assert!(!cell.is_inline(49, &None));
    let lines = cell.display_lines(24, &None, 5, &keep, &wrap);
    let texts: Vec<String> = lines.iter().map(content).collect();
    assert_eq!(
        texts,
        vec![
            "• Called -> failed",
            "  └ search({\"n\":[1,2],\"q",
            "    \":\"a (b)\"})",
            "    output",
        ]
    );
    assert_eq!(parts(&lines[0])[0], ("•", bold_colored(Color::Red)));
    assert_eq!(parts(&lines[1])[0], ("  └ ", dim()));
    assert_eq!(parts(&lines[3])[0], ("    ", plain()));
}

#[test]
fn wide_characters_take_two_columns() {
    let wide = Line {
        spans: vec![Span::new("日本", plain()), Span::new("ab", dim())],
    };
    assert_eq!(wide.width(), 6);
    assert_eq!(Line { spans: vec![] }.width(), 0);
}

#[test]
fn outputs_are_wrapped_at_one_column_at_least() {
    let mut cell = cell(None);
    cell.complete(5, true, vec![item("ab")]);
    let widths = |width: u16| {
        let cut = |text: &str, _: usize, width: usize| format!("{width}{text}");
        cell.display_lines(width, &None, 5, &cut, &wrap)
            .iter()
            .map(content)
            .collect::<Vec<String>>()
    };
    let narrow = widths(2);
    assert_eq!(narrow[narrow.len() - 3..], ["    1", "    a", "    b"]);
    let wider = widths(7);
    assert_eq!(wider[wider.len() - 1], "    3ab");
}

#[test]
fn raw_lines_carry_no_style() {
    let mut cell = cell(Some("web"));
    let lines_of = |text: &str| vec![line(text)];
    let running = cell.raw_lines(5, 100, &keep, &lines_of);
    assert_eq!(running.len(), 1);
    assert_eq!(
        parts(&running[0]),
        vec![(
            "Calling web.search({\"n\":[1,2],\"q\":\"a (b)\"})",
            plain()
        )]
    );
    cell.complete(5, false, vec![item("one"), item("two")]);
    let cut = |text: &str, max_lines: usize, width: usize| format!("{max_lines}x{width}:{text}");
    let done: Vec<String> = cell
        .raw_lines(5, 100, &cut, &lines_of)
        .iter()
        .map(content)
        .collect();
    assert_eq!(
        done,
        vec![
            "Called web.search({\"n\":[1,2],\"q\":\"a (b)\"}) -> failed",
            "5x100:one",
            "5x100:two",
        ]
    );
    assert_eq!(content(&raw_header(Some(true), "t({})")), "Called t({}) -> success");
}

#[test]
fn parts_are_laid_out_in_order() {
    let lines = lay_out(
        None,
        &None,
        &line("call"),
        false,
        &vec![line("w1"), line("w2")],
        &vec![line("d1"), line("d2")],
    );
    let texts: Vec<String> = lines.iter().map(content).collect();
    assert_eq!(
        texts,
        vec!["• Calling", "  └ w1", "    w2", "    d1", "    d2"]
    );
    let prefixed = prefix_lines(
        &vec![line("a"), line("b")],
        &Span::new("1", plain()),
        &Span::new("2", dim()),
    );
    assert_eq!(
        prefixed.iter().map(content).collect::<Vec<String>>(),
        vec!["1a", "2b"]
    );
}

#[test]
fn only_running_calls_are_animated() {
    let mut animated = cell(None);
    assert_eq!(animated.transcript_animation_tick(1_000_000_000), Some(0));
    assert_eq!(animated.transcript_animation_tick(1_049_999_999), Some(0));
    assert_eq!(animated.transcript_animation_tick(1_050_000_000), Some(1));
    assert_eq!(animated.transcript_animation_tick(2_000_000_000), Some(20));
    // A clock that went back counts as no time.
    assert_eq!(animated.transcript_animation_tick(5), Some(0));
    animated.complete(1, true, vec![]);
    assert_eq!(animated.transcript_animation_tick(2_000_000_000), None);
    assert_eq!(animated.success(), Some(true));
    assert_eq!(animated.duration(), Some(1));
    assert_eq!(animated.start_time(), 1_000_000_000);
    assert!(animated.animations_enabled());
    assert_eq!(animated.content_items().map(|items| items.len()), Some(0));

    let still = DynamicToolCallCell::new(
        "call-2".to_string(),
        None,
        "t".to_string(),
        serde_json::Value::Null,
        0,
        false,
    );
    assert_eq!(still.transcript_animation_tick(2_000_000_000), None);
}

#[test]
fn texts_are_broken_into_lines() {
    assert_eq!(break_lines(""), Vec::<String>::new());
    assert_eq!(break_lines("\n"), vec![""]);
    assert_eq!(break_lines("a"), vec!["a"]);
    assert_eq!(break_lines("a\n"), vec!["a"]);
    assert_eq!(break_lines("a\r\nb\r\r\n\nc\r"), vec!["a", "b\r", "", "c\r"]);
    for text in ["", "\n", "x\r\n\r\ny", "\r", "é\n\n", "a\rb\nc"] {
        assert_eq!(break_lines(text), text.lines().collect::<Vec<&str>>());
    }
}

#[test]
fn a_raw_header_has_a_span_for_each_line() {
    let header = raw_header(Some(true), "a\nb\r\nc({})");
    assert_eq!(
        parts(&header),
        vec![
            ("Called a", plain()),
            ("b", plain()),
            ("c({}) -> success", plain())
        ]
    );
    let shown = ratatui::text::Line::from("Called a\nb\r\nc({}) -> success".to_string());
    let contents: Vec<String> = shown
        .spans
        .iter()
        .map(|span| span.content.to_string())
        .collect();
    assert_eq!(
        contents,
        header
            .spans
            .iter()
            .map(|span| span.content.clone())
            .collect::<Vec<String>>()
    );

    let cell = new_active_dynamic_tool_call(
        "call-1".to_string(),
        None,
        "two\nlines".to_string(),
        serde_json::Value::Null,
        0,
        false,
    );
    let lines = cell.raw_lines(5, 100, &keep, &|text: &str| vec![line(text)]);
    assert_eq!(lines.len(), 1);
    assert_eq!(
        parts(&lines[0]),
        vec![("Calling two", plain()), ("lines(null)", plain())]
    );
}

#[test]
fn any_style_can_mark_a_running_call() {
    let style = TextStyle {
        color: Some(Color::Rgb(1, 2, 3)),
        background: Some(Color::Indexed(7)),
        underline: Some(Color::LightMagenta),
        added: Modifiers {
            italic: true,
            ..no_modifiers()
        },
        removed: Modifiers {
            bold: true,
            ..no_modifiers()
        },
    };
    let indicator = Some(Span::new("*", style));
    let mut cell = cell(None);
    let lines = cell.display_lines(80, &indicator, 5, &keep, &wrap);
    assert_eq!(parts(&lines[0])[0], ("*", style));
    assert_eq!(parts(&lines[0])[2], ("Calling", bold()));
    cell.complete(5, false, vec![]);
    let lines = cell.display_lines(80, &indicator, 5, &keep, &wrap);
    assert_eq!(
        parts(&lines[0])[0],
        ("•", bold_colored(Color::Red))
    );
    assert_eq!(parts(&lines[0])[2], ("Called", bold()));
    assert_eq!(
        parts(&lines[0]).pop(),
        Some(("failed", colored(Color::Red)))
    );
}

#[test]
fn equal_completed_calls_look_the_same() {
    let complete = |call_id: &str, start: u64, duration: u128| {
        let mut cell = new_active_dynamic_tool_call(
            call_id.to_string(),
            Some("web".to_string()),
            "search".to_string(),
            arguments(),
            start,
            start == 0,
        );
        cell.complete(duration, true, vec![item("one\ntwo")]);
        cell
    };
    let busy = Some(Span::new("busy", dim()));
    let first = complete("call-1", 0, 1);
    let second = complete("call-2", 9, 2);
    for width in [2, 30, 200] {
        let shown = first.display_lines(width, &None, 5, &keep, &wrap);
        let other = second.display_lines(width, &busy, 5, &keep, &wrap);
        assert_eq!(
            shown.iter().map(parts).collect::<Vec<_>>(),
            other.iter().map(parts).collect::<Vec<_>>()
        );
    }
}

#[test]
fn an_image_is_shown_as_its_address() {
    let image = DynamicToolCallOutputContentItem::InputImage {
        image_url: "http://x/y.png".to_string(),
    };
    assert_eq!(
        render_content_item(&image, 3, 9, &keep),
        render_content_item(&item("image: http://x/y.png"), 3, 9, &keep)
    );
}
