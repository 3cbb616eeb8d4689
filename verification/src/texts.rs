//! Texts: what optional and listed ones hold, searching and splitting them by a
//! character, and breaking them into lines.

use vstd::prelude::*;

verus! {

/// The content of an optional string.
pub open spec fn optional_text(text: Option<String>) -> Option<Seq<char>> {
    match text {
        Some(text) => Some(text@),
        None => None,
    }
}

/// The content of an optional text.
pub open spec fn optional_str(text: Option<&str>) -> Option<Seq<char>> {
    match text {
        Some(text) => Some(text@),
        None => None,
    }
}

/// The contents of some texts.
pub open spec fn text_views(texts: Seq<String>) -> Seq<Seq<char>> {
    texts.map_values(|text: String| text@)
}

/// The position of the first `c` in a text, or the text's length where it has
/// none.
pub open spec fn first_of(text: Seq<char>, c: char) -> nat
    decreases text.len(),
{
    if text.len() == 0 || text[0] == c {
        0
    } else {
        1 + first_of(text.drop_first(), c)
    }
}

/// The parts of a text between the occurrences of `c`: one more than there are
/// occurrences.
pub open spec fn split_on(text: Seq<char>, c: char) -> Seq<Seq<char>>
    decreases text.len(),
{
    let at = first_of(text, c);
    if at >= text.len() {
        seq![text]
    } else {
        seq![text.take(at as int)] + split_on(text.skip(at as int + 1), c)
    }
}

/// A line without the carriage return of its line ending.
pub open spec fn without_return(line: Seq<char>) -> Seq<char> {
    if line.len() > 0 && line.last() == '\r' {
        line.drop_last()
    } else {
        line
    }
}

/// The lines of a text. A line ends in a line feed, with or without a carriage
/// return before it; the last line need not end so, and a carriage return at
/// its end is its own.
pub open spec fn text_lines(text: Seq<char>) -> Seq<Seq<char>> {
    let parts = split_on(text, '\n');
    let ended = parts.drop_last().map_values(|line: Seq<char>| without_return(line));
    if parts.last().len() == 0 {
        ended
    } else {
        ended.push(parts.last())
    }
}

/// Parts put together with `c` between them.
pub open spec fn joined_with(parts: Seq<Seq<char>>, c: char) -> Seq<char>
    decreases parts.len(),
{
    if parts.len() == 0 {
        Seq::empty()
    } else if parts.len() == 1 {
        parts[0]
    } else {
        parts[0] + seq![c] + joined_with(parts.drop_first(), c)
    }
}

/// What [`first_of`] finds: the first occurrence and nothing before it.
pub proof fn lemma_first_of(text: Seq<char>, c: char)
    ensures
        first_of(text, c) <= text.len(),
        first_of(text, c) < text.len() ==> text[first_of(text, c) as int] == c,
        forall|i: int| 0 <= i < first_of(text, c) ==> #[trigger] text[i] != c,
    decreases text.len(),
{
    if text.len() > 0 && text[0] != c {
        let rest = text.drop_first();
        lemma_first_of(rest, c);
        assert forall|i: int| 0 <= i < first_of(text, c) implies #[trigger] text[i] != c by {
            if i > 0 {
                assert(rest[i - 1] != c);
            }
        }
    }
}

/// A position with `c` and no `c` before it is the one that [`first_of`]
/// finds; so is the length of a text without `c`.
pub proof fn lemma_is_first_of(text: Seq<char>, c: char, at: nat)
    requires
        at <= text.len(),
        at < text.len() ==> text[at as int] == c,
        forall|i: int| 0 <= i < at ==> #[trigger] text[i] != c,
    ensures
        first_of(text, c) == at,
{
    lemma_first_of(text, c);
}

/// Splitting a text loses nothing: put together again, its parts are the text.
pub proof fn law_split_parts_join_to_the_text(text: Seq<char>, c: char)
    ensures
        joined_with(split_on(text, c), c) == text,
        split_on(text, c).len() >= 1,
    decreases text.len(),
{
    lemma_first_of(text, c);
    let at = first_of(text, c);
    if at < text.len() {
        let rest = text.skip(at as int + 1);
        law_split_parts_join_to_the_text(rest, c);
        let parts = split_on(text, c);
        assert(parts.drop_first() =~= split_on(rest, c));
        assert(text =~= text.take(at as int) + seq![c] + rest);
    }
}

/// No part of a split text holds the character that it was split on.
pub proof fn law_split_parts_are_free_of_the_separator(text: Seq<char>, c: char, part: int)
    requires
        0 <= part < split_on(text, c).len(),
    ensures
        !split_on(text, c)[part].contains(c),
    decreases text.len(),
{
    lemma_first_of(text, c);
    let at = first_of(text, c);
    if at < text.len() {
        if part > 0 {
            law_split_parts_are_free_of_the_separator(text.skip(at as int + 1), c, part - 1);
        }
    }
}

/// The position of the first `c` in a text, in characters, or the text's
/// length where it has none.
pub fn find_char(text: &str, c: char) -> (at: usize)
    ensures
        at == first_of(text@, c),
{
    let length: usize = text.unicode_len();
    let mut at: usize = 0;
    for x in it: text.chars()
        invariant
            at == it.index(),
            it.seq() == text@,
            at <= length,
            length == text@.len(),
            forall|i: int| 0 <= i < at ==> #[trigger] text@[i] != c,
    {
        if x == c {
            proof {
                lemma_is_first_of(text@, c, at as nat);
            }
            return at;
        }
        at = at + 1;
    }
    proof {
        lemma_is_first_of(text@, c, at as nat);
    }
    at
}

/// The parts of a text between the occurrences of `c`.
pub fn split_text(text: &str, c: char) -> (parts: Vec<String>)
    ensures
        text_views(parts@) == split_on(text@, c),
{
    let mut parts: Vec<String> = Vec::new();
    let mut rest: String = text.to_owned();
    assert(text_views(parts@) =~= Seq::empty());
    assert(text_views(parts@) + split_on(rest@, c) =~= split_on(text@, c));
    loop
        invariant
            text_views(parts@) + split_on(rest@, c) == split_on(text@, c),
        ensures
            text_views(parts@) + seq![rest@] == split_on(text@, c),
        decreases rest@.len(),
    {
        let at = find_char(rest.as_str(), c);
        let length = rest.as_str().unicode_len();
        proof {
            lemma_first_of(rest@, c);
        }
        if at >= length {
            break;
        }
        let part = rest.as_str().substring_char(0, at).to_owned();
        let remainder = rest.as_str().substring_char(at + 1, length).to_owned();
        let ghost before = parts@;
        parts.push(part);
        assert(text_views(parts@) =~= text_views(before) + seq![part@]);
        assert(part@ =~= rest@.take(at as int));
        assert(remainder@ =~= rest@.skip(at + 1));
        assert((text_views(before) + seq![part@]) + split_on(remainder@, c) =~= text_views(before)
            + (seq![part@] + split_on(remainder@, c)));
        rest = remainder;
    }
    let ghost before = parts@;
    parts.push(rest);
    assert(text_views(parts@) =~= text_views(before) + seq![rest@]);
    parts
}

/// A text without line feeds is one line, or none where it is empty.
pub proof fn law_a_text_without_line_feeds_is_one_line(text: Seq<char>)
    requires
        !text.contains('\n'),
    ensures
        text.len() > 0 ==> text_lines(text) == seq![text],
        text.len() == 0 ==> text_lines(text) == Seq::<Seq<char>>::empty(),
{
    assert forall|i: int| 0 <= i < text.len() implies #[trigger] text[i] != '\n' by {
        assert(text.contains(text[i]));
    }
    lemma_is_first_of(text, '\n', text.len());
    assert(split_on(text, '\n') =~= seq![text]);
    if text.len() > 0 {
        assert(text_lines(text) =~= seq![text]);
    } else {
        assert(text_lines(text) =~= Seq::<Seq<char>>::empty());
    }
}

/// No line of a text holds a line feed.
pub proof fn law_lines_are_free_of_line_feeds(text: Seq<char>, line: int)
    requires
        0 <= line < text_lines(text).len(),
    ensures
        !text_lines(text)[line].contains('\n'),
{
    law_split_parts_join_to_the_text(text, '\n');
    law_split_parts_are_free_of_the_separator(text, '\n', line);
    let part = split_on(text, '\n')[line];
    let found = text_lines(text)[line];
    assert(found == part || found == without_return(part));
    assert forall|i: int| 0 <= i < found.len() implies #[trigger] found[i] != '\n' by {
        assert(found[i] == part[i]);
        assert(part.contains(part[i]));
    }
}

/// A line without the carriage return of its line ending.
fn strip_return(line: &str) -> (stripped: String)
    ensures
        stripped@ == without_return(line@),
{
    let length = line.unicode_len();
    if length > 0 && line.get_char(length - 1) == '\r' {
        let stripped = line.substring_char(0, length - 1).to_owned();
        assert(stripped@ =~= line@.drop_last());
        stripped
    } else {
        line.to_owned()
    }
}

/// The lines of a text.
pub fn break_lines(text: &str) -> (lines: Vec<String>)
    ensures
        text_views(lines@) == text_lines(text@),
{
    let parts = split_text(text, '\n');
    proof {
        law_split_parts_join_to_the_text(text@, '\n');
    }
    let ghost split = split_on(text@, '\n');
    assert(parts@.len() == split.len());
    let last: usize = parts.len() - 1;
    let mut lines: Vec<String> = Vec::new();
    for i in 0..last
        invariant
            text_views(parts@) == split,
            last == parts@.len() - 1,
            lines@.len() == i,
            forall|j: int| 0 <= j < i ==> (#[trigger] lines@[j])@ == without_return(split[j]),
    {
        assert(split[i as int] == parts@[i as int]@);
        lines.push(strip_return(parts[i].as_str()));
    }
    assert(split.last() == parts@[last as int]@);
    if parts[last].as_str().unicode_len() > 0 {
        lines.push(parts[last].clone());
    }
    assert(text_views(lines@) =~= text_lines(text@));
    lines
}

} // verus!
