//! JSON values, as `serde_json` holds, reads and writes them.
//!
//! A [`serde_json::Value`] is opaque here. Contracts speak of its compact
//! text, [`json_text`], which determines everything that the accessors below
//! can tell about the value.

use vstd::prelude::*;

verus! {

#[verifier::external_type_specification]
#[verifier::external_body]
pub struct ExJsonValue(serde_json::Value);

#[verifier::external_type_specification]
#[verifier::external_body]
pub struct ExJsonError(serde_json::Error);

/// What a JSON value holds, written as compact JSON text: no whitespace
/// outside strings, and the members of an object in the order of their keys.
pub uninterp spec fn json_text(value: serde_json::Value) -> Seq<char>;

/// What `serde_json::from_str` makes of a text: the compact text of the value
/// that it reads, or the message of the error that it reports.
pub uninterp spec fn parsed_text(text: Seq<char>) -> Result<Seq<char>, Seq<char>>;

/// What `Value::get` finds under a string key in the value with this text.
pub uninterp spec fn member_text(value: Seq<char>, key: Seq<char>) -> Option<Seq<char>>;

/// What `Value::as_str` returns for the value with this text.
pub uninterp spec fn string_content(value: Seq<char>) -> Option<Seq<char>>;

/// What `Value::as_u64` returns for the value with this text.
pub uninterp spec fn unsigned_content(value: Seq<char>) -> Option<u64>;

/// The compact text of the object that collects these members, each a key and
/// the compact text of its value.
pub uninterp spec fn object_text(members: Seq<(Seq<char>, Seq<char>)>) -> Seq<char>;

/// The decimal digits of a number.
pub open spec fn decimal_digits(n: nat) -> Seq<char>
    decreases n,
{
    if n < 10 {
        seq![('0' as int + n) as char]
    } else {
        decimal_digits(n / 10).push(('0' as int + n % 10) as char)
    }
}

/// A hexadecimal digit.
pub open spec fn hex_digit(digit: int) -> char {
    if digit < 10 {
        ('0' as int + digit) as char
    } else {
        ('a' as int + digit - 10) as char
    }
}

/// How a character is written inside a JSON string.
pub open spec fn escaped(c: char) -> Seq<char> {
    let code = c as int;
    if c == '"' || c == '\\' {
        seq!['\\', c]
    } else if code == 8 {
        seq!['\\', 'b']
    } else if code == 9 {
        seq!['\\', 't']
    } else if code == 10 {
        seq!['\\', 'n']
    } else if code == 12 {
        seq!['\\', 'f']
    } else if code == 13 {
        seq!['\\', 'r']
    } else if code < 32 {
        seq!['\\', 'u', '0', '0', hex_digit(code / 16), hex_digit(code % 16)]
    } else {
        seq![c]
    }
}

/// How some characters are written inside a JSON string.
pub open spec fn escaped_all(content: Seq<char>) -> Seq<char>
    decreases content.len(),
{
    if content.len() == 0 {
        Seq::empty()
    } else {
        escaped_all(content.drop_last()) + escaped(content.last())
    }
}

/// The compact text of the JSON string with this content.
pub open spec fn string_text(content: Seq<char>) -> Seq<char> {
    seq!['"'] + escaped_all(content) + seq!['"']
}

/// Object members as keys and compact texts.
pub open spec fn member_texts(members: Seq<(String, serde_json::Value)>) -> Seq<
    (Seq<char>, Seq<char>),
> {
    members.map_values(|m: (String, serde_json::Value)| (m.0@, json_text(m.1)))
}

/// `serde_json::from_str` at type `Value`, with its error as the message that
/// the error displays: the text alone decides whether it is parsed, what the
/// value holds, and what the message says.
#[verifier::external_body]
pub(crate) fn parse(text: &str) -> (result: Result<serde_json::Value, String>)
    ensures
        match result {
            Ok(value) => parsed_text(text@) == Ok::<Seq<char>, Seq<char>>(json_text(value)),
            Err(message) => parsed_text(text@) == Err::<Seq<char>, Seq<char>>(message@),
        },
{
    serde_json::from_str::<serde_json::Value>(text).map_err(|error| error.to_string())
}

/// `serde_json::to_string` of a value: on success, the compact text.
#[verifier::external_body]
pub(crate) fn serialize(value: &serde_json::Value) -> (result: Result<String, serde_json::Error>)
    ensures
        result matches Ok(text) ==> text@ == json_text(*value),
{
    serde_json::to_string(value)
}

/// The `Display` impl of `serde_json::Value`, through `to_string`: the compact
/// text.
#[verifier::external_body]
pub(crate) fn display(value: &serde_json::Value) -> (text: String)
    ensures
        text@ == json_text(*value),
{
    value.to_string()
}

/// `serde_json::Value::get` with a string key: the member of an object, and
/// `None` for a missing key or a value that is no object.
#[verifier::external_body]
pub(crate) fn member<'a>(value: &'a serde_json::Value, key: &str) -> (found: Option<
    &'a serde_json::Value,
>)
    ensures
        match found {
            Some(inner) => member_text(json_text(*value), key@) == Some(json_text(*inner)),
            None => member_text(json_text(*value), key@) is None,
        },
{
    value.get(key)
}

/// `serde_json::Value::as_str`: the content of a string, and `None` for any
/// other value.
#[verifier::external_body]
pub(crate) fn as_str(value: &serde_json::Value) -> (content: Option<&str>)
    ensures
        match content {
            Some(text) => string_content(json_text(*value)) == Some(text@),
            None => string_content(json_text(*value)) is None,
        },
{
    value.as_str()
}

/// `serde_json::Value::as_u64`: the value of a number written as an integer
/// that fits, and `None` for any other value.
#[verifier::external_body]
pub(crate) fn as_u64(value: &serde_json::Value) -> (content: Option<u64>)
    ensures
        content == unsigned_content(json_text(*value)),
{
    value.as_u64()
}

/// `Value::from` a `&str`: a JSON string, which is written with its content
/// escaped and reads back unchanged.
#[verifier::external_body]
pub(crate) fn string(content: &str) -> (value: serde_json::Value)
    ensures
        json_text(value) == string_text(content@),
        string_content(json_text(value)) == Some(content@),
{
    serde_json::Value::from(content)
}

/// `Value::from` a `bool`: the JSON literal.
#[verifier::external_body]
pub(crate) fn boolean(b: bool) -> (value: serde_json::Value)
    ensures
        json_text(value) == if b {
            "true"@
        } else {
            "false"@
        },
{
    serde_json::Value::from(b)
}

/// `Value::from` a `u64`: the decimal number, which reads back unchanged.
#[verifier::external_body]
pub(crate) fn unsigned(n: u64) -> (value: serde_json::Value)
    ensures
        json_text(value) == decimal_digits(n as nat),
        unsigned_content(json_text(value)) == Some(n),
{
    serde_json::Value::from(n)
}

/// `Value::from_iter` over pairs: the object with exactly these members.
#[verifier::external_body]
pub(crate) fn object(members: Vec<(String, serde_json::Value)>) -> (value: serde_json::Value)
    requires
        forall|i: int, j: int|
            0 <= i < j < members@.len() ==> #[trigger] members@[i].0@ != #[trigger] members@[j].0@,
    ensures
        json_text(value) == object_text(member_texts(members@)),
        forall|i: int|
            0 <= i < members@.len() ==> #[trigger] member_text(
                json_text(value),
                members@[i].0@,
            ) == Some(json_text(members@[i].1)),
        forall|key: Seq<char>|
            (forall|i: int| 0 <= i < members@.len() ==> #[trigger] members@[i].0@ != key)
                ==> #[trigger] member_text(json_text(value), key) is None,
{
    members.into_iter().collect()
}

/// The compact text of a value.
pub fn compact(value: &serde_json::Value) -> (text: String)
    ensures
        text@ == json_text(*value),
{
    match serialize(value) {
        Ok(text) => text,
        Err(_) => display(value),
    }
}

} // verus!
