//! The two things the crate asks of `serde_json`: to read one text member out
//! of a JSON document, and to write a text as a JSON string literal.

use crate::text::{digit_char, optional_text};
use vstd::prelude::*;

verus! {

/// The text that the JSON document `document` holds under `key`: `Some` when
/// `serde_json` reads `document` as a JSON object with a member `key` that is
/// a string, `None` in every other case.
pub uninterp spec fn json_text_member(document: Seq<char>, key: Seq<char>) -> Option<Seq<char>>;

/// The character that stands for the hexadecimal digit `d`, in lower case.
pub open spec fn hex_digit(d: nat) -> char {
    if d < 10 {
        digit_char(d)
    } else if d == 10 {
        'a'
    } else if d == 11 {
        'b'
    } else if d == 12 {
        'c'
    } else if d == 13 {
        'd'
    } else if d == 14 {
        'e'
    } else {
        'f'
    }
}

/// How the character `c` is written inside a JSON string: the double quote
/// and the backslash after a backslash; backspace, tab, line feed, form feed
/// and carriage return by their letter after a backslash; any other character
/// below the space as `\u00` and its two hexadecimal digits; every other
/// character as it is.
pub open spec fn json_escaped(c: char) -> Seq<char> {
    if c == '"' {
        seq!['\\', '"']
    } else if c == '\\' {
        seq!['\\', '\\']
    } else if c == '\u{8}' {
        seq!['\\', 'b']
    } else if c == '\t' {
        seq!['\\', 't']
    } else if c == '\n' {
        seq!['\\', 'n']
    } else if c == '\u{c}' {
        seq!['\\', 'f']
    } else if c == '\r' {
        seq!['\\', 'r']
    } else if (c as u32) < 0x20 {
        seq!['\\', 'u', '0', '0', hex_digit((c as nat) / 16), hex_digit((c as nat) % 16)]
    } else {
        seq![c]
    }
}

/// The characters of `text`, each as it is written inside a JSON string.
pub open spec fn json_escaped_text(text: Seq<char>) -> Seq<char>
    decreases text.len(),
{
    if text.len() == 0 {
        Seq::<char>::empty()
    } else {
        json_escaped(text[0]) + json_escaped_text(text.drop_first())
    }
}

/// The JSON string literal for `text`: its characters, escaped where JSON
/// asks for it, between double quotes.
pub open spec fn json_string_literal(text: Seq<char>) -> Seq<char> {
    seq!['"'] + json_escaped_text(text) + seq!['"']
}

/// Parses `document` with `serde_json::from_str` into a `serde_json::Value` and
/// reads the member `key` with `serde_json::Value::get`. Trusted: the result is
/// the member's text where parsing succeeds and the member is a JSON string,
/// and `None` otherwise; it depends on the two arguments alone.
#[verifier::external_body]
pub(crate) fn text_member(document: &str, key: &str) -> (member: Option<String>)
    ensures
        optional_text(member) == json_text_member(document@, key@),
{
    match serde_json::from_str::<serde_json::Value>(document) {
        Ok(value) => match value.get(key) {
            Some(serde_json::Value::String(text)) => Some(text.clone()),
            _ => None,
        },
        Err(_) => None,
    }
}

/// Writes `text` as `serde_json` prints a `serde_json::Value::String`. Trusted:
/// the result is `text` between double quotes, with the double quote, the
/// backslash and the characters below the space escaped as `json_escaped` says
/// and every other character unchanged.
#[verifier::external_body]
pub(crate) fn string_literal(text: &str) -> (literal: String)
    ensures
        literal@ == json_string_literal(text@),
{
    serde_json::Value::String(text.to_owned()).to_string()
}

} // verus!
