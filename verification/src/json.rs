//! The stored form of an attempt's strategy tags: a JSON array of strings,
//! as `serde_json` writes it.
use vstd::prelude::*;
use crate::hashing::hex_digit;

verus! {

/// How `serde_json` writes one character inside a string: quote and
/// backslash are escaped, the named control characters get their short
/// escapes, the other control characters below 0x20 get `\u00XX`, and every
/// other character is written as it is.
pub open spec fn json_escape_char(c: char) -> Seq<char> {
    let u = c as u32;
    if c == '"' {
        seq!['\\', '"']
    } else if c == '\\' {
        seq!['\\', '\\']
    } else if u == 0x08 {
        seq!['\\', 'b']
    } else if u == 0x09 {
        seq!['\\', 't']
    } else if u == 0x0A {
        seq!['\\', 'n']
    } else if u == 0x0C {
        seq!['\\', 'f']
    } else if u == 0x0D {
        seq!['\\', 'r']
    } else if u < 0x20 {
        seq!['\\', 'u', '0', '0', hex_digit(u as int / 16), hex_digit(u as int % 16)]
    } else {
        seq![c]
    }
}

/// The escaped body of a JSON string.
pub open spec fn json_escape(s: Seq<char>) -> Seq<char>
    decreases s.len(),
{
    if s.len() == 0 {
        Seq::empty()
    } else {
        json_escape_char(s[0]) + json_escape(s.drop_first())
    }
}

/// A JSON string literal.
pub open spec fn json_string(s: Seq<char>) -> Seq<char> {
    seq!['"'] + json_escape(s) + seq!['"']
}

/// The string literals of `items`, separated by commas.
pub open spec fn json_items(items: Seq<Seq<char>>) -> Seq<char>
    decreases items.len(),
{
    if items.len() == 0 {
        Seq::empty()
    } else if items.len() == 1 {
        json_string(items[0])
    } else {
        json_items(items.drop_last()) + seq![','] + json_string(items.last())
    }
}

/// A compact JSON array of strings.
pub open spec fn json_string_array(items: Seq<Seq<char>>) -> Seq<char> {
    seq!['['] + json_items(items) + seq![']']
}

/// The text of each string of a vector.
pub open spec fn texts_view(items: Seq<String>) -> Seq<Seq<char>> {
    items.map_values(|s: String| s@)
}

/// The text of an optional string.
pub open spec fn text_view(s: Option<String>) -> Option<Seq<char>> {
    match s {
        Some(t) => Some(t@),
        None => None,
    }
}

/// Writes a vector of strings as compact JSON with `serde_json::to_string`.
/// Trusted: serialising a `Vec<String>` does not fail, and the text is the
/// array as `json_string_array` spells it (the crate's compact formatter and
/// its escape table).
#[verifier::external_body]
fn to_json_string_array(items: &Vec<String>) -> (text: Option<String>)
    ensures
        text_view(text) == Some(json_string_array(texts_view(items@))),
{
    serde_json::to_string(items).ok()
}

/// The stored form of an attempt's strategy tags: their JSON array, or `[]`
/// should the encoder fail.
pub fn strategies_json(strategies: &Vec<String>) -> (text: String)
    ensures
        text@ == json_string_array(texts_view(strategies@)),
{
    match to_json_string_array(strategies) {
        Some(t) => t,
        None => "[]".to_owned(),
    }
}

} // verus!
