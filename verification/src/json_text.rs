//! The written form of texts in JSON.

use crate::thread_id::hex_char;
use vstd::prelude::*;

verus! {

/// A character inside a JSON string: quotes, backslashes and control characters are escaped,
/// and everything else stands for itself.
pub open spec fn json_char(c: char) -> Seq<char> {
    if c == '"' {
        seq!['\\', '"']
    } else if c == '\\' {
        seq!['\\', '\\']
    } else if c == '\u{8}' {
        seq!['\\', 'b']
    } else if c == '\t' {
        seq!['\\', 't']
    } else if c == '\n' {
        seq!['\\', 'n']
    } else if c == '\u{c}' {
        seq!['\\', 'f']
    } else if c == '\r' {
        seq!['\\', 'r']
    } else if (c as u32) < 0x20 {
        seq!['\\', 'u', '0', '0', hex_char(c as int / 16), hex_char(c as int % 16)]
    } else {
        seq![c]
    }
}

/// The characters of a text inside a JSON string.
pub open spec fn json_chars(s: Seq<char>) -> Seq<char>
    decreases s.len(),
{
    if s.len() == 0 {
        Seq::empty()
    } else {
        json_chars(s.drop_last()) + json_char(s.last())
    }
}

/// A text as a JSON string.
pub open spec fn json_quoted(s: Seq<char>) -> Seq<char> {
    seq!['"'] + json_chars(s) + seq!['"']
}

/// A text as a JSON string, by `serde_json::to_string`.
///
/// Claimed of it: the text stands between quotes, each quote, backslash and control character
/// below U+0020 escaped in its shortest form, and every other character as it is. It does not
/// fail on a text.
#[verifier::external_body]
pub(crate) fn json_string(text: &str) -> (result: String)
    ensures
        result@ == json_quoted(text@),
{
    match serde_json::to_string(text) {
        Ok(quoted) => quoted,
        Err(error) => error.to_string(),
    }
}

} // verus!
