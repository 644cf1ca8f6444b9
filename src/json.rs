//! JSON string literals as serde_json writes them, and members of JSON objects as
//! serde_json reads them.
use vstd::prelude::*;

verus! {

/// Lower-case hexadecimal digit of `v` (below 16).
pub open spec fn hex_digit(v: u32) -> char {
    if v < 10 {
        (v + 48) as char
    } else {
        (v + 87) as char
    }
}

/// How one character appears inside a JSON string literal: quote and backslash are
/// escaped, control characters take a short escape or `\u00xx`, all others stand as
/// they are.
pub open spec fn escaped(c: char) -> Seq<char> {
    if c == '"' {
        seq!['\\', '"']
    } else if c == '\\' {
        seq!['\\', '\\']
    } else if c == '\x08' {
        seq!['\\', 'b']
    } else if c == '\x0c' {
        seq!['\\', 'f']
    } else if c == '\n' {
        seq!['\\', 'n']
    } else if c == '\r' {
        seq!['\\', 'r']
    } else if c == '\t' {
        seq!['\\', 't']
    } else if (c as u32) < 0x20 {
        seq!['\\', 'u', '0', '0', hex_digit((c as u32) / 16), hex_digit((c as u32) % 16)]
    } else {
        seq![c]
    }
}

/// The escaped characters of `s`, in order.
pub open spec fn escaped_all(s: Seq<char>) -> Seq<char>
    decreases s.len(),
{
    if s.len() == 0 {
        seq![]
    } else {
        escaped_all(s.drop_last()) + escaped(s.last())
    }
}

/// `s` as a JSON string literal.
pub open spec fn json_quoted(s: Seq<char>) -> Seq<char> {
    seq!['"'] + escaped_all(s) + seq!['"']
}

/// Relies on serde_json::to_string on a `str`: the string literal with the escapes
/// of serde_json's ESCAPE table. Serialising a `str` into memory cannot fail.
#[verifier::external_body]
pub(crate) fn json_string(s: &str) -> (r: String)
    ensures
        r@ == json_quoted(s@),
{
    serde_json::to_string(s).unwrap_or_default()
}

/// The string value of the member `key` of the JSON object `doc`; none when `doc` is
/// not a JSON object or the member is missing or not a string.
pub uninterp spec fn json_string_member(doc: Seq<char>, key: Seq<char>) -> Option<Seq<char>>;

/// The JSON text (as serde_json writes it) of the member `key` of the JSON object
/// `doc`; none when `doc` is not a JSON object or has no such member.
pub uninterp spec fn json_member_text(doc: Seq<char>, key: Seq<char>) -> Option<Seq<char>>;

/// Whether `doc` is well-formed JSON.
pub uninterp spec fn is_json(doc: Seq<char>) -> bool;

/// Relies on serde_json::from_str into a Value, Value::get and Value::as_str: the
/// string member of a JSON object.
#[verifier::external_body]
pub(crate) fn string_member(doc: &str, key: &str) -> (r: Option<String>)
    ensures
        match r {
            Some(s) => json_string_member(doc@, key@) == Some(s@),
            None => json_string_member(doc@, key@) is None,
        },
{
    match serde_json::from_str::<serde_json::Value>(doc) {
        Ok(v) => match v.get(key) {
            Some(m) => match m.as_str() {
                Some(s) => Some(s.to_string()),
                None => None,
            },
            None => None,
        },
        Err(_) => None,
    }
}

/// Relies on serde_json::from_str into a Value, Value::get and serde_json::to_string:
/// the JSON text of a member of a JSON object.
#[verifier::external_body]
pub(crate) fn member_text(doc: &str, key: &str) -> (r: Option<String>)
    ensures
        match r {
            Some(s) => json_member_text(doc@, key@) == Some(s@),
            None => json_member_text(doc@, key@) is None,
        },
{
    match serde_json::from_str::<serde_json::Value>(doc) {
        Ok(v) => match v.get(key) {
            Some(m) => serde_json::to_string(m).ok(),
            None => None,
        },
        Err(_) => None,
    }
}

/// Relies on serde_json::from_str into a Value: whether the text parses as JSON.
#[verifier::external_body]
pub(crate) fn parses_as_json(doc: &str) -> (r: bool)
    ensures
        r == is_json(doc@),
{
    serde_json::from_str::<serde_json::Value>(doc).is_ok()
}

} // verus!
