//! Reading JSON request and reply lines with serde_json, as plain values: whether a text parses,
//! and the members of the object it holds. What the lines mean is decided by verified code.
use vstd::prelude::*;

verus! {

/// The text that `str::trim` leaves (leading and trailing white space removed).
pub uninterp spec fn spec_trim(text: Seq<char>) -> Seq<char>;

/// The error text that `serde_json::from_str::<serde_json::Value>` gives for a text it rejects;
/// `None` when it accepts the text.
pub uninterp spec fn spec_json_parse_error(text: Seq<char>) -> Option<Seq<char>>;

/// The compact JSON text of the member `key` of the object that a JSON text holds, as
/// serde_json writes it back; `None` when the text holds no object with that member.
pub uninterp spec fn spec_json_member_text(text: Seq<char>, key: Seq<char>) -> Option<Seq<char>>;

/// The member `key` of the object that a JSON text holds, when that member is a string.
pub uninterp spec fn spec_json_member_str(text: Seq<char>, key: Seq<char>) -> Option<Seq<char>>;

/// The member `key` of the object that a JSON text holds, when that member is an integer that
/// fits in an i64.
pub uninterp spec fn spec_json_member_i64(text: Seq<char>, key: Seq<char>) -> Option<i64>;

/// Whether a JSON text holds an object.
pub uninterp spec fn spec_json_is_object(text: Seq<char>) -> bool;

/// Calls `serde_json::from_str::<serde_json::Value>` and then `Value::is_object`; a text that
/// does not parse holds no object.
#[verifier::external_body]
pub(crate) fn json_is_object(text: &str) -> (r: bool)
    ensures
        r == spec_json_is_object(text@),
        spec_json_parse_error(text@) is Some ==> !r,
{
    match serde_json::from_str::<serde_json::Value>(text) {
        Ok(value) => value.is_object(),
        Err(_) => false,
    }
}

/// Characters with the Unicode `White_Space` property, which `char::is_whitespace` tests.
pub open spec fn is_white_space(c: char) -> bool {
    let n = c as u32;
    (9 <= n <= 13) || n == 0x20 || n == 0x85 || n == 0xa0 || n == 0x1680 || (0x2000 <= n <= 0x200a)
        || n == 0x2028 || n == 0x2029 || n == 0x202f || n == 0x205f || n == 0x3000
}

/// `out` is the stretch of `text` from `i` to `j`, all before and after it is white space, and
/// it starts and ends with other characters unless it is empty.
pub open spec fn trimmed_at(text: Seq<char>, out: Seq<char>, i: int, j: int) -> bool {
    &&& 0 <= i <= j <= text.len()
    &&& out == text.subrange(i, j)
    &&& forall|k: int| 0 <= k < i ==> is_white_space(#[trigger] text[k])
    &&& forall|k: int| j <= k < text.len() ==> is_white_space(#[trigger] text[k])
    &&& i < j ==> !is_white_space(text[i]) && !is_white_space(text[j - 1])
}

/// Calls `str::trim`, which, as std documents it, removes the leading and trailing characters
/// with the `White_Space` property: what is left is a stretch of the text that starts and ends
/// with other characters, or is empty when the text holds white space only.
#[verifier::external_body]
pub(crate) fn trim_text<'a>(text: &'a str) -> (r: &'a str)
    ensures
        r@ == spec_trim(text@),
        exists|i: int, j: int| trimmed_at(text@, r@, i, j),
{
    text.trim()
}

/// Calls `serde_json::from_str::<serde_json::Value>` and keeps the error's text.
#[verifier::external_body]
pub(crate) fn json_parse_error(text: &str) -> (r: Option<String>)
    ensures
        (match r {
            Some(e) => spec_json_parse_error(text@) == Some(e@),
            None => spec_json_parse_error(text@) is None,
        }),
{
    match serde_json::from_str::<serde_json::Value>(text) {
        Ok(_) => None,
        Err(err) => Some(err.to_string()),
    }
}

/// Calls `serde_json::from_str::<serde_json::Value>`, then `Value::get` and `Value::to_string`
/// on the member. A text that does not parse has no member.
#[verifier::external_body]
pub(crate) fn json_member_text(text: &str, key: &str) -> (r: Option<String>)
    ensures
        (match r {
            Some(m) => spec_json_member_text(text@, key@) == Some(m@),
            None => spec_json_member_text(text@, key@) is None,
        }),
        spec_json_parse_error(text@) is Some ==> r is None,
{
    match serde_json::from_str::<serde_json::Value>(text) {
        Ok(value) => match value.get(key) {
            Some(member) => Some(member.to_string()),
            None => None,
        },
        Err(_) => None,
    }
}

/// Calls `serde_json::from_str::<serde_json::Value>`, then `Value::get` and `Value::as_str` on
/// the member. A text that does not parse has no member.
#[verifier::external_body]
pub(crate) fn json_member_str(text: &str, key: &str) -> (r: Option<String>)
    ensures
        (match r {
            Some(m) => spec_json_member_str(text@, key@) == Some(m@),
            None => spec_json_member_str(text@, key@) is None,
        }),
        spec_json_parse_error(text@) is Some ==> r is None,
{
    match serde_json::from_str::<serde_json::Value>(text) {
        Ok(value) => match value.get(key) {
            Some(member) => match member.as_str() {
                Some(s) => Some(s.to_string()),
                None => None,
            },
            None => None,
        },
        Err(_) => None,
    }
}

/// Calls `serde_json::from_str::<serde_json::Value>`, then `Value::get` and `Value::as_i64` on
/// the member.
#[verifier::external_body]
pub(crate) fn json_member_i64(text: &str, key: &str) -> (r: Option<i64>)
    ensures
        r == spec_json_member_i64(text@, key@),
{
    match serde_json::from_str::<serde_json::Value>(text) {
        Ok(value) => match value.get(key) {
            Some(member) => member.as_i64(),
            None => None,
        },
        Err(_) => None,
    }
}

/// A lower-case hexadecimal digit.
pub open spec fn hex_digit(d: u32) -> char {
    if d < 10 {
        (48 + d) as char
    } else {
        (87 + d) as char
    }
}

/// How serde_json writes one character inside a JSON string: a quote and a backslash behind a
/// backslash; backspace, tab, line feed, form feed and carriage return as `\b`, `\t`, `\n`,
/// `\f` and `\r`; the other control characters below U+0020 as `\u00` and two lower-case hex
/// digits; every other character as itself.
pub open spec fn json_escaped_char(c: char) -> Seq<char> {
    let n = c as u32;
    if c == '"' {
        seq!['\\', '"']
    } else if c == '\\' {
        seq!['\\', '\\']
    } else if n == 8 {
        seq!['\\', 'b']
    } else if n == 9 {
        seq!['\\', 't']
    } else if n == 10 {
        seq!['\\', 'n']
    } else if n == 12 {
        seq!['\\', 'f']
    } else if n == 13 {
        seq!['\\', 'r']
    } else if n < 32 {
        seq!['\\', 'u', '0', '0', hex_digit(n / 16), hex_digit(n % 16)]
    } else {
        seq![c]
    }
}

/// The characters of a text, each as serde_json writes it inside a JSON string.
pub open spec fn json_escaped(text: Seq<char>) -> Seq<char>
    decreases text.len(),
{
    if text.len() == 0 {
        Seq::empty()
    } else {
        json_escaped(text.drop_last()) + json_escaped_char(text.last())
    }
}

/// The JSON text that serde_json writes for a string: its escaped characters between quotes.
pub open spec fn spec_json_string(text: Seq<char>) -> Seq<char> {
    seq!['"'] + json_escaped(text) + seq!['"']
}

/// Calls `serde_json::to_string` on a string, which writes the string between quotes with the
/// escapes of `json_escaped_char` (serde_json's `ESCAPE` table and `write_char_escape`);
/// serialising a string cannot fail.
#[verifier::external_body]
pub(crate) fn json_encode_str(text: &str) -> (r: String)
    ensures
        r@ == spec_json_string(text@),
{
    match serde_json::to_string(text) {
        Ok(t) => t,
        Err(_) => String::new(),
    }
}

} // verus!
