use vstd::prelude::*;

verus! {

/// A lowercase hexadecimal digit for `n < 16`.
pub open spec fn hex_digit(n: u32) -> char {
    if n < 10 {
        (('0' as u32) + n) as char
    } else {
        (('a' as u32) + (n - 10)) as char
    }
}

/// How one character is written inside a JSON string literal: quote,
/// backslash and the control characters are escaped, everything else is kept.
pub open spec fn escaped_char(c: char) -> Seq<char> {
    let u = c as u32;
    if c == '"' {
        seq!['\\', '"']
    } else if c == '\\' {
        seq!['\\', '\\']
    } else if u == 0x08 {
        seq!['\\', 'b']
    } else if u == 0x09 {
        seq!['\\', 't']
    } else if u == 0x0a {
        seq!['\\', 'n']
    } else if u == 0x0c {
        seq!['\\', 'f']
    } else if u == 0x0d {
        seq!['\\', 'r']
    } else if u < 0x20 {
        seq!['\\', 'u', '0', '0', hex_digit(u / 16), hex_digit(u % 16)]
    } else {
        seq![c]
    }
}

/// The escaped contents of a JSON string literal for `s`.
pub open spec fn escaped(s: Seq<char>) -> Seq<char>
    decreases s.len(),
{
    if s.len() == 0 {
        Seq::empty()
    } else {
        escaped(s.drop_last()) + escaped_char(s.last())
    }
}

/// `s` written as a JSON string literal, quotes included.
pub open spec fn json_string(s: Seq<char>) -> Seq<char> {
    seq!['"'] + escaped(s) + seq!['"']
}

/// The JSON array of string literals for `items`, without its brackets.
pub open spec fn json_string_items(items: Seq<Seq<char>>) -> Seq<char>
    decreases items.len(),
{
    if items.len() == 0 {
        Seq::empty()
    } else if items.len() == 1 {
        json_string(items[0])
    } else {
        json_string_items(items.drop_last()) + seq![','] + json_string(items.last())
    }
}

/// Relies on serde_json::to_string on a `str`: a JSON string literal, written
/// with serde_json's escapes (two-character escapes for quote, backslash, \b,
/// \t, \n, \f, \r; `\u00xx` with lowercase hex for the other control
/// characters; every other character as is). Serialising a `str` never fails.
#[verifier::external_body]
pub(crate) fn quote_json(s: &str) -> (r: String)
    ensures
        r@ == json_string(s@),
{
    serde_json::to_string(s).unwrap_or_default()
}

/// What serde_json reads from a lookup response body: `Some((code, msg))`
/// where the body parses as a JSON object whose member `status_code` is an
/// integer that fits an `i64` and whose member `msg` is a string.
pub uninterp spec fn link_fields_of(body: Seq<char>) -> Option<(int, Seq<char>)>;

/// Relies on serde_json::from_str into a `serde_json::Value`, then on
/// `Value::get`, `Value::as_i64` and `Value::as_str` to read the two members.
#[verifier::external_body]
pub(crate) fn parse_link_fields(body: &str) -> (r: Option<(i64, String)>)
    ensures
        r is Some <==> link_fields_of(body@) is Some,
        r is Some ==> r->Some_0.0 as int == link_fields_of(body@)->Some_0.0
            && r->Some_0.1@ == link_fields_of(body@)->Some_0.1,
{
    let v: serde_json::Value = serde_json::from_str(body).ok()?;
    let code = v.get("status_code")?.as_i64()?;
    let msg = v.get("msg")?.as_str()?;
    Some((code, msg.to_string()))
}

} // verus!
