//! Encoding of the string lists stored with a usage statistic: the models
//! used (always stored) and the client versions (stored only when given).
use vstd::prelude::*;

verus! {

/// A lowercase hexadecimal digit for `n < 16`.
pub open spec fn hex_digit(n: nat) -> char {
    if n < 10 {
        crate::text::digit_char(n)
    } else {
        ((87 + n) as u8) as char
    }
}

/// How serde_json writes one character inside a JSON string: quote and
/// backslash escaped, the five control characters with short escapes as
/// those, the other control characters below U+0020 as `\u00xx`, and every
/// other character as it is.
pub open spec fn json_escaped_char(c: char) -> Seq<char> {
    let u = c as u32;
    if c == '"' {
        seq!['\\', '"']
    } else if c == '\\' {
        seq!['\\', '\\']
    } else if u == 0x08 {
        seq!['\\', 'b']
    } else if u == 0x09 {
        seq!['\\', 't']
    } else if u == 0x0a {
        seq!['\\', 'n']
    } else if u == 0x0c {
        seq!['\\', 'f']
    } else if u == 0x0d {
        seq!['\\', 'r']
    } else if u < 0x20 {
        seq!['\\', 'u', '0', '0', hex_digit((u / 16) as nat), hex_digit((u % 16) as nat)]
    } else {
        seq![c]
    }
}

/// The characters of `s`, each escaped for a JSON string.
pub open spec fn json_escaped(s: Seq<char>) -> Seq<char>
    decreases s.len(),
{
    if s.len() == 0 {
        Seq::empty()
    } else {
        json_escaped(s.drop_last()) + json_escaped_char(s.last())
    }
}

/// `s` as a JSON string literal.
pub open spec fn json_string(s: Seq<char>) -> Seq<char> {
    seq!['"'] + json_escaped(s) + seq!['"']
}

/// The compact JSON array text that `serde_json::to_string` produces for a
/// list of strings: the string literals between brackets, separated by
/// commas without spaces.
pub open spec fn json_text_of_strings(items: Seq<Seq<char>>) -> Seq<char> {
    seq!['['] + crate::text::join_with(items.map_values(|i: Seq<char>| json_string(i)), seq![','])
        + seq![']']
}

/// The character views of `items`.
pub open spec fn string_views(items: Seq<String>) -> Seq<Seq<char>> {
    items.map_values(|s: String| s@)
}

/// `serde_json::to_string(items)`, with the error dropped to `None`: the
/// compact array of the escaped string literals (serde_json's compact
/// formatter and its escape table in `ser.rs`). The call succeeds: serde_json documents that serialization fails only when a
/// `Serialize` impl fails or a map has non-string keys, and neither happens
/// for a list of strings, which it writes into an in-memory buffer.
#[verifier::external_body]
fn encode_string_list(items: &[String]) -> (r: Option<String>)
    ensures
        r is Some,
        r.unwrap()@ == json_text_of_strings(string_views(items@)),
{
    serde_json::to_string(items).ok()
}

/// The stored models list: the encoded text, or `[]` when encoding failed.
pub fn json_or_empty_array(encoded: Option<String>) -> (r: String)
    ensures
        r@ == match encoded {
            Some(s) => s@,
            None => "[]"@,
        },
{
    match encoded {
        Some(s) => s,
        None => String::from_str("[]"),
    }
}

/// The JSON text stored as `models_used` for a usage statistic (`[]` should
/// encoding ever fail).
pub fn models_used_json(models_used: &[String]) -> (r: String)
    ensures
        r@ == json_text_of_strings(string_views(models_used@)),
{
    json_or_empty_array(encode_string_list(models_used))
}

/// The JSON text stored as `versions`: none when no versions are given.
pub fn versions_json(versions: Option<&[String]>) -> (r: Option<String>)
    ensures
        match versions {
            None => r is None,
            Some(v) => r matches Some(s) && s@ == json_text_of_strings(string_views(v@)),
        },
{
    match versions {
        Some(v) => encode_string_list(v),
        None => None,
    }
}

} // verus!
