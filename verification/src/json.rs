//! JSON objects written by `serde_json`, and lists written by `Debug`.

use vstd::prelude::*;
use crate::text::{bool_text, join_texts};

verus! {

/// A value of a JSON object that an endpoint sends.
pub enum JsonField {
    Text(String),
    Flag(bool),
    Texts(Vec<String>),
}

/// The view of a `JsonField`.
pub enum JsonFieldView {
    Text(Seq<char>),
    Flag(bool),
    Texts(Seq<Seq<char>>),
}

impl View for JsonField {
    type V = JsonFieldView;

    open spec fn view(&self) -> JsonFieldView {
        match self {
            JsonField::Text(s) => JsonFieldView::Text(s@),
            JsonField::Flag(b) => JsonFieldView::Flag(*b),
            JsonField::Texts(v) => JsonFieldView::Texts(v@.map_values(|s: String| s@)),
        }
    }
}

/// A text field.
pub(crate) fn text_field(key: &str, value: &str) -> (f: (String, JsonField))
    ensures
        f.0@ == key@,
        f.1@ == JsonFieldView::Text(value@),
{
    (key.to_owned(), JsonField::Text(value.to_owned()))
}

/// The fields of an object, as texts.
pub open spec fn fields_view(fields: Seq<(String, JsonField)>) -> Seq<(Seq<char>, JsonFieldView)> {
    fields.map_values(|f: (String, JsonField)| (f.0@, f.1@))
}

/// `a` comes before `b` in the order of their characters' code points.
pub open spec fn text_less(a: Seq<char>, b: Seq<char>) -> bool
    decreases a.len(),
{
    if a.len() == 0 {
        b.len() > 0
    } else if b.len() == 0 {
        false
    } else if a[0] != b[0] {
        (a[0] as int) < (b[0] as int)
    } else {
        text_less(a.drop_first(), b.drop_first())
    }
}

/// Every key comes before the next.
pub open spec fn keys_ascending(fields: Seq<(Seq<char>, JsonFieldView)>) -> bool {
    forall|i: int| 0 <= i < fields.len() - 1 ==> text_less(#[trigger] fields[i].0, fields[i + 1].0)
}

/// A hexadecimal digit in lower case.
pub open spec fn hex_lower(n: int) -> char {
    seq!['0', '1', '2', '3', '4', '5', '6', '7', '8', '9', 'a', 'b', 'c', 'd', 'e', 'f'][n]
}

/// How `serde_json` writes a character inside a string.
pub open spec fn json_escape_char(c: char) -> Seq<char> {
    if c == '"' {
        seq!['\\', '"']
    } else if c == '\\' {
        seq!['\\', '\\']
    } else if c == '\u{8}' {
        seq!['\\', 'b']
    } else if c == '\t' {
        seq!['\\', 't']
    } else if c == '\n' {
        seq!['\\', 'n']
    } else if c == '\u{c}' {
        seq!['\\', 'f']
    } else if c == '\r' {
        seq!['\\', 'r']
    } else if (c as int) < 0x20 {
        seq!['\\', 'u', '0', '0', hex_lower(c as int / 16), hex_lower(c as int % 16)]
    } else {
        seq![c]
    }
}

/// A string as `serde_json` writes it.
pub open spec fn json_string(s: Seq<char>) -> Seq<char> {
    seq!['"'] + s.map_values(|c: char| json_escape_char(c)).flatten() + seq!['"']
}

/// Strings as a JSON array: `["a","b"]`.
pub open spec fn json_strings(items: Seq<Seq<char>>) -> Seq<char> {
    seq!['['] + join_texts(items.map_values(|s: Seq<char>| json_string(s)), seq![',']) + seq![']']
}

/// A value as `serde_json` writes it.
pub open spec fn json_value(v: JsonFieldView) -> Seq<char> {
    match v {
        JsonFieldView::Text(s) => json_string(s),
        JsonFieldView::Flag(b) => bool_text(b),
        JsonFieldView::Texts(items) => json_strings(items),
    }
}

/// An object as `serde_json` writes it, its keys in the order given.
pub open spec fn json_object(fields: Seq<(Seq<char>, JsonFieldView)>) -> Seq<char> {
    seq!['{'] + join_texts(
        fields.map_values(
            |f: (Seq<char>, JsonFieldView)| json_string(f.0) + seq![':'] + json_value(f.1),
        ),
        seq![','],
    ) + seq!['}']
}

/// `serde_json::Value::Object(..).to_string()`: the object written compactly.
/// Its map keeps keys sorted, so the fields are asked for in ascending order,
/// where the text keeps their order.
#[verifier::external_body]
pub(crate) fn json_object_string(fields: &Vec<(String, JsonField)>) -> (s: String)
    requires
        keys_ascending(fields_view(fields@)),
    ensures
        s@ == json_object(fields_view(fields@)),
{
    let map: serde_json::Map<String, serde_json::Value> = fields.iter().map(|(k, v)| (k.clone(), match v {
        JsonField::Text(s) => serde_json::Value::String(s.clone()),
        JsonField::Flag(b) => serde_json::Value::Bool(*b),
        JsonField::Texts(items) => serde_json::Value::Array(items.iter().map(|s| serde_json::Value::String(s.clone())).collect()),
    })).collect();
    serde_json::Value::Object(map).to_string()
}

/// The name for what `format!("{:?}", items)` gives for a list of strings.
pub uninterp spec fn debug_list(items: Seq<Seq<char>>) -> Seq<char>;

/// A character that `Debug` writes as it is inside a string: printable ASCII
/// other than `"` and `\`.
pub open spec fn debug_plain(c: char) -> bool {
    ' ' <= c && c <= '~' && c != '"' && c != '\\'
}

/// `format!("{:?}", items)` for a list of strings: `["a", "b"]`, each item
/// written as `Debug` writes strings; for items of plain characters only, the
/// characters themselves between quotes.
#[verifier::external_body]
pub(crate) fn debug_list_string(items: &Vec<String>) -> (s: String)
    ensures
        s@ == debug_list(items@.map_values(|t: String| t@)),
        (forall|i: int, j: int|
            0 <= i < items@.len() && 0 <= j < items@[i]@.len() ==> debug_plain(#[trigger] items@[i]@[j]))
            ==> s@ == seq!['['] + join_texts(
            items@.map_values(|t: String| seq!['"'] + t@ + seq!['"']),
            seq![',', ' '],
        ) + seq![']'],
{
    format!("{:?}", items)
}

} // verus!
