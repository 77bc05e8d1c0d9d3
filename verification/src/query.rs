//! URL query strings, as the `urlqstring` crate reads and writes them.

use vstd::prelude::*;
use urlqstring::QueryParams;
use crate::text::split_text;

verus! {

/// A piece split at its first `=`; a piece without one has an empty value.
pub open spec fn key_value(piece: Seq<char>) -> (Seq<char>, Seq<char>)
    decreases piece.len(),
{
    if piece.len() == 0 {
        (Seq::<char>::empty(), Seq::<char>::empty())
    } else if piece[0] == '=' {
        (Seq::<char>::empty(), piece.drop_first())
    } else {
        let kv = key_value(piece.drop_first());
        (seq![piece[0]] + kv.0, kv.1)
    }
}

/// The key/value pairs that `QueryParams::from(s)` holds.
pub open spec fn query_pairs(s: Seq<char>) -> Seq<(Seq<char>, Seq<char>)> {
    split_text(s, '&').map_values(|piece: Seq<char>| key_value(piece))
}

/// The value of the first pair whose key is `key`.
pub open spec fn lookup(pairs: Seq<(Seq<char>, Seq<char>)>, key: Seq<char>) -> Option<Seq<char>>
    decreases pairs.len(),
{
    if pairs.len() == 0 {
        None
    } else if pairs[0].0 == key {
        Some(pairs[0].1)
    } else {
        lookup(pairs.drop_first(), key)
    }
}

/// One member of the JSON text: `"key":"value"`, with nothing escaped.
pub open spec fn json_member(pair: (Seq<char>, Seq<char>)) -> Seq<char> {
    seq!['"'] + pair.0 + seq!['"', ':', '"'] + pair.1 + seq!['"']
}

/// The members joined by commas.
pub open spec fn json_members(pairs: Seq<(Seq<char>, Seq<char>)>) -> Seq<char>
    decreases pairs.len(),
{
    if pairs.len() == 0 {
        Seq::<char>::empty()
    } else if pairs.len() == 1 {
        json_member(pairs[0])
    } else {
        json_member(pairs[0]) + seq![','] + json_members(pairs.drop_first())
    }
}

/// `QueryParams::json`: every pair as a string member, in order.
pub open spec fn json_text(pairs: Seq<(Seq<char>, Seq<char>)>) -> Seq<char> {
    seq!['{'] + json_members(pairs) + seq!['}']
}

/// `QueryParams::replace_key`: every pair with key `old` gets key `new`.
pub open spec fn rename_key(
    pairs: Seq<(Seq<char>, Seq<char>)>,
    old: Seq<char>,
    new: Seq<char>,
) -> Seq<(Seq<char>, Seq<char>)> {
    pairs.map_values(
        |p: (Seq<char>, Seq<char>)|
            if p.0 == old {
                (new, p.1)
            } else {
                p
            },
    )
}

/// `QueryParams::replace_value`: every pair with value `old` gets value `new`.
pub open spec fn revalue(
    pairs: Seq<(Seq<char>, Seq<char>)>,
    old: Seq<char>,
    new: Seq<char>,
) -> Seq<(Seq<char>, Seq<char>)> {
    pairs.map_values(
        |p: (Seq<char>, Seq<char>)|
            if p.1 == old {
                (p.0, new)
            } else {
                p
            },
    )
}

/// The pairs of a query string, owned.
pub struct Query {
    pub pairs: Vec<(String, String)>,
}

impl View for Query {
    type V = Seq<(Seq<char>, Seq<char>)>;

    open spec fn view(&self) -> Seq<(Seq<char>, Seq<char>)> {
        self.pairs@.map_values(|p: (String, String)| (p.0@, p.1@))
    }
}

/// `QueryParams::from(s)`: splits at `&`, then each piece at its first `=`.
#[verifier::external_body]
fn qs_parse(s: &str) -> (q: Query)
    ensures
        q@ == query_pairs(s@),
{
    let params = QueryParams::from(s);
    Query { pairs: params.iter().map(|(k, v)| (k.to_string(), v.to_string())).collect() }
}

/// `QueryParams::value`: the value of the first pair with the key.
#[verifier::external_body]
fn qs_value(q: &Query, key: &str) -> (r: Option<String>)
    ensures
        match r {
            Some(v) => lookup(q@, key@) == Some(v@),
            None => lookup(q@, key@) is None,
        },
{
    let params = QueryParams::from(q.pairs.iter().map(|(k, v)| (k.as_str(), v.as_str())).collect::<Vec<_>>());
    params.value(key).map(|v| v.to_string())
}

/// `QueryParams::json`: `{"k":"v",...}` with keys and values as they are.
#[verifier::external_body]
fn qs_json(q: &Query) -> (r: String)
    ensures
        r@ == json_text(q@),
{
    let params = QueryParams::from(q.pairs.iter().map(|(k, v)| (k.as_str(), v.as_str())).collect::<Vec<_>>());
    params.json()
}

/// Bytes that `urlqstring` writes as they are: ASCII letters and digits and
/// `* - . _ ' ~ ! ( )`.
pub open spec fn url_kept(b: u8) -> bool {
    (48 <= b <= 57) || (65 <= b <= 90) || (97 <= b <= 122) || b == 42 || b == 45 || b == 46 || b
        == 95 || b == 39 || b == 126 || b == 33 || b == 40 || b == 41
}

/// A hexadecimal digit in upper case.
pub open spec fn hex_upper(n: int) -> char {
    seq!['0', '1', '2', '3', '4', '5', '6', '7', '8', '9', 'A', 'B', 'C', 'D', 'E', 'F'][n]
}

/// A byte as `urlqstring` writes it: itself, or `%` and two upper-case
/// hexadecimal digits.
pub open spec fn url_escape_byte(b: u8) -> Seq<char> {
    if url_kept(b) {
        seq![b as char]
    } else {
        seq!['%', hex_upper(b as int / 16), hex_upper(b as int % 16)]
    }
}

/// A text percent-encoded byte by byte, over its UTF-8 form.
pub open spec fn url_escape(s: Seq<char>) -> Seq<char> {
    vstd::utf8::encode_utf8(s).map_values(|b: u8| url_escape_byte(b)).flatten()
}

/// `QueryParams::stringify`: each pair as `key=value&`, or `key&` when the
/// value is empty, both percent-encoded.
pub open spec fn url_encoded(pairs: Seq<(Seq<char>, Seq<char>)>) -> Seq<char> {
    pairs.map_values(
        |p: (Seq<char>, Seq<char>)|
            if p.1.len() == 0 {
                url_escape(p.0) + seq!['&']
            } else {
                url_escape(p.0) + seq!['='] + url_escape(p.1) + seq!['&']
            },
    ).flatten()
}

/// `QueryParams::stringify`.
#[verifier::external_body]
fn qs_stringify(q: &Query) -> (r: String)
    ensures
        r@ == url_encoded(q@),
{
    let params = QueryParams::from(q.pairs.iter().map(|(k, v)| (k.as_str(), v.as_str())).collect::<Vec<_>>());
    params.stringify()
}

/// `QueryParams::replace_key`.
#[verifier::external_body]
fn qs_replace_key(q: &Query, old: &str, new: &str) -> (r: Query)
    ensures
        r@ == rename_key(q@, old@, new@),
{
    let params = QueryParams::from(q.pairs.iter().map(|(k, v)| (k.as_str(), v.as_str())).collect::<Vec<_>>());
    let renamed = params.replace_key(old, new);
    Query { pairs: renamed.iter().map(|(k, v)| (k.to_string(), v.to_string())).collect() }
}

/// `QueryParams::replace_value`.
#[verifier::external_body]
fn qs_replace_value(q: &Query, old: &str, new: &str) -> (r: Query)
    ensures
        r@ == revalue(q@, old@, new@),
{
    let params = QueryParams::from(q.pairs.iter().map(|(k, v)| (k.as_str(), v.as_str())).collect::<Vec<_>>());
    let changed = params.replace_value(old, new);
    Query { pairs: changed.iter().map(|(k, v)| (k.to_string(), v.to_string())).collect() }
}

impl Query {
    /// Reads a query string.
    pub fn parse(s: &str) -> (q: Query)
        ensures
            q@ == query_pairs(s@),
    {
        qs_parse(s)
    }

    /// The value of the first pair with the key.
    pub fn value(&self, key: &str) -> (r: Option<String>)
        ensures
            match r {
                Some(v) => lookup(self@, key@) == Some(v@),
                None => lookup(self@, key@) is None,
            },
    {
        qs_value(self, key)
    }

    /// The value of the key, or `default` when no pair has it.
    pub fn value_or(&self, key: &str, default: &str) -> (r: String)
        ensures
            r@ == value_or(self@, key@, default@),
    {
        match qs_value(self, key) {
            Some(v) => v,
            None => default.to_owned(),
        }
    }

    /// The pairs as a JSON object of strings.
    pub fn json(&self) -> (r: String)
        ensures
            r@ == json_text(self@),
    {
        qs_json(self)
    }

    /// The pairs percent-encoded as a form body.
    pub fn stringify(&self) -> (r: String)
        ensures
            r@ == url_encoded(self@),
    {
        qs_stringify(self)
    }

    /// Renames every key `old` to `new`.
    pub fn replace_key(&self, old: &str, new: &str) -> (r: Query)
        ensures
            r@ == rename_key(self@, old@, new@),
    {
        qs_replace_key(self, old, new)
    }

    /// Replaces every value `old` by `new`.
    pub fn replace_value(&self, old: &str, new: &str) -> (r: Query)
        ensures
            r@ == revalue(self@, old@, new@),
    {
        qs_replace_value(self, old, new)
    }
}

/// The value of the key, or `default`.
pub open spec fn value_or(
    pairs: Seq<(Seq<char>, Seq<char>)>,
    key: Seq<char>,
    default: Seq<char>,
) -> Seq<char> {
    match lookup(pairs, key) {
        Some(v) => v,
        None => default,
    }
}

/// The JSON text of a query string read afresh.
pub open spec fn query_json(s: Seq<char>) -> Seq<char> {
    json_text(query_pairs(s))
}

/// `QueryParams::from(s).json()`.
pub fn json_of_query(s: &str) -> (r: String)
    ensures
        r@ == query_json(s@),
{
    let q = qs_parse(s);
    qs_json(&q)
}

} // verus!
