//! Shapes shared by the endpoints: a POST call with fixed parameters, with the
//! query passed on, or with some of its keys renamed.

use vstd::prelude::*;
use crate::query::{json_of_query, json_text, lookup, query_json, query_pairs, rename_key, value_or, Query};
use crate::request::{ApiCall, ApiCallView};

verus! {

/// The call with these five texts.
pub open spec fn call_view(
    method: Seq<char>,
    ua: Seq<char>,
    crypto: Seq<char>,
    url: Seq<char>,
    payload: Seq<char>,
) -> ApiCallView {
    ApiCallView { method, ua, crypto, url, payload }
}

/// A POST call with no particular user agent.
pub open spec fn post_view(crypto: Seq<char>, url: Seq<char>, payload: Seq<char>) -> ApiCallView {
    call_view("POST"@, ""@, crypto, url, payload)
}

/// The endpoint gives this call.
pub open spec fn gives(r: Option<ApiCall>, v: ApiCallView) -> bool {
    r matches Some(c) && c@ == v
}

/// A POST call with no particular user agent.
pub fn post(crypto: &str, url: &str, payload: &str) -> (c: ApiCall)
    ensures
        c@ == post_view(crypto@, url@, payload@),
{
    ApiCall::new("POST", "", crypto, url, payload)
}

/// A POST call whose parameters are those of the query, as JSON.
pub fn post_query(crypto: &str, url: &str, query: &str) -> (c: ApiCall)
    ensures
        c@ == post_view(crypto@, url@, query_json(query@)),
{
    let payload = json_of_query(query);
    post(crypto, url, payload.as_str())
}

/// A POST call whose parameters are those of the query with the key `old`
/// renamed to `new`.
pub fn post_renamed(crypto: &str, url: &str, query: &str, old: &str, new: &str) -> (c: ApiCall)
    ensures
        c@ == post_view(crypto@, url@, json_text(rename_key(query_pairs(query@), old@, new@))),
{
    let q = Query::parse(query).replace_key(old, new);
    let payload = q.json();
    post(crypto, url, payload.as_str())
}

/// `prefix` followed by `rest`.
pub fn concat(prefix: &str, rest: &str) -> (s: String)
    ensures
        s@ == prefix@ + rest@,
{
    let mut s = prefix.to_owned();
    s.append(rest);
    s
}

/// The query has a pair with key `k`.
pub open spec fn present(q: Seq<(Seq<char>, Seq<char>)>, k: Seq<char>) -> bool {
    lookup(q, k) is Some
}

/// The value of key `k`, for a key the query has.
pub open spec fn val(q: Seq<(Seq<char>, Seq<char>)>, k: Seq<char>) -> Seq<char> {
    value_or(q, k, Seq::empty())
}

/// The endpoint gives the call `v`, or no call where `v` is `None`.
pub open spec fn yields(r: Option<ApiCall>, v: Option<ApiCallView>) -> bool {
    match v {
        Some(view) => gives(r, view),
        None => r is None,
    }
}

} // verus!
