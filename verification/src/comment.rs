//! Endpoints about comments, and liking resources.

use vstd::prelude::*;
use crate::album::index_or_zero;
use crate::calls::{call_view, concat, gives, present, post, post_view, val, yields};
use crate::query::{json_of_query, lookup, query_json, query_pairs, value_or, Query};
use crate::request::{ApiCall, ApiCallView};
use crate::text::{parse_usize, str_eq};

verus! {

/// The prefixes of thread ids, by resource type: song, video, playlist,
/// album, radio, clip, event.
pub const RESOURCE_TYPES: [&'static str; 7] = [
    "R_SO_4_",
    "R_MV_5_",
    "A_PL_0_",
    "R_AL_3_",
    "A_DJ_1_",
    "R_VI_62_",
    "A_EV_2_",
];

/// What can be done to a comment, by number.
pub const OPERATORS: [&'static str; 3] = ["delete", "add", "reply"];

/// The thread a comment call is about: the query's `threadId` where the type
/// is `event_type`, else the type followed by the query's `id`.
pub open spec fn thread_id(
    q: Seq<(Seq<char>, Seq<char>)>,
    rtype: Seq<char>,
    event_type: Seq<char>,
) -> Option<Seq<char>> {
    if rtype == event_type {
        lookup(q, "threadId"@)
    } else {
        match lookup(q, "id"@) {
            Some(id) => Some(rtype + id),
            None => None,
        }
    }
}

fn thread_id_of(q: &Query, rtype: &str, event_type: &str) -> (r: Option<String>)
    ensures
        match thread_id(q@, rtype@, event_type@) {
            Some(t) => r matches Some(s) && s@ == t,
            None => r is None,
        },
{
    if str_eq(rtype, event_type) {
        q.value("threadId")
    } else {
        match q.value("id") {
            Some(id) => Some(concat(rtype, id.as_str())),
            None => None,
        }
    }
}

/// The entry of a table named by the query's value of `key`: that value read
/// as a number (0 where it is not one); nothing where the key is missing or the
/// number is past the table's end.
pub open spec fn table_index(q: Seq<(Seq<char>, Seq<char>)>, key: Seq<char>, len: int) -> Option<
    int,
> {
    match lookup(q, key) {
        None => None,
        Some(v) => if index_or_zero(v) < len {
            Some(index_or_zero(v))
        } else {
            None
        },
    }
}

fn table_index_of(q: &Query, key: &str, len: usize) -> (r: Option<usize>)
    ensures
        match table_index(q@, key@, len as int) {
            Some(i) => r == Some(i as usize),
            None => r is None,
        },
{
    let v = match q.value(key) {
        Some(v) => v,
        None => return None,
    };
    let i: usize = match parse_usize(v.as_str()) {
        Some(n) => n,
        None => 0,
    };
    if i < len {
        Some(i)
    } else {
        None
    }
}

/// The extra parameters of a comment operation.
pub open spec fn comment_extra(q: Seq<(Seq<char>, Seq<char>)>, op: Seq<char>) -> Option<Seq<char>> {
    if op == "add"@ {
        match lookup(q, "content"@) {
            Some(c) => Some("&content="@ + c),
            None => None,
        }
    } else if op == "delete"@ {
        match lookup(q, "commentId"@) {
            Some(c) => Some("&commentId="@ + c),
            None => None,
        }
    } else if op == "reply"@ {
        if present(q, "commentId"@) && present(q, "content"@) {
            Some("&commentId="@ + val(q, "commentId"@) + "&content="@ + val(q, "content"@))
        } else {
            None
        }
    } else {
        Some(Seq::empty())
    }
}

/// The call of `/comment`: operation `t` (needed; a number, 0 where it is
/// not one: delete, add, reply) on a comment of the thread of resource `type`
/// (needed, likewise), with the content or comment id the operation needs.
pub open spec fn comment_call(q: Seq<(Seq<char>, Seq<char>)>) -> Option<ApiCallView> {
    match table_index(q, "t"@, 3) {
        None => None,
        Some(ti) => match table_index(q, "type"@, 7) {
            None => None,
            Some(ri) => {
                let op = OPERATORS[ti]@;
                match thread_id(q, RESOURCE_TYPES[ri]@, "A_EV_2_"@) {
                    None => None,
                    Some(thread) => match comment_extra(q, op) {
                        None => None,
                        Some(extra) => Some(
                            post_view(
                                "weapi"@,
                                "https://music.163.com/weapi/resource/comments/"@ + op,
                                query_json(thread + extra),
                            ),
                        ),
                    },
                }
            },
        },
    }
}

/// `index_comment` on any query: `None` on the queries that it does not accept,
/// where the server fails the request without calling the service.
pub fn try_index_comment(query: &str) -> (r: Option<ApiCall>)
    ensures
        yields(r, comment_call(query_pairs(query@))),
{
    let q = Query::parse(query);
    let ti = match table_index_of(&q, "t", 3) {
        Some(i) => i,
        None => return None,
    };
    let op = OPERATORS[ti];
    let url = concat("https://music.163.com/weapi/resource/comments/", op);
    let ri = match table_index_of(&q, "type", 7) {
        Some(i) => i,
        None => return None,
    };
    let mut res = match thread_id_of(&q, RESOURCE_TYPES[ri], "A_EV_2_") {
        Some(t) => t,
        None => return None,
    };
    let ghost thread = res@;
    if str_eq(op, "add") {
        let content = match q.value("content") { Some(v) => v, None => return None };
        res.append("&content=");
        res.append(content.as_str());
    } else if str_eq(op, "delete") {
        let id = match q.value("commentId") { Some(v) => v, None => return None };
        res.append("&commentId=");
        res.append(id.as_str());
    } else if str_eq(op, "reply") {
        let id = match q.value("commentId") { Some(v) => v, None => return None };
        let content = match q.value("content") { Some(v) => v, None => return None };
        res.append("&commentId=");
        res.append(id.as_str());
        res.append("&content=");
        res.append(content.as_str());
    }
    assert(comment_extra(q@, op@) matches Some(extra) && res@ =~= thread + extra);
    let info = json_of_query(res.as_str());
    Some(post("weapi", url.as_str(), info.as_str()))
}

/// `/comment`: see `comment_call`.
pub fn index_comment(query: &str) -> (c: ApiCall)
    requires
        comment_call(query_pairs(query@)) is Some,
    ensures
        Some(c@) == comment_call(query_pairs(query@)),
{
    try_index_comment(query).unwrap()
}

/// `index_comment_album` on any query: `None` on the queries that it does not accept,
/// where the server fails the request without calling the service.
pub fn try_index_comment_album(query: &str) -> (r: Option<ApiCall>)
    ensures
        ({
            let q = query_pairs(query@);
            if present(q, "id"@) {
                gives(
                    r,
                    post_view(
                        "weapi"@,
                        "https://music.163.com/weapi/v1/resource/comments/R_AL_3_"@ + val(q, "id"@),
                        query_json("rid="@ + val(q, "id"@)),
                    ),
                )
            } else {
                r is None
            }
        }),
{
    let q = Query::parse(query);
    let id = match q.value("id") { Some(v) => v, None => return None };
    let url = concat("https://music.163.com/weapi/v1/resource/comments/R_AL_3_", id.as_str());
    let info = json_of_query(concat("rid=", id.as_str()).as_str());
    Some(post("weapi", url.as_str(), info.as_str()))
}

/// `/comment/album`: comments on album `id` (needed).
pub fn index_comment_album(query: &str) -> (c: ApiCall)
    requires
        ({
            let q = query_pairs(query@);
            present(q, "id"@)
        }),
    ensures
        ({
            let q = query_pairs(query@);
            c@ == post_view(
                        "weapi"@,
                        "https://music.163.com/weapi/v1/resource/comments/R_AL_3_"@ + val(q, "id"@),
                        query_json("rid="@ + val(q, "id"@)),
                    )
        }),
{
    try_index_comment_album(query).unwrap()
}

/// Comments on the thread `prefix` + the value of `key` (needed), with the
/// whole query as parameters.
pub open spec fn thread_comments(
    q: Seq<(Seq<char>, Seq<char>)>,
    query: Seq<char>,
    prefix: Seq<char>,
    key: Seq<char>,
) -> Option<ApiCallView> {
    match lookup(q, key) {
        Some(id) => Some(post_view("weapi"@, prefix + id, query_json(query))),
        None => None,
    }
}

fn thread_comments_call(query: &str, prefix: &str, key: &str) -> (r: Option<ApiCall>)
    ensures
        yields(r, thread_comments(query_pairs(query@), query@, prefix@, key@)),
{
    let q = Query::parse(query);
    let id = match q.value(key) { Some(v) => v, None => return None };
    let url = concat(prefix, id.as_str());
    let info = q.json();
    Some(post("weapi", url.as_str(), info.as_str()))
}

/// `index_comment_dj` on any query: `None` on the queries that it does not accept,
/// where the server fails the request without calling the service.
pub fn try_index_comment_dj(query: &str) -> (r: Option<ApiCall>)
    ensures
        yields(r, thread_comments(query_pairs(query@), query@,
            "https://music.163.com/weapi/v1/resource/comments/A_DJ_1_"@, "id"@)),
{
    thread_comments_call(query, "https://music.163.com/weapi/v1/resource/comments/A_DJ_1_", "id")
}

/// `/comment/dj`: comments on radio program `id` (needed).
pub fn index_comment_dj(query: &str) -> (c: ApiCall)
    requires
        thread_comments(query_pairs(query@), query@,
            "https://music.163.com/weapi/v1/resource/comments/A_DJ_1_"@, "id"@) is Some,
    ensures
        Some(c@) == thread_comments(query_pairs(query@), query@,
            "https://music.163.com/weapi/v1/resource/comments/A_DJ_1_"@, "id"@),
{
    try_index_comment_dj(query).unwrap()
}

/// `index_comment_event` on any query: `None` on the queries that it does not accept,
/// where the server fails the request without calling the service.
pub fn try_index_comment_event(query: &str) -> (r: Option<ApiCall>)
    ensures
        yields(r, thread_comments(query_pairs(query@), query@,
            "https://music.163.com/weapi/v1/resource/comments/"@, "threadId"@)),
{
    thread_comments_call(query, "https://music.163.com/weapi/v1/resource/comments/", "threadId")
}

/// `/comment/event`: comments on event thread `threadId` (needed).
pub fn index_comment_event(query: &str) -> (c: ApiCall)
    requires
        thread_comments(query_pairs(query@), query@,
            "https://music.163.com/weapi/v1/resource/comments/"@, "threadId"@) is Some,
    ensures
        Some(c@) == thread_comments(query_pairs(query@), query@,
            "https://music.163.com/weapi/v1/resource/comments/"@, "threadId"@),
{
    try_index_comment_event(query).unwrap()
}

/// `index_comment_music` on any query: `None` on the queries that it does not accept,
/// where the server fails the request without calling the service.
pub fn try_index_comment_music(query: &str) -> (r: Option<ApiCall>)
    ensures
        yields(r, thread_comments(query_pairs(query@), query@,
            "https://music.163.com/api/v1/resource/comments/R_SO_4_"@, "id"@)),
{
    thread_comments_call(query, "https://music.163.com/api/v1/resource/comments/R_SO_4_", "id")
}

/// `/comment/music`: comments on song `id` (needed).
pub fn index_comment_music(query: &str) -> (c: ApiCall)
    requires
        thread_comments(query_pairs(query@), query@,
            "https://music.163.com/api/v1/resource/comments/R_SO_4_"@, "id"@) is Some,
    ensures
        Some(c@) == thread_comments(query_pairs(query@), query@,
            "https://music.163.com/api/v1/resource/comments/R_SO_4_"@, "id"@),
{
    try_index_comment_music(query).unwrap()
}

/// `index_comment_mv` on any query: `None` on the queries that it does not accept,
/// where the server fails the request without calling the service.
pub fn try_index_comment_mv(query: &str) -> (r: Option<ApiCall>)
    ensures
        yields(r, thread_comments(query_pairs(query@), query@,
            "https://music.163.com/weapi/v1/resource/comments/R_MV_5_"@, "id"@)),
{
    thread_comments_call(query, "https://music.163.com/weapi/v1/resource/comments/R_MV_5_", "id")
}

/// `/comment/mv`: comments on video `id` (needed).
pub fn index_comment_mv(query: &str) -> (c: ApiCall)
    requires
        thread_comments(query_pairs(query@), query@,
            "https://music.163.com/weapi/v1/resource/comments/R_MV_5_"@, "id"@) is Some,
    ensures
        Some(c@) == thread_comments(query_pairs(query@), query@,
            "https://music.163.com/weapi/v1/resource/comments/R_MV_5_"@, "id"@),
{
    try_index_comment_mv(query).unwrap()
}

/// `index_comment_playlist` on any query: `None` on the queries that it does not accept,
/// where the server fails the request without calling the service.
pub fn try_index_comment_playlist(query: &str) -> (r: Option<ApiCall>)
    ensures
        yields(r, thread_comments(query_pairs(query@), query@,
            "https://music.163.com/weapi/v1/resource/comments/A_PL_0_"@, "id"@)),
{
    thread_comments_call(query, "https://music.163.com/weapi/v1/resource/comments/A_PL_0_", "id")
}

/// `/comment/playlist`: comments on playlist `id` (needed).
pub fn index_comment_playlist(query: &str) -> (c: ApiCall)
    requires
        thread_comments(query_pairs(query@), query@,
            "https://music.163.com/weapi/v1/resource/comments/A_PL_0_"@, "id"@) is Some,
    ensures
        Some(c@) == thread_comments(query_pairs(query@), query@,
            "https://music.163.com/weapi/v1/resource/comments/A_PL_0_"@, "id"@),
{
    try_index_comment_playlist(query).unwrap()
}

/// `index_comment_video` on any query: `None` on the queries that it does not accept,
/// where the server fails the request without calling the service.
pub fn try_index_comment_video(query: &str) -> (r: Option<ApiCall>)
    ensures
        yields(r, thread_comments(query_pairs(query@), query@,
            "https://music.163.com/weapi/v1/resource/comments/R_VI_62_"@, "id"@)),
{
    thread_comments_call(query, "https://music.163.com/weapi/v1/resource/comments/R_VI_62_", "id")
}

/// `/comment/video`: comments on clip `id` (needed).
pub fn index_comment_video(query: &str) -> (c: ApiCall)
    requires
        thread_comments(query_pairs(query@), query@,
            "https://music.163.com/weapi/v1/resource/comments/R_VI_62_"@, "id"@) is Some,
    ensures
        Some(c@) == thread_comments(query_pairs(query@), query@,
            "https://music.163.com/weapi/v1/resource/comments/R_VI_62_"@, "id"@),
{
    try_index_comment_video(query).unwrap()
}

/// The call of `/comment/hot`: a page of 20 hot comments before
/// `beforeTime` (0) of resource `id` of type `type` (both needed; the type a
/// number below 7, 0 where it is not a number).
pub open spec fn comment_hot_call(q: Seq<(Seq<char>, Seq<char>)>) -> Option<ApiCallView> {
    match table_index(q, "type"@, 7) {
        None => None,
        Some(ri) => match lookup(q, "id"@) {
            None => None,
            Some(id) => Some(
                post_view(
                    "weapi"@,
                    "https://music.163.com/weapi/v1/resource/hotcomments/"@ + RESOURCE_TYPES[ri]@
                        + id,
                    query_json(
                        "rid="@ + id + "&limit="@ + value_or(q, "limit"@, "20"@) + "&offset="@
                            + value_or(q, "offset"@, "0"@) + "&beforeTime="@ + value_or(
                            q,
                            "beforeTime"@,
                            "0"@,
                        ),
                    ),
                ),
            ),
        },
    }
}

/// `index_comment_hot` on any query: `None` on the queries that it does not accept,
/// where the server fails the request without calling the service.
pub fn try_index_comment_hot(query: &str) -> (r: Option<ApiCall>)
    ensures
        yields(r, comment_hot_call(query_pairs(query@))),
{
    let q = Query::parse(query);
    let ri = match table_index_of(&q, "type", 7) {
        Some(i) => i,
        None => return None,
    };
    let id = match q.value("id") { Some(v) => v, None => return None };
    let mut url = concat("https://music.163.com/weapi/v1/resource/hotcomments/", RESOURCE_TYPES[ri]);
    url.append(id.as_str());
    let limit = q.value_or("limit", "20");
    let offset = q.value_or("offset", "0");
    let before = q.value_or("beforeTime", "0");
    let mut s = concat("rid=", id.as_str());
    s.append("&limit=");
    s.append(limit.as_str());
    s.append("&offset=");
    s.append(offset.as_str());
    s.append("&beforeTime=");
    s.append(before.as_str());
    let info = json_of_query(s.as_str());
    Some(post("weapi", url.as_str(), info.as_str()))
}

/// `/comment/hot`: see `comment_hot_call`.
pub fn index_comment_hot(query: &str) -> (c: ApiCall)
    requires
        comment_hot_call(query_pairs(query@)) is Some,
    ensures
        Some(c@) == comment_hot_call(query_pairs(query@)),
{
    try_index_comment_hot(query).unwrap()
}

/// `/comment/hotwall/list`
pub fn index_comment_hotwall_list() -> (c: ApiCall)
    ensures
        c@ == post_view("weapi"@, "https://music.163.com/api/comment/hotwall/list/get"@, "{}"@),
{
    post("weapi", "https://music.163.com/api/comment/hotwall/list/get", "{}")
}

/// The call of `/comment/like`: operation `t` (needed) on comment `cid`
/// (needed) of the thread of resource `type` (needed, a number below 7).
/// Event threads are recognised by the type `A_EV_2`, which no type equals.
pub open spec fn comment_like_call(q: Seq<(Seq<char>, Seq<char>)>) -> Option<ApiCallView> {
    match lookup(q, "t"@) {
        None => None,
        Some(t) => match table_index(q, "type"@, 7) {
            None => None,
            Some(ri) => match thread_id(q, RESOURCE_TYPES[ri]@, "A_EV_2"@) {
                None => None,
                Some(thread) => match lookup(q, "cid"@) {
                    None => None,
                    Some(cid) => Some(
                        post_view(
                            "weapi"@,
                            "https://music.163.com/weapi/v1/comment/"@ + t,
                            query_json("threadId="@ + thread + "&commentId="@ + cid),
                        ),
                    ),
                },
            },
        },
    }
}

/// `index_comment_like` on any query: `None` on the queries that it does not accept,
/// where the server fails the request without calling the service.
pub fn try_index_comment_like(query: &str) -> (r: Option<ApiCall>)
    ensures
        yields(r, comment_like_call(query_pairs(query@))),
{
    let q = Query::parse(query);
    let t = match q.value("t") { Some(v) => v, None => return None };
    let url = concat("https://music.163.com/weapi/v1/comment/", t.as_str());
    let ri = match table_index_of(&q, "type", 7) {
        Some(i) => i,
        None => return None,
    };
    let thread = match thread_id_of(&q, RESOURCE_TYPES[ri], "A_EV_2") {
        Some(t) => t,
        None => return None,
    };
    let cid = match q.value("cid") { Some(v) => v, None => return None };
    let mut s = concat("threadId=", thread.as_str());
    s.append("&commentId=");
    s.append(cid.as_str());
    let info = json_of_query(s.as_str());
    Some(post("weapi", url.as_str(), info.as_str()))
}

/// `/comment/like`: see `comment_like_call`.
pub fn index_comment_like(query: &str) -> (c: ApiCall)
    requires
        comment_like_call(query_pairs(query@)) is Some,
    ensures
        Some(c@) == comment_like_call(query_pairs(query@)),
{
    try_index_comment_like(query).unwrap()
}

/// The call of `/resource/like`: likes (`t=1`) or unlikes a resource, as a
/// desktop browser. The resource type is read from `t` as well (needed; a
/// number below 7, 0 where it is not one).
pub open spec fn resource_like_call(q: Seq<(Seq<char>, Seq<char>)>) -> Option<ApiCallView> {
    let action = if value_or(q, "t"@, "0"@) == "1"@ { "like"@ } else { "unlike"@ };
    match table_index(q, "t"@, 7) {
        None => None,
        Some(ri) => match thread_id(q, RESOURCE_TYPES[ri]@, "A_EV_2_"@) {
            None => None,
            Some(thread) => Some(
                call_view(
                    "POST"@,
                    "pc"@,
                    "weapi"@,
                    "https://music.163.com/weapi/resource/"@ + action,
                    query_json("threadId="@ + thread),
                ),
            ),
        },
    }
}

/// `index_resource_like` on any query: `None` on the queries that it does not accept,
/// where the server fails the request without calling the service.
pub fn try_index_resource_like(query: &str) -> (r: Option<ApiCall>)
    ensures
        yields(r, resource_like_call(query_pairs(query@))),
{
    let q = Query::parse(query);
    let action = if str_eq(q.value_or("t", "0").as_str(), "1") { "like" } else { "unlike" };
    let url = concat("https://music.163.com/weapi/resource/", action);
    let ri = match table_index_of(&q, "t", 7) {
        Some(i) => i,
        None => return None,
    };
    let thread = match thread_id_of(&q, RESOURCE_TYPES[ri], "A_EV_2_") {
        Some(t) => t,
        None => return None,
    };
    let info = json_of_query(concat("threadId=", thread.as_str()).as_str());
    Some(ApiCall::new("POST", "pc", "weapi", url.as_str(), info.as_str()))
}

/// `/resource/like`: see `resource_like_call`.
pub fn index_resource_like(query: &str) -> (c: ApiCall)
    requires
        resource_like_call(query_pairs(query@)) is Some,
    ensures
        Some(c@) == resource_like_call(query_pairs(query@)),
{
    try_index_resource_like(query).unwrap()
}

} // verus!
