//! Endpoints about messages, searching, sharing and similar items.

use vstd::prelude::*;
use crate::calls::{concat, gives, present, post, post_query, post_renamed, post_view, val};
use crate::query::{json_of_query, json_text, query_json, query_pairs, rename_key, value_or, Query};
use crate::request::ApiCall;
use crate::text::str_eq;

verus! {

/// `index_msg_comments` on any query: `None` on the queries that it does not accept,
/// where the server fails the request without calling the service.
pub fn try_index_msg_comments(query: &str) -> (r: Option<ApiCall>)
    ensures
        ({
            let q = query_pairs(query@);
            if present(q, "uid"@) {
                gives(
                    r,
                    post_view(
                        "weapi"@,
                        "https://music.163.com/api/v1/user/comments/"@ + val(q, "uid"@) + ")"@,
                        query_json(
                            "beforeTime="@ + value_or(q, "before"@, "-1"@) + "&limit="@ + value_or(
                                q,
                                "limit"@,
                                "30"@,
                            ) + "&total=true&uid="@ + val(q, "uid"@),
                        ),
                    ),
                )
            } else {
                r is None
            }
        }),
{
    let q = Query::parse(query);
    let uid = match q.value("uid") { Some(v) => v, None => return None };
    let mut url = concat("https://music.163.com/api/v1/user/comments/", uid.as_str());
    url.append(")");
    let before = q.value_or("before", "-1");
    let limit = q.value_or("limit", "30");
    let mut s = concat("beforeTime=", before.as_str());
    s.append("&limit=");
    s.append(limit.as_str());
    s.append("&total=true&uid=");
    s.append(uid.as_str());
    let info = json_of_query(s.as_str());
    Some(post("weapi", url.as_str(), info.as_str()))
}

/// `/msg/comments`: a page of 30 comments of user `uid` (needed) before
/// `before` (-1); the address ends in a stray `)`.
pub fn index_msg_comments(query: &str) -> (c: ApiCall)
    requires
        ({
            let q = query_pairs(query@);
            present(q, "uid"@)
        }),
    ensures
        ({
            let q = query_pairs(query@);
            c@ == post_view(
                        "weapi"@,
                        "https://music.163.com/api/v1/user/comments/"@ + val(q, "uid"@) + ")"@,
                        query_json(
                            "beforeTime="@ + value_or(q, "before"@, "-1"@) + "&limit="@ + value_or(
                                q,
                                "limit"@,
                                "30"@,
                            ) + "&total=true&uid="@ + val(q, "uid"@),
                        ),
                    )
        }),
{
    try_index_msg_comments(query).unwrap()
}

/// `/msg/forwards`: the query passed on.
pub fn index_msg_forwards(query: &str) -> (c: ApiCall)
    ensures
        c@ == post_view("weapi"@, "https://music.163.com/api/forwards/get"@, query_json(query@)),
{
    post_query("weapi", "https://music.163.com/api/forwards/get", query)
}

/// `/msg/notices`: the query passed on.
pub fn index_msg_notices(query: &str) -> (c: ApiCall)
    ensures
        c@ == post_view("weapi"@, "https://music.163.com/api/msg/notices"@, query_json(query@)),
{
    post_query("weapi", "https://music.163.com/api/msg/notices", query)
}

/// `/msg/private`: the query passed on.
pub fn index_msg_private(query: &str) -> (c: ApiCall)
    ensures
        c@ == post_view("weapi"@, "https://music.163.com/api/msg/private/users"@, query_json(query@)),
{
    post_query("weapi", "https://music.163.com/api/msg/private/users", query)
}

/// `/msg/private/history`: the query passed on, with `uid` renamed `userId`
/// and `before` renamed `time`.
pub fn index_msg_private_history(query: &str) -> (c: ApiCall)
    ensures
        c@ == post_view(
            "weapi"@,
            "https://music.163.com/api/msg/private/history"@,
            json_text(
                rename_key(rename_key(query_pairs(query@), "uid"@, "userId"@), "before"@, "time"@),
            ),
        ),
{
    let q = Query::parse(query).replace_key("uid", "userId").replace_key("before", "time");
    let info = q.json();
    post("weapi", "https://music.163.com/api/msg/private/history", info.as_str())
}

/// `index_search` on any query: `None` on the queries that it does not accept,
/// where the server fails the request without calling the service.
pub fn try_index_search(query: &str) -> (r: Option<ApiCall>)
    ensures
        ({
            let q = query_pairs(query@);
            if present(q, "keywords"@) {
                gives(
                    r,
                    post_view(
                        "weapi"@,
                        "https://music.163.com/weapi/search/get"@,
                        query_json(
                            "s="@ + val(q, "keywords"@) + "&type="@ + value_or(q, "type"@, "1"@)
                                + "&limit="@ + value_or(q, "limit"@, "30"@) + "&offset="@
                                + value_or(q, "offset"@, "0"@),
                        ),
                    ),
                )
            } else {
                r is None
            }
        }),
{
    let q = Query::parse(query);
    let keywords = match q.value("keywords") { Some(v) => v, None => return None };
    let kind = q.value_or("type", "1");
    let limit = q.value_or("limit", "30");
    let offset = q.value_or("offset", "0");
    let mut s = concat("s=", keywords.as_str());
    s.append("&type=");
    s.append(kind.as_str());
    s.append("&limit=");
    s.append(limit.as_str());
    s.append("&offset=");
    s.append(offset.as_str());
    let info = json_of_query(s.as_str());
    Some(post("weapi", "https://music.163.com/weapi/search/get", info.as_str()))
}

/// `/search`: a page of 30 results of type `type` (1) for `keywords` (needed).
pub fn index_search(query: &str) -> (c: ApiCall)
    requires
        ({
            let q = query_pairs(query@);
            present(q, "keywords"@)
        }),
    ensures
        ({
            let q = query_pairs(query@);
            c@ == post_view(
                        "weapi"@,
                        "https://music.163.com/weapi/search/get"@,
                        query_json(
                            "s="@ + val(q, "keywords"@) + "&type="@ + value_or(q, "type"@, "1"@)
                                + "&limit="@ + value_or(q, "limit"@, "30"@) + "&offset="@
                                + value_or(q, "offset"@, "0"@),
                        ),
                    )
        }),
{
    try_index_search(query).unwrap()
}

/// `/search/default`: no parameters.
pub fn index_search_default() -> (c: ApiCall)
    ensures
        c@ == post_view("eapi"@, "http://interface3.music.163.com/eapi/search/defaultkeyword/get"@, "{}"@),
{
    post("eapi", "http://interface3.music.163.com/eapi/search/defaultkeyword/get", "{}")
}

/// `/search/hot`: the fixed text `{{"type":1111}}`, with its braces doubled.
pub fn index_search_hot() -> (c: ApiCall)
    ensures
        c@ == post_view("weapi"@, "https://music.163.com/weapi/search/hot"@, "{{\"type\":1111}}"@),
{
    post("weapi", "https://music.163.com/weapi/search/hot", "{{\"type\":1111}}")
}

/// `/search/hot/detail`: no parameters.
pub fn index_search_hot_detail() -> (c: ApiCall)
    ensures
        c@ == post_view("weapi"@, "https://music.163.com/weapi/hotsearchlist/get"@, "{}"@),
{
    post("weapi", "https://music.163.com/weapi/hotsearchlist/get", "{}")
}

/// `/search/multimatch`: the query passed on, with `keywords` renamed `s`.
pub fn index_search_multimatch(query: &str) -> (c: ApiCall)
    ensures
        c@ == post_view(
            "weapi"@,
            "https://music.163.com/weapi/search/suggest/multimatch"@,
            json_text(rename_key(query_pairs(query@), "keywords"@, "s"@)),
        ),
{
    post_renamed("weapi", "https://music.163.com/weapi/search/suggest/multimatch", query, "keywords", "s")
}

/// `index_search_suggest` on any query: `None` on the queries that it does not accept,
/// where the server fails the request without calling the service.
pub fn try_index_search_suggest(query: &str) -> (r: Option<ApiCall>)
    ensures
        ({
            let q = query_pairs(query@);
            let kind = if value_or(q, "type"@, "web"@) == "mobile"@ { "keyword"@ } else { "web"@ };
            if present(q, "keywords"@) {
                gives(
                    r,
                    post_view(
                        "weapi"@,
                        "https://music.163.com/weapi/search/suggest/"@ + kind,
                        query_json("s="@ + val(q, "keywords"@)),
                    ),
                )
            } else {
                r is None
            }
        }),
{
    let q = Query::parse(query);
    let kind = if str_eq(q.value_or("type", "web").as_str(), "mobile") { "keyword" } else { "web" };
    let url = concat("https://music.163.com/weapi/search/suggest/", kind);
    let keywords = match q.value("keywords") { Some(v) => v, None => return None };
    let info = json_of_query(concat("s=", keywords.as_str()).as_str());
    Some(post("weapi", url.as_str(), info.as_str()))
}

/// `/search/suggest`: suggestions for `keywords` (needed), for mobile
/// (`type=mobile`) or the web (otherwise).
pub fn index_search_suggest(query: &str) -> (c: ApiCall)
    requires
        ({
            let q = query_pairs(query@);
            let kind = if value_or(q, "type"@, "web"@) == "mobile"@ { "keyword"@ } else { "web"@ };
            present(q, "keywords"@)
        }),
    ensures
        ({
            let q = query_pairs(query@);
            let kind = if value_or(q, "type"@, "web"@) == "mobile"@ { "keyword"@ } else { "web"@ };
            c@ == post_view(
                        "weapi"@,
                        "https://music.163.com/weapi/search/suggest/"@ + kind,
                        query_json("s="@ + val(q, "keywords"@)),
                    )
        }),
{
    try_index_search_suggest(query).unwrap()
}

/// `index_send_playlist` on any query: `None` on the queries that it does not accept,
/// where the server fails the request without calling the service.
pub fn try_index_send_playlist(query: &str) -> (r: Option<ApiCall>)
    ensures
        ({
            let q = query_pairs(query@);
            if present(q, "playlist"@) && present(q, "msg"@) && present(q, "user_ids"@) {
                gives(
                    r,
                    post_view(
                        "weapi"@,
                        "https://music.163.com/weapi/msg/private/send"@,
                        query_json(
                            "id="@ + val(q, "playlist"@) + "&type=playlist&msg="@ + val(q, "msg"@)
                                + "&userIds=["@ + val(q, "user_ids"@) + "]"@,
                        ),
                    ),
                )
            } else {
                r is None
            }
        }),
{
    let q = Query::parse(query);
    let id = match q.value("playlist") { Some(v) => v, None => return None };
    let msg = match q.value("msg") { Some(v) => v, None => return None };
    let users = match q.value("user_ids") { Some(v) => v, None => return None };
    let mut s = concat("id=", id.as_str());
    s.append("&type=playlist&msg=");
    s.append(msg.as_str());
    s.append("&userIds=[");
    s.append(users.as_str());
    s.append("]");
    let info = json_of_query(s.as_str());
    Some(post("weapi", "https://music.163.com/weapi/msg/private/send", info.as_str()))
}

/// `/send/playlist`: sends playlist `playlist` with message `msg` to the
/// users `user_ids`, all three needed, as a message of type `playlist`.
pub fn index_send_playlist(query: &str) -> (c: ApiCall)
    requires
        ({
            let q = query_pairs(query@);
            present(q, "playlist"@) && present(q, "msg"@) && present(q, "user_ids"@)
        }),
    ensures
        ({
            let q = query_pairs(query@);
            c@ == post_view(
                        "weapi"@,
                        "https://music.163.com/weapi/msg/private/send"@,
                        query_json(
                            "id="@ + val(q, "playlist"@) + "&type=playlist&msg="@ + val(q, "msg"@)
                                + "&userIds=["@ + val(q, "user_ids"@) + "]"@,
                        ),
                    )
        }),
{
    try_index_send_playlist(query).unwrap()
}

/// `index_send_text` on any query: `None` on the queries that it does not accept,
/// where the server fails the request without calling the service.
pub fn try_index_send_text(query: &str) -> (r: Option<ApiCall>)
    ensures
        ({
            let q = query_pairs(query@);
            if present(q, "playlist"@) && present(q, "msg"@) && present(q, "user_ids"@) {
                gives(
                    r,
                    post_view(
                        "weapi"@,
                        "https://music.163.com/weapi/msg/private/send"@,
                        query_json(
                            "id="@ + val(q, "playlist"@) + "&type=text&msg="@ + val(q, "msg"@)
                                + "&userIds=["@ + val(q, "user_ids"@) + "]"@,
                        ),
                    ),
                )
            } else {
                r is None
            }
        }),
{
    let q = Query::parse(query);
    let id = match q.value("playlist") { Some(v) => v, None => return None };
    let msg = match q.value("msg") { Some(v) => v, None => return None };
    let users = match q.value("user_ids") { Some(v) => v, None => return None };
    let mut s = concat("id=", id.as_str());
    s.append("&type=text&msg=");
    s.append(msg.as_str());
    s.append("&userIds=[");
    s.append(users.as_str());
    s.append("]");
    let info = json_of_query(s.as_str());
    Some(post("weapi", "https://music.163.com/weapi/msg/private/send", info.as_str()))
}

/// `/send/text`: sends playlist `playlist` with message `msg` to the
/// users `user_ids`, all three needed, as a message of type `text`.
pub fn index_send_text(query: &str) -> (c: ApiCall)
    requires
        ({
            let q = query_pairs(query@);
            present(q, "playlist"@) && present(q, "msg"@) && present(q, "user_ids"@)
        }),
    ensures
        ({
            let q = query_pairs(query@);
            c@ == post_view(
                        "weapi"@,
                        "https://music.163.com/weapi/msg/private/send"@,
                        query_json(
                            "id="@ + val(q, "playlist"@) + "&type=text&msg="@ + val(q, "msg"@)
                                + "&userIds=["@ + val(q, "user_ids"@) + "]"@,
                        ),
                    )
        }),
{
    try_index_send_text(query).unwrap()
}

/// `/setting`: no parameters.
pub fn index_setting() -> (c: ApiCall)
    ensures
        c@ == post_view("weapi"@, "https://music.163.com/api/user/setting"@, "{}"@),
{
    post("weapi", "https://music.163.com/api/user/setting", "{}")
}

/// `/share/resource`: the query passed on.
pub fn index_share_resource(query: &str) -> (c: ApiCall)
    ensures
        c@ == post_view("weapi"@, "http://music.163.com/weapi/share/friends/resource"@, query_json(query@)),
{
    post_query("weapi", "http://music.163.com/weapi/share/friends/resource", query)
}

/// `/simi/artist`: the query passed on, with `id` renamed `artistid`.
pub fn index_simi_artist(query: &str) -> (c: ApiCall)
    ensures
        c@ == post_view(
            "weapi"@,
            "https://music.163.com/weapi/discovery/simiArtist"@,
            json_text(rename_key(query_pairs(query@), "id"@, "artistid"@)),
        ),
{
    post_renamed("weapi", "https://music.163.com/weapi/discovery/simiArtist", query, "id", "artistid")
}

/// `/simi/mv`: the query passed on.
pub fn index_simi_mv(query: &str) -> (c: ApiCall)
    ensures
        c@ == post_view("weapi"@, "https://music.163.com/weapi/discovery/simiMV"@, query_json(query@)),
{
    post_query("weapi", "https://music.163.com/weapi/discovery/simiMV", query)
}

/// `/simi/playlist`: the query passed on, with `id` renamed `songid`.
pub fn index_simi_playlist(query: &str) -> (c: ApiCall)
    ensures
        c@ == post_view(
            "weapi"@,
            "https://music.163.com/weapi/discovery/simiPlaylist"@,
            json_text(rename_key(query_pairs(query@), "id"@, "songid"@)),
        ),
{
    post_renamed("weapi", "https://music.163.com/weapi/discovery/simiPlaylist", query, "id", "songid")
}

/// `/simi/song`: the query passed on, with `id` renamed `songid`.
pub fn index_simi_song(query: &str) -> (c: ApiCall)
    ensures
        c@ == post_view(
            "weapi"@,
            "https://music.163.com/weapi/v1/discovery/simiSong"@,
            json_text(rename_key(query_pairs(query@), "id"@, "songid"@)),
        ),
{
    post_renamed("weapi", "https://music.163.com/weapi/v1/discovery/simiSong", query, "id", "songid")
}

/// `/simi/user`: the query passed on, with `id` renamed `songid`.
pub fn index_simi_user(query: &str) -> (c: ApiCall)
    ensures
        c@ == post_view(
            "weapi"@,
            "https://music.163.com/weapi/discovery/simiUser"@,
            json_text(rename_key(query_pairs(query@), "id"@, "songid"@)),
        ),
{
    post_renamed("weapi", "https://music.163.com/weapi/discovery/simiUser", query, "id", "songid")
}

} // verus!
