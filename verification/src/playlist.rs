//! Endpoints about playlists.

use vstd::prelude::*;
use crate::calls::{call_view, concat, gives, present, post, post_query, post_renamed, post_view, val};
use crate::query::{json_of_query, json_text, query_json, query_pairs, rename_key, value_or, Query};
use crate::request::ApiCall;
use crate::text::str_eq;

verus! {

/// `/playlist/catlist`: no parameters.
pub fn index_playlist_catlist() -> (c: ApiCall)
    ensures
        c@ == post_view("weapi"@, "https://music.163.com/weapi/playlist/catalogue"@, "{}"@),
{
    post("weapi", "https://music.163.com/weapi/playlist/catalogue", "{}")
}

/// `/playlist/create`: the query passed on.
pub fn index_playlist_create(query: &str) -> (c: ApiCall)
    ensures
        c@ == post_view("weapi"@, "https://music.163.com/weapi/playlist/create"@, query_json(query@)),
{
    post_query("weapi", "https://music.163.com/weapi/playlist/create", query)
}

/// `/playlist/delete`: the query passed on, with `id` renamed `pid`.
pub fn index_playlist_delete(query: &str) -> (c: ApiCall)
    ensures
        c@ == post_view(
            "weapi"@,
            "https://music.163.com/weapi/playlist/delete"@,
            json_text(rename_key(query_pairs(query@), "id"@, "pid"@)),
        ),
{
    post_renamed("weapi", "https://music.163.com/weapi/playlist/delete", query, "id", "pid")
}

/// `/playlist/desc/update`: the query passed on.
pub fn index_playlist_desc_update(query: &str) -> (c: ApiCall)
    ensures
        c@ == post_view("eapi"@, "http://interface3.music.163.com/eapi/playlist/desc/update"@, query_json(query@)),
{
    post_query("eapi", "http://interface3.music.163.com/eapi/playlist/desc/update", query)
}

/// `index_playlist_detail` on any query: `None` on the queries that it does not accept,
/// where the server fails the request without calling the service.
pub fn try_index_playlist_detail(query: &str) -> (r: Option<ApiCall>)
    ensures
        ({
            let q = query_pairs(query@);
            if present(q, "id"@) {
                gives(
                    r,
                    post_view(
                        "linuxapi"@,
                        "https://music.163.com/weapi/v3/playlist/detail"@,
                        query_json("id="@ + val(q, "id"@) + "&n=100000&s="@ + value_or(q, "s"@, "8"@)),
                    ),
                )
            } else {
                r is None
            }
        }),
{
    let q = Query::parse(query);
    let id = match q.value("id") { Some(v) => v, None => return None };
    let subs = q.value_or("s", "8");
    let mut s = concat("id=", id.as_str());
    s.append("&n=100000&s=");
    s.append(subs.as_str());
    let info = json_of_query(s.as_str());
    Some(post("linuxapi", "https://music.163.com/weapi/v3/playlist/detail", info.as_str()))
}

/// `/playlist/detail`: playlist `id` (needed) with up to 100000 tracks and
/// `s` (8) recent subscribers, through the Linux client API.
pub fn index_playlist_detail(query: &str) -> (c: ApiCall)
    requires
        ({
            let q = query_pairs(query@);
            present(q, "id"@)
        }),
    ensures
        ({
            let q = query_pairs(query@);
            c@ == post_view(
                        "linuxapi"@,
                        "https://music.163.com/weapi/v3/playlist/detail"@,
                        query_json("id="@ + val(q, "id"@) + "&n=100000&s="@ + value_or(q, "s"@, "8"@)),
                    )
        }),
{
    try_index_playlist_detail(query).unwrap()
}

/// `/playlist/hot`: no parameters.
pub fn index_playlist_hot() -> (c: ApiCall)
    ensures
        c@ == post_view("weapi"@, "https://music.163.com/weapi/playlist/hottags"@, "{}"@),
{
    post("weapi", "https://music.163.com/weapi/playlist/hottags", "{}")
}

/// `/playlist/name/update`: the query passed on.
pub fn index_playlist_name_update(query: &str) -> (c: ApiCall)
    ensures
        c@ == post_view("eapi"@, "http://interface3.music.163.com/eapi/playlist/update/name"@, query_json(query@)),
{
    post_query("eapi", "http://interface3.music.163.com/eapi/playlist/update/name", query)
}

/// `index_playlist_subscribe` on any query: `None` on the queries that it does not accept,
/// where the server fails the request without calling the service.
pub fn try_index_playlist_subscribe(query: &str) -> (r: Option<ApiCall>)
    ensures
        ({
            let q = query_pairs(query@);
            let t = if value_or(q, "t"@, "0"@) == "1"@ { "subscribe"@ } else { "unsubscribe"@ };
            if present(q, "id"@) {
                gives(
                    r,
                    post_view(
                        "weapi"@,
                        "https://music.163.com/weapi/playlist/"@ + t,
                        query_json("id="@ + val(q, "id"@)),
                    ),
                )
            } else {
                r is None
            }
        }),
{
    let q = Query::parse(query);
    let t = if str_eq(q.value_or("t", "0").as_str(), "1") { "subscribe" } else { "unsubscribe" };
    let url = concat("https://music.163.com/weapi/playlist/", t);
    let id = match q.value("id") { Some(v) => v, None => return None };
    let info = json_of_query(concat("id=", id.as_str()).as_str());
    Some(post("weapi", url.as_str(), info.as_str()))
}

/// `/playlist/subscribe`: subscribes to (`t=1`) or leaves (otherwise)
/// playlist `id` (needed).
pub fn index_playlist_subscribe(query: &str) -> (c: ApiCall)
    requires
        ({
            let q = query_pairs(query@);
            let t = if value_or(q, "t"@, "0"@) == "1"@ { "subscribe"@ } else { "unsubscribe"@ };
            present(q, "id"@)
        }),
    ensures
        ({
            let q = query_pairs(query@);
            let t = if value_or(q, "t"@, "0"@) == "1"@ { "subscribe"@ } else { "unsubscribe"@ };
            c@ == post_view(
                        "weapi"@,
                        "https://music.163.com/weapi/playlist/"@ + t,
                        query_json("id="@ + val(q, "id"@)),
                    )
        }),
{
    try_index_playlist_subscribe(query).unwrap()
}

/// `/playlist/subscribers`: the query passed on.
pub fn index_playlist_subscribers(query: &str) -> (c: ApiCall)
    ensures
        c@ == post_view("eapi"@, "https://music.163.com/weapi/playlist/subscribers"@, query_json(query@)),
{
    post_query("eapi", "https://music.163.com/weapi/playlist/subscribers", query)
}

/// `/playlist/tags/update`: the query passed on.
pub fn index_playlist_tags_update(query: &str) -> (c: ApiCall)
    ensures
        c@ == post_view("eapi"@, "http://interface3.music.163.com/eapi/playlist/tags/update"@, query_json(query@)),
{
    post_query("eapi", "http://interface3.music.163.com/eapi/playlist/tags/update", query)
}

/// `index_playlist_tracks` on any query: `None` on the queries that it does not accept,
/// where the server fails the request without calling the service.
pub fn try_index_playlist_tracks(query: &str) -> (r: Option<ApiCall>)
    ensures
        ({
            let q = query_pairs(query@);
            if present(q, "op"@) && present(q, "pid"@) && present(q, "tracks"@) {
                gives(
                    r,
                    post_view(
                        "eapi"@,
                        "https://music.163.com/weapi/playlist/manipulate/tracks"@,
                        query_json(
                            "op="@ + val(q, "op"@) + "&pid="@ + val(q, "pid"@) + "&trackIds=["@
                                + val(q, "tracks"@) + "]"@,
                        ),
                    ),
                )
            } else {
                r is None
            }
        }),
{
    let q = Query::parse(query);
    let op = match q.value("op") { Some(v) => v, None => return None };
    let pid = match q.value("pid") { Some(v) => v, None => return None };
    let tracks = match q.value("tracks") { Some(v) => v, None => return None };
    let mut s = concat("op=", op.as_str());
    s.append("&pid=");
    s.append(pid.as_str());
    s.append("&trackIds=[");
    s.append(tracks.as_str());
    s.append("]");
    let info = json_of_query(s.as_str());
    Some(post("eapi", "https://music.163.com/weapi/playlist/manipulate/tracks", info.as_str()))
}

/// `/playlist/tracks`: operation `op` on tracks `tracks` of playlist `pid`,
/// all three needed.
pub fn index_playlist_tracks(query: &str) -> (c: ApiCall)
    requires
        ({
            let q = query_pairs(query@);
            present(q, "op"@) && present(q, "pid"@) && present(q, "tracks"@)
        }),
    ensures
        ({
            let q = query_pairs(query@);
            c@ == post_view(
                        "eapi"@,
                        "https://music.163.com/weapi/playlist/manipulate/tracks"@,
                        query_json(
                            "op="@ + val(q, "op"@) + "&pid="@ + val(q, "pid"@) + "&trackIds=["@
                                + val(q, "tracks"@) + "]"@,
                        ),
                    )
        }),
{
    try_index_playlist_tracks(query).unwrap()
}

/// One update of a batch: `{"id":<id>,"<field>":"<value>"}`.
pub open spec fn field_update(id: Seq<char>, field: Seq<char>, value: Seq<char>) -> Seq<char> {
    "{\"id\":"@ + id + ",\""@ + field + "\":\""@ + value + "\"}"@
}

fn field_update_string(id: &str, field: &str, value: &str) -> (s: String)
    ensures
        s@ == field_update(id@, field@, value@),
{
    let mut s = concat("{\"id\":", id);
    s.append(",\"");
    s.append(field);
    s.append("\":\"");
    s.append(value);
    s.append("\"}");
    s
}

/// `index_playlist_update` on any query: `None` on the queries that it does not accept,
/// where the server fails the request without calling the service.
pub fn try_index_playlist_update(query: &str) -> (r: Option<ApiCall>)
    ensures
        ({
            let q = query_pairs(query@);
            let id = val(q, "id"@);
            if present(q, "id"@) && present(q, "name"@) {
                gives(
                    r,
                    post_view(
                        "weapi"@,
                        "https://music.163.com/weapi/batch"@,
                        query_json(
                            "/api/playlist/desc/update="@ + field_update(
                                id,
                                "desc"@,
                                value_or(q, "desc"@, ""@),
                            ) + "&/api/playlist/tags/update="@ + field_update(
                                id,
                                "tags"@,
                                value_or(q, "tags"@, ""@),
                            ) + "&/api/playlist/update/name="@ + field_update(
                                id,
                                "name"@,
                                val(q, "name"@),
                            ),
                        ),
                    ),
                )
            } else {
                r is None
            }
        }),
{
    let q = Query::parse(query);
    let desc = q.value_or("desc", "");
    let tags = q.value_or("tags", "");
    let id = match q.value("id") { Some(v) => v, None => return None };
    let name = match q.value("name") { Some(v) => v, None => return None };
    let desc_update = field_update_string(id.as_str(), "desc", desc.as_str());
    let tags_update = field_update_string(id.as_str(), "tags", tags.as_str());
    let name_update = field_update_string(id.as_str(), "name", name.as_str());
    let mut s = concat("/api/playlist/desc/update=", desc_update.as_str());
    s.append("&/api/playlist/tags/update=");
    s.append(tags_update.as_str());
    s.append("&/api/playlist/update/name=");
    s.append(name_update.as_str());
    let info = json_of_query(s.as_str());
    Some(post("weapi", "https://music.163.com/weapi/batch", info.as_str()))
}

/// `/playlist/update`: a batch of three updates of playlist `id` (needed):
/// its description `desc` (empty), its tags `tags` (empty) and its name
/// `name` (needed).
pub fn index_playlist_update(query: &str) -> (c: ApiCall)
    requires
        ({
            let q = query_pairs(query@);
            let id = val(q, "id"@);
            present(q, "id"@) && present(q, "name"@)
        }),
    ensures
        ({
            let q = query_pairs(query@);
            let id = val(q, "id"@);
            c@ == post_view(
                        "weapi"@,
                        "https://music.163.com/weapi/batch"@,
                        query_json(
                            "/api/playlist/desc/update="@ + field_update(
                                id,
                                "desc"@,
                                value_or(q, "desc"@, ""@),
                            ) + "&/api/playlist/tags/update="@ + field_update(
                                id,
                                "tags"@,
                                value_or(q, "tags"@, ""@),
                            ) + "&/api/playlist/update/name="@ + field_update(
                                id,
                                "name"@,
                                val(q, "name"@),
                            ),
                        ),
                    )
        }),
{
    try_index_playlist_update(query).unwrap()
}

/// `index_playmode_interlligence_list` on any query: `None` on the queries that it does not accept,
/// where the server fails the request without calling the service.
pub fn try_index_playmode_interlligence_list(query: &str) -> (r: Option<ApiCall>)
    ensures
        ({
            let q = query_pairs(query@);
            if present(q, "id"@) && present(q, "pid"@) {
                gives(
                    r,
                    post_view(
                        "weapi"@,
                        "http://music.163.com/weapi/playmode/intelligence/list"@,
                        query_json(
                            "songId="@ + val(q, "id"@) + "&type=fromPlayOne&playlistId="@ + val(
                                q,
                                "pid"@,
                            ) + "&startMusicId="@ + value_or(q, "sid"@, val(q, "id"@)) + "&count="@
                                + value_or(q, "count"@, "1"@),
                        ),
                    ),
                )
            } else {
                r is None
            }
        }),
{
    let q = Query::parse(query);
    let song = match q.value("id") { Some(v) => v, None => return None };
    let playlist = match q.value("pid") { Some(v) => v, None => return None };
    let start = q.value_or("sid", song.as_str());
    let count = q.value_or("count", "1");
    let mut s = concat("songId=", song.as_str());
    s.append("&type=fromPlayOne&playlistId=");
    s.append(playlist.as_str());
    s.append("&startMusicId=");
    s.append(start.as_str());
    s.append("&count=");
    s.append(count.as_str());
    let info = json_of_query(s.as_str());
    Some(post("weapi", "http://music.163.com/weapi/playmode/intelligence/list", info.as_str()))
}

/// `/playmode/intelligence/list`: the intelligent play mode from song `id`
/// of playlist `pid` (both needed), starting at song `sid` (the same song by
/// default), `count` (1) songs.
pub fn index_playmode_interlligence_list(query: &str) -> (c: ApiCall)
    requires
        ({
            let q = query_pairs(query@);
            present(q, "id"@) && present(q, "pid"@)
        }),
    ensures
        ({
            let q = query_pairs(query@);
            c@ == post_view(
                        "weapi"@,
                        "http://music.163.com/weapi/playmode/intelligence/list"@,
                        query_json(
                            "songId="@ + val(q, "id"@) + "&type=fromPlayOne&playlistId="@ + val(
                                q,
                                "pid"@,
                            ) + "&startMusicId="@ + value_or(q, "sid"@, val(q, "id"@)) + "&count="@
                                + value_or(q, "count"@, "1"@),
                        ),
                    )
        }),
{
    try_index_playmode_interlligence_list(query).unwrap()
}

/// `index_related_playlist` on any query: `None` on the queries that it does not accept,
/// where the server fails the request without calling the service.
pub fn try_index_related_playlist(query: &str) -> (r: Option<ApiCall>)
    ensures
        ({
            let q = query_pairs(query@);
            if present(q, "id"@) {
                gives(
                    r,
                    call_view(
                        "POST"@,
                        "pc"@,
                        "weapi"@,
                        "https://music.163.com/playlist?id="@ + val(q, "id"@),
                        "{}"@,
                    ),
                )
            } else {
                r is None
            }
        }),
{
    let q = Query::parse(query);
    let id = match q.value("id") { Some(v) => v, None => return None };
    let url = concat("https://music.163.com/playlist?id=", id.as_str());
    Some(ApiCall::new("POST", "pc", "weapi", url.as_str(), "{}"))
}

/// `/related/playlist`: the page of playlist `id` (needed), as a desktop
/// browser.
pub fn index_related_playlist(query: &str) -> (c: ApiCall)
    requires
        ({
            let q = query_pairs(query@);
            present(q, "id"@)
        }),
    ensures
        ({
            let q = query_pairs(query@);
            c@ == call_view(
                        "POST"@,
                        "pc"@,
                        "weapi"@,
                        "https://music.163.com/playlist?id="@ + val(q, "id"@),
                        "{}"@,
                    )
        }),
{
    try_index_related_playlist(query).unwrap()
}

} // verus!
