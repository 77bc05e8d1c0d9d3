//! Endpoints about albums, artists and banners.

use vstd::prelude::*;
use crate::calls::{concat, gives, post, post_query, post_view, present, val};
use crate::query::{json_of_query, lookup, query_json, query_pairs, value_or, Query};
use crate::request::{ApiCall};
use crate::text::{parse_i32, parse_int, parse_usize};
use crate::params::or_else;

verus! {

/// `/activate/init/profile`
pub fn index_activate_init_profile(query: &str) -> (c: ApiCall)
    ensures
        c@ == post_view("eapi"@, "http://music.163.com/eapi/activate/initProfile"@, query_json(query@)),
{
    post_query("eapi", "http://music.163.com/eapi/activate/initProfile", query)
}

/// `/album/detail/dynamic`
pub fn index_album_detail_dynamic(query: &str) -> (c: ApiCall)
    ensures
        c@ == post_view("weapi"@, "https://music.163.com/api/album/detail/dynamic"@, query_json(query@)),
{
    post_query("weapi", "https://music.163.com/api/album/detail/dynamic", query)
}

/// `/album/newest`
pub fn index_album_newest() -> (c: ApiCall)
    ensures
        c@ == post_view("weapi"@, "https://music.163.com/api/discovery/newAlbum"@, "{}"@),
{
    post("weapi", "https://music.163.com/api/discovery/newAlbum", "{}")
}

/// `index_album_sub` on any query: `None` on the queries that it does not accept,
/// where the server fails the request without calling the service.
pub fn try_index_album_sub(query: &str) -> (r: Option<ApiCall>)
    ensures
        match lookup(query_pairs(query@), "id"@) {
            None => r is None,
            Some(id) => gives(r, post_view(
                "weapi"@,
                "https://music.163.com/api/album/"@ + id,
                query_json(query@),
            )),
        },
{
    let q = Query::parse(query);
    let id = match q.value("id") {
        Some(v) => v,
        None => return None,
    };
    let url = concat("https://music.163.com/api/album/", id.as_str());
    let value = q.json();
    Some(post("weapi", url.as_str(), value.as_str()))
}

/// `/album/sub`: the album `id` goes into the address and the whole query is
/// sent; without an `id` there is no call.
pub fn index_album_sub(query: &str) -> (c: ApiCall)
    requires
        present(query_pairs(query@), "id"@),
    ensures
        c@ == post_view(
            "weapi"@,
            "https://music.163.com/api/album/"@ + val(query_pairs(query@), "id"@),
            query_json(query@),
        ),
{
    try_index_album_sub(query).unwrap()
}

/// The parameters of a page: `limit=<limit>&offset=<offset>&total=true`.
pub open spec fn page_query(limit: Seq<char>, offset: Seq<char>) -> Seq<char> {
    "limit="@ + limit + "&offset="@ + offset + "&total=true"@
}

fn page_query_string(limit: &str, offset: &str) -> (s: String)
    ensures
        s@ == page_query(limit@, offset@),
{
    let mut s = "limit=".to_owned();
    s.append(limit);
    s.append("&offset=");
    s.append(offset);
    s.append("&total=true");
    s
}

/// `/album/sublist`: a page of 25 from 0 unless `limit` or `offset` is given.
pub fn index_album_sublist(query: &str) -> (c: ApiCall)
    ensures
        ({
            let q = query_pairs(query@);
            c@ == post_view(
                "weapi"@,
                "https://music.163.com/weapi/album/sublist"@,
                query_json(page_query(value_or(q, "limit"@, "25"@), value_or(q, "offset"@, "0"@))),
            )
        }),
{
    let q = Query::parse(query);
    let limit = q.value_or("limit", "25");
    let offset = q.value_or("offset", "0");
    let info = json_of_query(page_query_string(limit.as_str(), offset.as_str()).as_str());
    post("weapi", "https://music.163.com/weapi/album/sublist", info.as_str())
}

/// `/album`: the album `id` (32311 by default) goes into the address.
pub fn index_album(query: &str) -> (c: ApiCall)
    ensures
        c@ == post_view(
            "weapi"@,
            "https://music.163.com/weapi/v1/album/"@ + value_or(query_pairs(query@), "id"@, "32311"@),
            "{}"@,
        ),
{
    let q = Query::parse(query);
    let id = q.value_or("id", "32311");
    let url = concat("https://music.163.com/weapi/v1/album/", id.as_str());
    post("weapi", url.as_str(), "{}")
}

/// `/artist/album`: a page of 30 of the albums of artist `id` (6452 by default).
pub fn index_artist_album(query: &str) -> (c: ApiCall)
    ensures
        ({
            let q = query_pairs(query@);
            c@ == post_view(
                "weapi"@,
                "https://music.163.com/weapi/artist/albums/"@ + value_or(q, "id"@, "6452"@),
                query_json(page_query(value_or(q, "limit"@, "30"@), value_or(q, "offset"@, "0"@))),
            )
        }),
{
    let q = Query::parse(query);
    let id = q.value_or("id", "6452");
    let url = concat("https://music.163.com/weapi/artist/albums/", id.as_str());
    let limit = q.value_or("limit", "30");
    let offset = q.value_or("offset", "0");
    let info = json_of_query(page_query_string(limit.as_str(), offset.as_str()).as_str());
    post("weapi", url.as_str(), info.as_str())
}

/// `/artist/desc`: the introduction of artist `id` (6452 by default).
pub fn index_artist_desc(query: &str) -> (c: ApiCall)
    ensures
        c@ == post_view(
            "weapi"@,
            "https://music.163.com/weapi/artist/introduction"@,
            query_json("id="@ + value_or(query_pairs(query@), "id"@, "6452"@)),
        ),
{
    let q = Query::parse(query);
    let id = q.value_or("id", "6452");
    let info = json_of_query(concat("id=", id.as_str()).as_str());
    post("weapi", "https://music.163.com/weapi/artist/introduction", info.as_str())
}

/// `/artist/list`: artists of category `cat` (1001) and `initial`
/// (`undefined`), a page of 30 from 0.
pub fn index_artist_list(query: &str) -> (c: ApiCall)
    ensures
        ({
            let q = query_pairs(query@);
            c@ == post_view(
                "weapi"@,
                "https://music.163.com/weapi/artist/list"@,
                query_json(
                    "categoryCode="@ + value_or(q, "cat"@, "1001"@) + "&initial="@ + value_or(
                        q,
                        "initial"@,
                        "undefined"@,
                    ) + "&offset="@ + value_or(q, "offset"@, "0"@) + "&limit="@ + value_or(
                        q,
                        "limit"@,
                        "30"@,
                    ) + "&total=true"@,
                ),
            )
        }),
{
    let q = Query::parse(query);
    let cat = q.value_or("cat", "1001");
    let offset = q.value_or("offset", "0");
    let limit = q.value_or("limit", "30");
    let initial = q.value_or("initial", "undefined");
    let mut s = concat("categoryCode=", cat.as_str());
    s.append("&initial=");
    s.append(initial.as_str());
    s.append("&offset=");
    s.append(offset.as_str());
    s.append("&limit=");
    s.append(limit.as_str());
    s.append("&total=true");
    let info = json_of_query(s.as_str());
    post("weapi", "https://music.163.com/weapi/artist/list", info.as_str())
}

/// `/artist/mv`: a page of 30 of the videos of artist `id` (6452).
pub fn index_artist_mv(query: &str) -> (c: ApiCall)
    ensures
        ({
            let q = query_pairs(query@);
            c@ == post_view(
                "weapi"@,
                "https://music.163.com/weapi/artist/mvs"@,
                query_json(
                    "artistId="@ + value_or(q, "id"@, "6452"@) + "&"@ + page_query(
                        value_or(q, "limit"@, "30"@),
                        value_or(q, "offset"@, "0"@),
                    ),
                ),
            )
        }),
{
    let q = Query::parse(query);
    let id = q.value_or("id", "6452");
    let limit = q.value_or("limit", "30");
    let offset = q.value_or("offset", "0");
    let mut s = concat("artistId=", id.as_str());
    s.append("&");
    let page = page_query_string(limit.as_str(), offset.as_str());
    s.append(page.as_str());
    let info = json_of_query(s.as_str());
    post("weapi", "https://music.163.com/weapi/artist/mvs", info.as_str())
}

/// `index_artist_sub` on any query: `None` on the queries that it does not accept,
/// where the server fails the request without calling the service.
pub fn try_index_artist_sub(query: &str) -> (r: Option<ApiCall>)
    ensures
        ({
            let q = query_pairs(query@);
            let id = value_or(q, "id"@, "6452"@);
            match parse_int(value_or(q, "t"@, "0"@), true, i32::MIN as int, i32::MAX as int) {
                None => r is None,
                Some(t) => gives(
                    r,
                    post_view(
                        "weapi"@,
                        "https://music.163.com/weapi/artist/"@ + (if t == 1 {
                            "sub"@
                        } else {
                            "unsub"@
                        }),
                        query_json("artistId="@ + id + "&artistIds=["@ + id + "]"@),
                    ),
                ),
            }
        }),
{
    let q = Query::parse(query);
    let id = q.value_or("id", "6452");
    let t = q.value_or("t", "0");
    let n = match parse_i32(t.as_str()) {
        Some(n) => n,
        None => return None,
    };
    let sub = if n == 1 { "sub" } else { "unsub" };
    let url = concat("https://music.163.com/weapi/artist/", sub);
    let mut s = concat("artistId=", id.as_str());
    s.append("&artistIds=[");
    s.append(id.as_str());
    s.append("]");
    let info = json_of_query(s.as_str());
    Some(post("weapi", url.as_str(), info.as_str()))
}

/// `/artist/sub`: follows (`t=1`) or unfollows (any other number, 0 by
/// default) artist `id` (6452); a `t` that is not an `i32` gives no call.
pub fn index_artist_sub(query: &str) -> (c: ApiCall)
    requires
        parse_int(value_or(query_pairs(query@), "t"@, "0"@), true, i32::MIN as int, i32::MAX as int) is Some,
    ensures
        ({
            let q = query_pairs(query@);
            let id = value_or(q, "id"@, "6452"@);
            let t = parse_int(value_or(q, "t"@, "0"@), true, i32::MIN as int, i32::MAX as int)->0;
            c@ == post_view(
                "weapi"@,
                "https://music.163.com/weapi/artist/"@ + (if t == 1 {
                    "sub"@
                } else {
                    "unsub"@
                }),
                query_json("artistId="@ + id + "&artistIds=["@ + id + "]"@),
            )
        }),
{
    try_index_artist_sub(query).unwrap()
}

/// `/artist/sublist`: a page of 25 of the followed artists.
pub fn index_artist_sublist(query: &str) -> (c: ApiCall)
    ensures
        ({
            let q = query_pairs(query@);
            c@ == post_view(
                "weapi"@,
                "https://music.163.com/weapi/artist/sublist"@,
                query_json(page_query(value_or(q, "limit"@, "25"@), value_or(q, "offset"@, "0"@))),
            )
        }),
{
    let q = Query::parse(query);
    let limit = q.value_or("limit", "25");
    let offset = q.value_or("offset", "0");
    let info = json_of_query(page_query_string(limit.as_str(), offset.as_str()).as_str());
    post("weapi", "https://music.163.com/weapi/artist/sublist", info.as_str())
}

/// `/artist/top/song`
pub fn index_artist_top_song(query: &str) -> (c: ApiCall)
    ensures
        c@ == post_view("weapi"@, "https://music.163.com/api/artist/top/song"@, query_json(query@)),
{
    post_query("weapi", "https://music.163.com/api/artist/top/song", query)
}

/// `/artists`: artist `id` (6452) goes into the address.
pub fn index_artists(query: &str) -> (c: ApiCall)
    ensures
        c@ == post_view(
            "weapi"@,
            "https://music.163.com/weapi/v1/artist/"@ + value_or(query_pairs(query@), "id"@, "6452"@),
            "{}"@,
        ),
{
    let q = Query::parse(query);
    let id = q.value_or("id", "6452");
    let url = concat("https://music.163.com/weapi/v1/artist/", id.as_str());
    post("weapi", url.as_str(), "{}")
}

/// The clients that banners are asked for.
pub const BANNER_TYPES: [&'static str; 4] = ["pc", "android", "iphone", "ipad"];

/// A number read from `s`, or 0 where it is not a `usize`.
pub open spec fn index_or_zero(s: Seq<char>) -> int {
    or_else(parse_int(s, false, 0, usize::MAX as int), 0)
}

/// `/banner`: the banners of client `type` (a number, 0 by default; 0 again
/// when it is not a number or above 3), through the Linux client API.
pub fn index_banner(query: &str) -> (c: ApiCall)
    ensures
        ({
            let n = index_or_zero(value_or(query_pairs(query@), "type"@, "0"@));
            let i = if n > 3 { 0 } else { n };
            c@ == post_view(
                "linuxapi"@,
                "https://music.163.com/api/v2/banner/get"@,
                query_json("clientType="@ + BANNER_TYPES[i]@),
            )
        }),
{
    let q = Query::parse(query);
    let t = q.value_or("type", "0");
    let n: usize = match parse_usize(t.as_str()) {
        Some(n) => n,
        None => 0,
    };
    let i: usize = if n > 3 { 0 } else { n };
    let info = json_of_query(concat("clientType=", BANNER_TYPES[i]).as_str());
    post("linuxapi", "https://music.163.com/api/v2/banner/get", info.as_str())
}

} // verus!
