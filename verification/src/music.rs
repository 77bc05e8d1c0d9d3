//! Endpoints about songs, charts, recommendations and registration.

use vstd::prelude::*;
use crate::calls::{call_view, concat, gives, present, post, post_query, post_view, val, yields};
use crate::crypto::{hash_password, password_hash};
use crate::query::{json_of_query, json_text, lookup, query_json, query_pairs, rename_key, revalue, value_or, Query};
use crate::request::{ApiCall, ApiCallView};
use crate::text::{parse_int, parse_usize};

verus! {

/// `index_check_music` on any query: `None` on the queries that it does not accept,
/// where the server fails the request without calling the service.
pub fn try_index_check_music(query: &str) -> (r: Option<ApiCall>)
    ensures
        ({
            let q = query_pairs(query@);
            if present(q, "id"@) {
                gives(
                    r,
                    post_view(
                        "weapi"@,
                        "https://music.163.com/weapi/song/enhance/player/url"@,
                        query_json("ids="@ + val(q, "id"@) + "&br="@ + value_or(q, "br"@, "999000"@)),
                    ),
                )
            } else {
                r is None
            }
        }),
{
    let q = Query::parse(query);
    let ids = match q.value("id") { Some(v) => v, None => return None };
    let br = q.value_or("br", "999000");
    let mut s = concat("ids=", ids.as_str());
    s.append("&br=");
    s.append(br.as_str());
    let info = json_of_query(s.as_str());
    Some(post("weapi", "https://music.163.com/weapi/song/enhance/player/url", info.as_str()))
}

/// `/check/music`: whether songs `id` (needed) can be played at bit rate
/// `br` (999000).
pub fn index_check_music(query: &str) -> (c: ApiCall)
    requires
        ({
            let q = query_pairs(query@);
            present(q, "id"@)
        }),
    ensures
        ({
            let q = query_pairs(query@);
            c@ == post_view(
                        "weapi"@,
                        "https://music.163.com/weapi/song/enhance/player/url"@,
                        query_json("ids="@ + val(q, "id"@) + "&br="@ + value_or(q, "br"@, "999000"@)),
                    )
        }),
{
    try_index_check_music(query).unwrap()
}

/// `/personal_fm`: no parameters.
pub fn index_personal_fm() -> (c: ApiCall)
    ensures
        c@ == post_view("weapi"@, "https://music.163.com/weapi/v1/radio/get"@, "{}"@),
{
    post("weapi", "https://music.163.com/weapi/v1/radio/get", "{}")
}

/// `/personalized`: the query passed on.
pub fn index_personalized(query: &str) -> (c: ApiCall)
    ensures
        c@ == post_view("weapi"@, "https://music.163.com/weapi/personalized/playlist"@, query_json(query@)),
{
    post_query("weapi", "https://music.163.com/weapi/personalized/playlist", query)
}

/// `/personalized/djprogram`: no parameters.
pub fn index_personalized_djprogram() -> (c: ApiCall)
    ensures
        c@ == post_view("weapi"@, "https://music.163.com/weapi/personalized/djprogram"@, "{}"@),
{
    post("weapi", "https://music.163.com/weapi/personalized/djprogram", "{}")
}

/// `/personalized/mv`: no parameters.
pub fn index_personalized_mv() -> (c: ApiCall)
    ensures
        c@ == post_view("weapi"@, "https://music.163.com/weapi/personalized/mv"@, "{}"@),
{
    post("weapi", "https://music.163.com/weapi/personalized/mv", "{}")
}

/// `/personalized/newsong`: the recommended new songs.
pub fn index_personalized_newsong() -> (c: ApiCall)
    ensures
        c@ == post_view(
            "weapi"@,
            "https://music.163.com/weapi/personalized/newsong"@,
            query_json("type=recommend"@),
        ),
{
    let info = json_of_query("type=recommend");
    post("weapi", "https://music.163.com/weapi/personalized/newsong", info.as_str())
}

/// `/personalized/privatecontent`: no parameters.
pub fn index_personalized_privatecontent() -> (c: ApiCall)
    ensures
        c@ == post_view("weapi"@, "https://music.163.com/weapi/personalized/privatecontent"@, "{}"@),
{
    post("weapi", "https://music.163.com/weapi/personalized/privatecontent", "{}")
}

/// `/program/recommend`: the query passed on.
pub fn index_program_recommend(query: &str) -> (c: ApiCall)
    ensures
        c@ == post_view("weapi"@, "https://music.163.com/weapi/program/recommend/v1"@, query_json(query@)),
{
    post_query("weapi", "https://music.163.com/weapi/program/recommend/v1", query)
}

/// `/rebind`: the query passed on.
pub fn index_rebind(query: &str) -> (c: ApiCall)
    ensures
        c@ == post_view("weapi"@, "https://music.163.com/api/user/replaceCellphone"@, query_json(query@)),
{
    post_query("weapi", "https://music.163.com/api/user/replaceCellphone", query)
}

/// `/recommend/resource`: no parameters.
pub fn index_recommend_resource() -> (c: ApiCall)
    ensures
        c@ == post_view("weapi"@, "https://music.163.com/weapi/v1/discovery/recommend/resource"@, "{}"@),
{
    post("weapi", "https://music.163.com/weapi/v1/discovery/recommend/resource", "{}")
}

/// `/recommend/songs`: a first page of 20.
pub fn index_recommend_songs() -> (c: ApiCall)
    ensures
        c@ == post_view("weapi"@, "https://music.163.com/weapi/v1/discovery/recommend/songs"@, "{\"limit\":\"20\",\"offset\":\"0\",\"total\":\"true\"}"@),
{
    post("weapi", "https://music.163.com/weapi/v1/discovery/recommend/songs", "{\"limit\":\"20\",\"offset\":\"0\",\"total\":\"true\"}")
}

/// `index_register_cellphone` on any query: `None` on the queries that it does not accept,
/// where the server fails the request without calling the service.
pub fn try_index_register_cellphone(query: &str) -> (r: Option<ApiCall>)
    ensures
        ({
            let q = query_pairs(query@);
            &&& !present(q, "password"@) ==> r is None
            &&& r is Some ==> present(q, "password"@) && gives(
                r,
                post_view(
                    "weapi"@,
                    "https://music.163.com/weapi/register/cellphone"@,
                    json_text(revalue(q, val(q, "password"@), password_hash(val(q, "password"@)))),
                ),
            )
        }),
{
    let q = Query::parse(query);
    let pw = match q.value("password") { Some(v) => v, None => return None };
    let digest = match hash_password(pw.as_str()) { Some(h) => h, None => return None };
    index_register_cellphone_with_digest(query, digest.as_str())
}

/// `/register/cellphone`: the query passed on, with every value equal to
/// `password` (needed) replaced by its digest.
pub fn index_register_cellphone(query: &str) -> (r: Option<ApiCall>)
    requires
        ({
            let q = query_pairs(query@);
            present(q, "password"@)
        }),
    ensures
        ({
            let q = query_pairs(query@);
            r is Some ==> yields(r, register_cellphone_call(q, password_hash(val(q, "password"@))))
        }),
{
    try_index_register_cellphone(query)
}

/// The call of `/register/cellphone` with every value equal to `password`
/// (needed) replaced by `digest`.
pub open spec fn register_cellphone_call(q: Seq<(Seq<char>, Seq<char>)>, digest: Seq<char>) -> Option<
    ApiCallView,
> {
    match lookup(q, "password"@) {
        Some(pw) => Some(
            post_view(
                "weapi"@,
                "https://music.163.com/weapi/register/cellphone"@,
                json_text(revalue(q, pw, digest)),
            ),
        ),
        None => None,
    }
}

/// `/register/cellphone` with `digest` in place of the password; see
/// `register_cellphone_call`.
pub fn index_register_cellphone_with_digest(query: &str, digest: &str) -> (r: Option<ApiCall>)
    ensures
        yields(r, register_cellphone_call(query_pairs(query@), digest@)),
{
    let q = Query::parse(query);
    let pw = match q.value("password") { Some(v) => v, None => return None };
    let info = q.replace_value(pw.as_str(), digest).json();
    Some(post("weapi", "https://music.163.com/weapi/register/cellphone", info.as_str()))
}

/// The play log of `/scrobble`.
pub open spec fn scrobble_text(id: Seq<char>, source: Seq<char>, time: Seq<char>) -> Seq<char> {
    "{\"logs\":\"[{\"action\":\"play\",\"json\":\"{\"download\":\"0\",\"end\":\"playend\",\"id\":\""@
        + id + "\",\"sourceId\":\""@ + source + "\",\"time\":\""@ + time
        + "\",\"type\":\"song\",\"wifi\":\"0\"}\"}]\"}"@
}

/// `index_scrobble` on any query: `None` on the queries that it does not accept,
/// where the server fails the request without calling the service.
pub fn try_index_scrobble(query: &str) -> (r: Option<ApiCall>)
    ensures
        ({
            let q = query_pairs(query@);
            if present(q, "id"@) && present(q, "sourceid"@) && present(q, "time"@) {
                gives(
                    r,
                    call_view(
                        "POST"@,
                        "pc"@,
                        "weapi"@,
                        "https://music.163.com/weapi/feedback/weblog"@,
                        scrobble_text(val(q, "id"@), val(q, "sourceid"@), val(q, "time"@)),
                    ),
                )
            } else {
                r is None
            }
        }),
{
    let q = Query::parse(query);
    let id = match q.value("id") { Some(v) => v, None => return None };
    let source = match q.value("sourceid") { Some(v) => v, None => return None };
    let time = match q.value("time") { Some(v) => v, None => return None };
    let mut s = concat(
        "{\"logs\":\"[{\"action\":\"play\",\"json\":\"{\"download\":\"0\",\"end\":\"playend\",\"id\":\"",
        id.as_str(),
    );
    s.append("\",\"sourceId\":\"");
    s.append(source.as_str());
    s.append("\",\"time\":\"");
    s.append(time.as_str());
    s.append("\",\"type\":\"song\",\"wifi\":\"0\"}\"}]\"}");
    Some(ApiCall::new("POST", "pc", "weapi", "https://music.163.com/weapi/feedback/weblog", s.as_str()))
}

/// `/scrobble`: reports that song `id` from `sourceid` was played for `time`
/// seconds (all three needed), as a desktop browser.
pub fn index_scrobble(query: &str) -> (c: ApiCall)
    requires
        ({
            let q = query_pairs(query@);
            present(q, "id"@) && present(q, "sourceid"@) && present(q, "time"@)
        }),
    ensures
        ({
            let q = query_pairs(query@);
            c@ == call_view(
                        "POST"@,
                        "pc"@,
                        "weapi"@,
                        "https://music.163.com/weapi/feedback/weblog"@,
                        scrobble_text(val(q, "id"@), val(q, "sourceid"@), val(q, "time"@)),
                    )
        }),
{
    try_index_scrobble(query).unwrap()
}

/// `/song/detail`: the text `hello` in place of parameters.
pub fn index_song_detail() -> (c: ApiCall)
    ensures
        c@ == post_view("weapi"@, "https://music.163.com/weapi/v3/song/detail"@, "hello"@),
{
    post("weapi", "https://music.163.com/weapi/v3/song/detail", "hello")
}

/// The call of `/song/url`: the query with `id` renamed `ids`, and every
/// value equal to the `ids` (needed) put in brackets; through the Linux
/// client API.
pub open spec fn song_url_call(q: Seq<(Seq<char>, Seq<char>)>) -> Option<ApiCallView> {
    let renamed = rename_key(q, "id"@, "ids"@);
    match lookup(renamed, "ids"@) {
        None => None,
        Some(ids) => Some(
            post_view(
                "linuxapi"@,
                "https://music.163.com/api/song/enhance/player/url"@,
                json_text(revalue(renamed, ids, "["@ + ids + "]"@)),
            ),
        ),
    }
}

/// `index_song_url` on any query: `None` on the queries that it does not accept,
/// where the server fails the request without calling the service.
pub fn try_index_song_url(query: &str) -> (r: Option<ApiCall>)
    ensures
        yields(r, song_url_call(query_pairs(query@))),
{
    let q = Query::parse(query).replace_key("id", "ids");
    let ids = match q.value("ids") { Some(v) => v, None => return None };
    let mut bracketed = concat("[", ids.as_str());
    bracketed.append("]");
    let value = q.replace_value(ids.as_str(), bracketed.as_str()).json();
    Some(post("linuxapi", "https://music.163.com/api/song/enhance/player/url", value.as_str()))
}

/// `/song/url`: see `song_url_call`.
pub fn index_song_url(query: &str) -> (c: ApiCall)
    requires
        song_url_call(query_pairs(query@)) is Some,
    ensures
        Some(c@) == song_url_call(query_pairs(query@)),
{
    try_index_song_url(query).unwrap()
}

/// `/top/album`: a page of 50 of the new albums of area `type` (`ALL`).
pub fn index_top_album(query: &str) -> (c: ApiCall)
    ensures
        ({
            let q = query_pairs(query@);
            c@ == post_view(
                "weapi"@,
                "https://music.163.com/weapi/album/new"@,
                query_json(
                    "area="@ + value_or(q, "type"@, "ALL"@) + "&limit="@ + value_or(q, "limit"@, "50"@)
                        + "&offset="@ + value_or(q, "offset"@, "0"@) + "&total=true"@,
                ),
            )
        }),
{
    let q = Query::parse(query);
    let area = q.value_or("type", "ALL");
    let limit = q.value_or("limit", "50");
    let offset = q.value_or("offset", "0");
    let mut s = concat("area=", area.as_str());
    s.append("&limit=");
    s.append(limit.as_str());
    s.append("&offset=");
    s.append(offset.as_str());
    s.append("&total=true");
    let info = json_of_query(s.as_str());
    post("weapi", "https://music.163.com/weapi/album/new", info.as_str())
}

/// `/top/artists`: the query passed on.
pub fn index_top_artists(query: &str) -> (c: ApiCall)
    ensures
        c@ == post_view("weapi"@, "https://music.163.com/weapi/artist/top"@, query_json(query@)),
{
    post_query("weapi", "https://music.163.com/weapi/artist/top", query)
}

/// The playlist ids of the charts, by number.
pub const TOP_LIST: [&'static str; 24] = [
    "3779629",
    "3778678",
    "2884035",
    "19723756",
    "10520166",
    "180106",
    "60198",
    "21845217",
    "11641012",
    "120001",
    "60131",
    "3733003",
    "60255",
    "46772709",
    "112504",
    "64016",
    "10169002",
    "4395559",
    "1899724",
    "27135204",
    "112463",
    "3812895",
    "71385702",
    "991319590",
];

/// `index_top_list` on any query: `None` on the queries that it does not accept,
/// where the server fails the request without calling the service.
pub fn try_index_top_list(query: &str) -> (r: Option<ApiCall>)
    ensures
        ({
            let q = query_pairs(query@);
            match parse_int(value_or(q, "idx"@, "0"@), false, 0, usize::MAX as int) {
                Some(i) => if i < 24 {
                    gives(
                        r,
                        call_view(
                            "Post"@,
                            ""@,
                            "linuxapi"@,
                            "https://music.163.com/weapi/v3/playlist/detail"@,
                            query_json("id="@ + TOP_LIST[i]@ + "&n=10000"@),
                        ),
                    )
                } else {
                    r is None
                },
                None => r is None,
            }
        }),
{
    let q = Query::parse(query);
    let i = match parse_usize(q.value_or("idx", "0").as_str()) {
        Some(i) => i,
        None => return None,
    };
    if i >= 24 {
        return None;
    }
    let mut s = concat("id=", TOP_LIST[i]);
    s.append("&n=10000");
    let info = json_of_query(s.as_str());
    Some(ApiCall::new("Post", "", "linuxapi", "https://music.163.com/weapi/v3/playlist/detail", info.as_str()))
}

/// `/top/list`: chart number `idx` (0), through the Linux client API with
/// the method written `Post`; an `idx` that is not a `usize` below 24 gives
/// no call.
pub fn index_top_list(query: &str) -> (c: ApiCall)
    requires
        parse_int(value_or(query_pairs(query@), "idx"@, "0"@), false, 0, usize::MAX as int) matches Some(
            i,
        ) && i < 24,
    ensures
        ({
            let i = parse_int(value_or(query_pairs(query@), "idx"@, "0"@), false, 0, usize::MAX as int)->0;
            c@ == call_view(
                "Post"@,
                ""@,
                "linuxapi"@,
                "https://music.163.com/weapi/v3/playlist/detail"@,
                query_json("id="@ + TOP_LIST[i]@ + "&n=10000"@),
            )
        }),
{
    try_index_top_list(query).unwrap()
}

/// `/top/mv`: the query passed on.
pub fn index_top_mv(query: &str) -> (c: ApiCall)
    ensures
        c@ == post_view("weapi"@, "https://music.163.com/weapi/mv/toplist"@, query_json(query@)),
{
    post_query("weapi", "https://music.163.com/weapi/mv/toplist", query)
}

/// `/top/playlist`: the query passed on.
pub fn index_top_playlist(query: &str) -> (c: ApiCall)
    ensures
        c@ == post_view("weapi"@, "https://music.163.com/weapi/playlist/list"@, query_json(query@)),
{
    post_query("weapi", "https://music.163.com/weapi/playlist/list", query)
}

/// `/top/playlist/highquality`: 50 high-quality playlists of category
/// `cat` (all) before `before` (0).
pub fn index_top_playlist_highquality(query: &str) -> (c: ApiCall)
    ensures
        ({
            let q = query_pairs(query@);
            c@ == post_view(
                "weapi"@,
                "https://music.163.com/weapi/playlist/highquality/list"@,
                query_json(
                    "cat="@ + value_or(q, "cat"@, "全部"@) + "&limit="@ + value_or(q, "limit"@, "50"@)
                        + "&lasttime="@ + value_or(q, "before"@, "0"@) + "&total=true"@,
                ),
            )
        }),
{
    let q = Query::parse(query);
    let cat = q.value_or("cat", "全部");
    let limit = q.value_or("limit", "50");
    let before = q.value_or("before", "0");
    let mut s = concat("cat=", cat.as_str());
    s.append("&limit=");
    s.append(limit.as_str());
    s.append("&lasttime=");
    s.append(before.as_str());
    s.append("&total=true");
    let info = json_of_query(s.as_str());
    post("weapi", "https://music.163.com/weapi/playlist/highquality/list", info.as_str())
}

/// `/top/song`: the new songs of area `type` (0).
pub fn index_top_song(query: &str) -> (c: ApiCall)
    ensures
        c@ == post_view(
            "weapi"@,
            "https://music.163.com/weapi/v1/discovery/new/songs"@,
            query_json("areaId="@ + value_or(query_pairs(query@), "type"@, "0"@) + "&total=true"@),
        ),
{
    let q = Query::parse(query);
    let area = q.value_or("type", "0");
    let mut s = concat("areaId=", area.as_str());
    s.append("&total=true");
    let info = json_of_query(s.as_str());
    post("weapi", "https://music.163.com/weapi/v1/discovery/new/songs", info.as_str())
}

/// `/toplist`: no parameters.
pub fn index_toplist() -> (c: ApiCall)
    ensures
        c@ == post_view("weapi"@, "https://music.163.com/weapi/toplist"@, "{}"@),
{
    post("weapi", "https://music.163.com/weapi/toplist", "{}")
}

/// `/toplist/artist`: the first 100 of chart type 1.
pub fn index_toplist_artist() -> (c: ApiCall)
    ensures
        c@ == post_view("weapi"@, "https://music.163.com/weapi/toplist/artist"@, "{\"type\":\"1\",\"limit\":\"100\",\"offset\":\"0\",\"total\":\"true\"}"@),
{
    post("weapi", "https://music.163.com/weapi/toplist/artist", "{\"type\":\"1\",\"limit\":\"100\",\"offset\":\"0\",\"total\":\"true\"}")
}

/// `/toplist/detail`: no parameters.
pub fn index_toplist_detail() -> (c: ApiCall)
    ensures
        c@ == post_view("linuxapi"@, "https://music.163.com/weapi/toplist/detail"@, "{}"@),
{
    post("linuxapi", "https://music.163.com/weapi/toplist/detail", "{}")
}

} // verus!
