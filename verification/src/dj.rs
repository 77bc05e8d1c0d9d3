//! Endpoints about radio stations and their programs.

use vstd::prelude::*;
use crate::calls::{concat, gives, present, post, post_query, post_view, val};
use crate::query::{json_of_query, query_json, query_pairs, value_or, Query};
use crate::request::ApiCall;
use crate::text::{bool_text, parse_int, parse_usize, push_bool_text, str_eq};

verus! {

/// `/dj/banner`: no parameters.
pub fn index_dj_banner() -> (c: ApiCall)
    ensures
        c@ == post_view("weapi"@, "http://music.163.com/weapi/djradio/banner/get"@, "{}"@),
{
    post("weapi", "http://music.163.com/weapi/djradio/banner/get", "{}")
}

/// `/dj/category/excludehot`: no parameters.
pub fn index_dj_category_exclude_hot() -> (c: ApiCall)
    ensures
        c@ == post_view("weapi"@, "http://music.163.com/weapi/djradio/category/excludehot"@, "{}"@),
{
    post("weapi", "http://music.163.com/weapi/djradio/category/excludehot", "{}")
}

/// `/dj/catelist`: no parameters.
pub fn index_dj_category_list() -> (c: ApiCall)
    ensures
        c@ == post_view("weapi"@, "https://music.163.com/weapi/djradio/category/get"@, "{}"@),
{
    post("weapi", "https://music.163.com/weapi/djradio/category/get", "{}")
}

/// `/dj/category/recommend`: no parameters.
pub fn index_dj_category_recommend() -> (c: ApiCall)
    ensures
        c@ == post_view("weapi"@, "http://music.163.com/weapi/djradio/home/category/recommend"@, "{}"@),
{
    post("weapi", "http://music.163.com/weapi/djradio/home/category/recommend", "{}")
}

/// `/dj/detail`: the query passed on.
pub fn index_dj_detail(query: &str) -> (c: ApiCall)
    ensures
        c@ == post_view("weapi"@, "https://music.163.com/weapi/djradio/get"@, query_json(query@)),
{
    post_query("weapi", "https://music.163.com/weapi/djradio/get", query)
}

/// `/dj/hot`: the query passed on.
pub fn index_dj_hot(query: &str) -> (c: ApiCall)
    ensures
        c@ == post_view("weapi"@, "https://music.163.com/weapi/djradio/hot/v1"@, query_json(query@)),
{
    post_query("weapi", "https://music.163.com/weapi/djradio/hot/v1", query)
}

/// `/dj/toplist/pay`: the query passed on.
pub fn index_dj_pay_gift(query: &str) -> (c: ApiCall)
    ensures
        c@ == post_view("weapi"@, "https://music.163.com/weapi/djradio/home/paygift/list?_nmclfl=1"@, query_json(query@)),
{
    post_query("weapi", "https://music.163.com/weapi/djradio/home/paygift/list?_nmclfl=1", query)
}

/// `index_dj_program` on any query: `None` on the queries that it does not accept,
/// where the server fails the request without calling the service.
pub fn try_index_dj_program(query: &str) -> (r: Option<ApiCall>)
    ensures
        ({
            let q = query_pairs(query@);
            if present(q, "rid"@) {
                gives(
                    r,
                    post_view(
                        "weapi"@,
                        "https://music.163.com/weapi/dj/program/byradio"@,
                        query_json(
                            "radioId="@ + val(q, "rid"@) + "&limit="@ + value_or(q, "limit"@, "30"@)
                                + "&offset="@ + value_or(q, "offset"@, "0"@) + "&asc="@ + bool_text(
                                value_or(q, "asc"@, "false"@) == "true"@,
                            ),
                        ),
                    ),
                )
            } else {
                r is None
            }
        }),
{
    let q = Query::parse(query);
    let rid = match q.value("rid") { Some(v) => v, None => return None };
    let limit = q.value_or("limit", "30");
    let offset = q.value_or("offset", "0");
    let asc = str_eq(q.value_or("asc", "false").as_str(), "true");
    let mut s = concat("radioId=", rid.as_str());
    s.append("&limit=");
    s.append(limit.as_str());
    s.append("&offset=");
    s.append(offset.as_str());
    s.append("&asc=");
    push_bool_text(&mut s, asc);
    let info = json_of_query(s.as_str());
    Some(post("weapi", "https://music.163.com/weapi/dj/program/byradio", info.as_str()))
}

/// `/dj/program`: a page of 30 programs of radio `rid` (needed), in
/// ascending order only when `asc` is `true`.
pub fn index_dj_program(query: &str) -> (c: ApiCall)
    requires
        ({
            let q = query_pairs(query@);
            present(q, "rid"@)
        }),
    ensures
        ({
            let q = query_pairs(query@);
            c@ == post_view(
                        "weapi"@,
                        "https://music.163.com/weapi/dj/program/byradio"@,
                        query_json(
                            "radioId="@ + val(q, "rid"@) + "&limit="@ + value_or(q, "limit"@, "30"@)
                                + "&offset="@ + value_or(q, "offset"@, "0"@) + "&asc="@ + bool_text(
                                value_or(q, "asc"@, "false"@) == "true"@,
                            ),
                        ),
                    )
        }),
{
    try_index_dj_program(query).unwrap()
}

/// `/dj/program/detail`: the query passed on.
pub fn index_dj_program_details(query: &str) -> (c: ApiCall)
    ensures
        c@ == post_view("weapi"@, "https://music.163.com/weapi/dj/program/detail"@, query_json(query@)),
{
    post_query("weapi", "https://music.163.com/weapi/dj/program/detail", query)
}

/// `/dj/program/toplist`: the query passed on.
pub fn index_dj_program_toplist(query: &str) -> (c: ApiCall)
    ensures
        c@ == post_view("weapi"@, "https://music.163.com/api/program/toplist/v1"@, query_json(query@)),
{
    post_query("weapi", "https://music.163.com/api/program/toplist/v1", query)
}

/// `/dj/program/toplist/hours`: the query passed on.
pub fn index_dj_program_toplist_hours(query: &str) -> (c: ApiCall)
    ensures
        c@ == post_view("weapi"@, "https://music.163.com/api/djprogram/toplist/hours"@, query_json(query@)),
{
    post_query("weapi", "https://music.163.com/api/djprogram/toplist/hours", query)
}

/// `/dj/radio/hot`: the query passed on.
pub fn index_dj_radio_hot(query: &str) -> (c: ApiCall)
    ensures
        c@ == post_view("weapi"@, "https://music.163.com/api/djradio/hot"@, query_json(query@)),
{
    post_query("weapi", "https://music.163.com/api/djradio/hot", query)
}

/// `/dj/recommend`: no parameters.
pub fn index_dj_recommend() -> (c: ApiCall)
    ensures
        c@ == post_view("weapi"@, "https://music.163.com/weapi/djradio/recommend/v1"@, "{}"@),
{
    post("weapi", "https://music.163.com/weapi/djradio/recommend/v1", "{}")
}

/// `/dj/recommend/type`: recommended stations of category `type` (10001).
pub fn index_dj_recommend_type(query: &str) -> (c: ApiCall)
    ensures
        c@ == post_view(
            "weapi"@,
            "https://music.163.com/weapi/djradio/recommend"@,
            query_json("cateId="@ + value_or(query_pairs(query@), "type"@, "10001"@)),
        ),
{
    let q = Query::parse(query);
    let cate = q.value_or("type", "10001");
    let info = json_of_query(concat("cateId=", cate.as_str()).as_str());
    post("weapi", "https://music.163.com/weapi/djradio/recommend", info.as_str())
}

/// `index_dj_sub` on any query: `None` on the queries that it does not accept,
/// where the server fails the request without calling the service.
pub fn try_index_dj_sub(query: &str) -> (r: Option<ApiCall>)
    ensures
        ({
            let q = query_pairs(query@);
            match parse_int(value_or(q, "t"@, "0"@), false, 0, usize::MAX as int) {
                None => r is None,
                Some(t) => if present(q, "rid"@) {
                    gives(
                        r,
                        post_view(
                            "weapi"@,
                            "https://music.163.com/weapi/djradio/"@ + (if t == 1 {
                                "sub"@
                            } else {
                                "unsub"@
                            }),
                            query_json("id="@ + val(q, "rid"@)),
                        ),
                    )
                } else {
                    r is None
                },
            }
        }),
{
    let q = Query::parse(query);
    let t = match parse_usize(q.value_or("t", "0").as_str()) {
        Some(n) => n,
        None => return None,
    };
    let action = if t == 1 { "sub" } else { "unsub" };
    let url = concat("https://music.163.com/weapi/djradio/", action);
    let rid = match q.value("rid") { Some(v) => v, None => return None };
    let info = json_of_query(concat("id=", rid.as_str()).as_str());
    Some(post("weapi", url.as_str(), info.as_str()))
}

/// `/dj/sub`: subscribes to (`t=1`) or leaves (another number, 0 by
/// default) radio `rid` (needed); a `t` that is not a `usize` gives no call.
pub fn index_dj_sub(query: &str) -> (c: ApiCall)
    requires
        parse_int(value_or(query_pairs(query@), "t"@, "0"@), false, 0, usize::MAX as int) is Some,
        present(query_pairs(query@), "rid"@),
    ensures
        ({
            let q = query_pairs(query@);
            let t = parse_int(value_or(q, "t"@, "0"@), false, 0, usize::MAX as int)->0;
            c@ == post_view(
                "weapi"@,
                "https://music.163.com/weapi/djradio/"@ + (if t == 1 {
                    "sub"@
                } else {
                    "unsub"@
                }),
                query_json("id="@ + val(q, "rid"@)),
            )
        }),
{
    try_index_dj_sub(query).unwrap()
}

/// `/dj/sublist`: the query passed on.
pub fn index_dj_sub_list(query: &str) -> (c: ApiCall)
    ensures
        c@ == post_view("weapi"@, "https://music.163.com/weapi/djradio/get/subed"@, query_json(query@)),
{
    post_query("weapi", "https://music.163.com/weapi/djradio/get/subed", query)
}

/// `/dj/today/perfered`: the query passed on.
pub fn index_dj_today_perfered(query: &str) -> (c: ApiCall)
    ensures
        c@ == post_view("weapi"@, "http://music.163.com/weapi/djradio/home/today/perfered"@, query_json(query@)),
{
    post_query("weapi", "http://music.163.com/weapi/djradio/home/today/perfered", query)
}

/// `/dj/toplist`: a page of 100 of the chart of new (`type=new`, the
/// default) or popular stations.
pub fn index_dj_toplist(query: &str) -> (c: ApiCall)
    ensures
        ({
            let q = query_pairs(query@);
            c@ == post_view(
                "weapi"@,
                "https://music.163.com/api/djradio/toplist"@,
                query_json(
                    "limit="@ + value_or(q, "limit"@, "100"@) + "&offset="@ + value_or(
                        q,
                        "offset"@,
                        "0"@,
                    ) + "&type="@ + (if value_or(q, "type"@, "new"@) == "new"@ {
                        "0"@
                    } else {
                        "1"@
                    }),
                ),
            )
        }),
{
    let q = Query::parse(query);
    let limit = q.value_or("limit", "100");
    let offset = q.value_or("offset", "0");
    let kind = if str_eq(q.value_or("type", "new").as_str(), "new") { "0" } else { "1" };
    let mut s = concat("limit=", limit.as_str());
    s.append("&offset=");
    s.append(offset.as_str());
    s.append("&type=");
    s.append(kind);
    let info = json_of_query(s.as_str());
    post("weapi", "https://music.163.com/api/djradio/toplist", info.as_str())
}

/// `/dj/toplist/hours`: the query passed on.
pub fn index_dj_toplist_hours(query: &str) -> (c: ApiCall)
    ensures
        c@ == post_view("weapi"@, "https://music.163.com/api/dj/toplist/hours"@, query_json(query@)),
{
    post_query("weapi", "https://music.163.com/api/dj/toplist/hours", query)
}

/// `/dj/toplist/newcomer`: the query passed on.
pub fn index_dj_toplist_newcomer(query: &str) -> (c: ApiCall)
    ensures
        c@ == post_view("weapi"@, "https://music.163.com/api/dj/toplist/newcomer"@, query_json(query@)),
{
    post_query("weapi", "https://music.163.com/api/dj/toplist/newcomer", query)
}

/// `/dj/toplist/pay`: the query passed on.
pub fn index_dj_toplist_pay(query: &str) -> (c: ApiCall)
    ensures
        c@ == post_view("weapi"@, "https://music.163.com/api/djradio/toplist/pay"@, query_json(query@)),
{
    post_query("weapi", "https://music.163.com/api/djradio/toplist/pay", query)
}

/// `/dj/toplist/popular`: the query passed on.
pub fn index_dj_toplist_popular(query: &str) -> (c: ApiCall)
    ensures
        c@ == post_view("weapi"@, "https://music.163.com/api/dj/toplist/popular"@, query_json(query@)),
{
    post_query("weapi", "https://music.163.com/api/dj/toplist/popular", query)
}

} // verus!
