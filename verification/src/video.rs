//! Endpoints about music videos and clips.

use vstd::prelude::*;
use crate::calls::{concat, gives, present, post, post_query, post_renamed, post_view, val, yields};
use crate::json::{text_field, debug_list, debug_list_string, fields_view, json_object, json_object_string, text_less, JsonField, JsonFieldView};
use crate::query::{json_of_query, json_text, lookup, query_json, query_pairs, rename_key, revalue, value_or, Query};
use crate::request::{ApiCall, ApiCallView};
use crate::text::{split, split_text, str_eq};

verus! {

/// The tags of `/mv/all`: `{"地区":"<area>","类型":"<type>","排序":"<order>"}`
/// inside `{"tags":..}`.
pub open spec fn mv_tags(area: Seq<char>, kind: Seq<char>, order: Seq<char>) -> Seq<char> {
    "{\"tags\":"@ + ("{\"地区\":\""@ + area + "\",\"类型\":\""@ + kind + "\",\"排序\":\""@ + order
        + "\"}"@) + "}"@
}

/// `/mv/all`: a page of 30 videos of `area`, `type` (all) and `order`
/// (fastest rising).
pub fn index_mv_all(query: &str) -> (c: ApiCall)
    ensures
        ({
            let q = query_pairs(query@);
            c@ == post_view(
                "weapi"@,
                "https://interface.music.163.com/api/mv/all"@,
                query_json(
                    "tags="@ + mv_tags(
                        value_or(q, "area"@, "全部"@),
                        value_or(q, "type"@, "全部"@),
                        value_or(q, "order"@, "上升最快"@),
                    ) + "&offset="@ + value_or(q, "offset"@, "0"@) + "&total=true&limit="@
                        + value_or(q, "limit"@, "30"@),
                ),
            )
        }),
{
    let q = Query::parse(query);
    let area = q.value_or("area", "全部");
    let kind = q.value_or("type", "全部");
    let order = q.value_or("order", "上升最快");
    let mut tags_value = concat("{\"地区\":\"", area.as_str());
    tags_value.append("\",\"类型\":\"");
    tags_value.append(kind.as_str());
    tags_value.append("\",\"排序\":\"");
    tags_value.append(order.as_str());
    tags_value.append("\"}");
    let mut tags = concat("{\"tags\":", tags_value.as_str());
    tags.append("}");
    let limit = q.value_or("limit", "30");
    let offset = q.value_or("offset", "0");
    let mut s = concat("tags=", tags.as_str());
    s.append("&offset=");
    s.append(offset.as_str());
    s.append("&total=true&limit=");
    s.append(limit.as_str());
    let info = json_of_query(s.as_str());
    post("weapi", "https://interface.music.163.com/api/mv/all", info.as_str())
}

/// `/mv/detail`: the query passed on, with `mvid` renamed `id`.
pub fn index_mv_detail(query: &str) -> (c: ApiCall)
    ensures
        c@ == post_view(
            "weapi"@,
            "https://music.163.com/weapi/mv/detail"@,
            json_text(rename_key(query_pairs(query@), "mvid"@, "id"@)),
        ),
{
    post_renamed("weapi", "https://music.163.com/weapi/mv/detail", query, "mvid", "id")
}

/// `/mv/exclusive/rcmd`: the query passed on.
pub fn index_mv_exclusive_rcmd(query: &str) -> (c: ApiCall)
    ensures
        c@ == post_view("weapi"@, "https://interface.music.163.com/api/mv/exclusive/rcmd"@, query_json(query@)),
{
    post_query("weapi", "https://interface.music.163.com/api/mv/exclusive/rcmd", query)
}

/// `/mv/first`: the query passed on.
pub fn index_mv_first(query: &str) -> (c: ApiCall)
    ensures
        c@ == post_view("weapi"@, "https://interface.music.163.com/weapi/mv/first"@, query_json(query@)),
{
    post_query("weapi", "https://interface.music.163.com/weapi/mv/first", query)
}

/// The call of `/mv/sub`: subscribes to (`t=1`) or leaves (otherwise)
/// video `mvid` (needed); the query is passed on with `mvid` renamed
/// `mvIds` and every value equal to the id put in brackets.
pub open spec fn mv_sub_call(q: Seq<(Seq<char>, Seq<char>)>) -> Option<ApiCallView> {
    let t = if value_or(q, "t"@, "0"@) == "1"@ { "sub"@ } else { "unsub"@ };
    match lookup(q, "mvid"@) {
        None => None,
        Some(id) => Some(
            post_view(
                "weapi"@,
                "https://music.163.com/weapi/mv/"@ + t,
                json_text(revalue(rename_key(q, "mvid"@, "mvIds"@), id, "["@ + id + "]"@)),
            ),
        ),
    }
}

/// `index_mv_sub` on any query: `None` on the queries that it does not accept,
/// where the server fails the request without calling the service.
pub fn try_index_mv_sub(query: &str) -> (r: Option<ApiCall>)
    ensures
        yields(r, mv_sub_call(query_pairs(query@))),
{
    let q = Query::parse(query);
    let t = if str_eq(q.value_or("t", "0").as_str(), "1") { "sub" } else { "unsub" };
    let url = concat("https://music.163.com/weapi/mv/", t);
    let id = match q.value("mvid") { Some(v) => v, None => return None };
    let mut bracketed = concat("[", id.as_str());
    bracketed.append("]");
    let info = q.replace_key("mvid", "mvIds").replace_value(id.as_str(), bracketed.as_str()).json();
    Some(post("weapi", url.as_str(), info.as_str()))
}

/// `/mv/sub`: see `mv_sub_call`.
pub fn index_mv_sub(query: &str) -> (c: ApiCall)
    requires
        mv_sub_call(query_pairs(query@)) is Some,
    ensures
        Some(c@) == mv_sub_call(query_pairs(query@)),
{
    try_index_mv_sub(query).unwrap()
}

/// `/mv/sublist`: the query passed on.
pub fn index_mv_sublist(query: &str) -> (c: ApiCall)
    ensures
        c@ == post_view("weapi"@, "https://music.163.com/weapi/cloudvideo/allvideo/sublist"@, query_json(query@)),
{
    post_query("weapi", "https://music.163.com/weapi/cloudvideo/allvideo/sublist", query)
}

/// `index_mv_url` on any query: `None` on the queries that it does not accept,
/// where the server fails the request without calling the service.
pub fn try_index_mv_url(query: &str) -> (r: Option<ApiCall>)
    ensures
        ({
            let q = query_pairs(query@);
            if present(q, "id"@) {
                gives(
                    r,
                    post_view(
                        "weapi"@,
                        "https://music.163.com/weapi/song/enhance/play/mv/url"@,
                        query_json("id="@ + val(q, "id"@) + "&r="@ + value_or(q, "res"@, "1080"@)),
                    ),
                )
            } else {
                r is None
            }
        }),
{
    let q = Query::parse(query);
    let id = match q.value("id") { Some(v) => v, None => return None };
    let res = q.value_or("res", "1080");
    let mut s = concat("id=", id.as_str());
    s.append("&r=");
    s.append(res.as_str());
    let info = json_of_query(s.as_str());
    Some(post("weapi", "https://music.163.com/weapi/song/enhance/play/mv/url", info.as_str()))
}

/// `/mv/url`: the address of video `id` (needed) at resolution `res` (1080).
pub fn index_mv_url(query: &str) -> (c: ApiCall)
    requires
        ({
            let q = query_pairs(query@);
            present(q, "id"@)
        }),
    ensures
        ({
            let q = query_pairs(query@);
            c@ == post_view(
                        "weapi"@,
                        "https://music.163.com/weapi/song/enhance/play/mv/url"@,
                        query_json("id="@ + val(q, "id"@) + "&r="@ + value_or(q, "res"@, "1080"@)),
                    )
        }),
{
    try_index_mv_url(query).unwrap()
}

/// `/related/allvideo`: the query passed on.
pub fn index_related_allvideo(query: &str) -> (c: ApiCall)
    ensures
        c@ == post_view("weapi"@, "https://music.163.com/weapi/cloudvideo/v1/allvideo/rcmd"@, query_json(query@)),
{
    post_query("weapi", "https://music.163.com/weapi/cloudvideo/v1/allvideo/rcmd", query)
}

/// `/video/detail`: the query passed on.
pub fn index_video_detail(query: &str) -> (c: ApiCall)
    ensures
        c@ == post_view("weapi"@, "https://music.163.com/weapi/cloudvideo/v1/video/detail"@, query_json(query@)),
{
    post_query("weapi", "https://music.163.com/weapi/cloudvideo/v1/video/detail", query)
}

/// `index_video_group` on any query: `None` on the queries that it does not accept,
/// where the server fails the request without calling the service.
pub fn try_index_video_group(query: &str) -> (r: Option<ApiCall>)
    ensures
        ({
            let q = query_pairs(query@);
            if present(q, "id"@) {
                gives(
                    r,
                    post_view(
                        "weapi"@,
                        "https://music.163.com/weapi/videotimeline/videogroup/get"@,
                        json_object(seq![
                            ("groupId"@, JsonFieldView::Text(val(q, "id"@))),
                            ("needUrl"@, JsonFieldView::Flag(true)),
                            ("offset"@, JsonFieldView::Text(value_or(q, "offset"@, "0"@))),
                            ("resolution"@, JsonFieldView::Text(value_or(q, "res"@, "1080"@))),
                        ]),
                    ),
                )
            } else {
                r is None
            }
        }),
{
    let q = Query::parse(query);
    let r_id = match q.value("id") { Some(v) => v, None => return None };
    let url = "https://music.163.com/weapi/videotimeline/videogroup/get".to_owned();
    let mut fields: Vec<(String, JsonField)> = Vec::new();
    fields.push(text_field("groupId", r_id.as_str()));
    fields.push(("needUrl".to_owned(), JsonField::Flag(true)));
    let v_offset = q.value_or("offset", "0");
    fields.push(text_field("offset", v_offset.as_str()));
    let v_resolution = q.value_or("res", "1080");
    fields.push(text_field("resolution", v_resolution.as_str()));
    proof {
        reveal_strlit("groupId");
        reveal_strlit("needUrl");
        reveal_strlit("offset");
        reveal_strlit("resolution");
        reveal_with_fuel(text_less, 2);
    }
    assert(fields_view(fields@) =~= seq![
        ("groupId"@, JsonFieldView::Text(val(q@, "id"@))),
        ("needUrl"@, JsonFieldView::Flag(true)),
        ("offset"@, JsonFieldView::Text(value_or(q@, "offset"@, "0"@))),
        ("resolution"@, JsonFieldView::Text(value_or(q@, "res"@, "1080"@))),
    ]);
    let info = json_object_string(&fields);
    Some(post("weapi", url.as_str(), info.as_str()))
}

/// `/video/group`: clips of group `id` (needed) from `offset` (0), with
/// their addresses, at resolution `res` (1080).
pub fn index_video_group(query: &str) -> (c: ApiCall)
    requires
        ({
            let q = query_pairs(query@);
            present(q, "id"@)
        }),
    ensures
        ({
            let q = query_pairs(query@);
            c@ == post_view(
                        "weapi"@,
                        "https://music.163.com/weapi/videotimeline/videogroup/get"@,
                        json_object(seq![
                            ("groupId"@, JsonFieldView::Text(val(q, "id"@))),
                            ("needUrl"@, JsonFieldView::Flag(true)),
                            ("offset"@, JsonFieldView::Text(value_or(q, "offset"@, "0"@))),
                            ("resolution"@, JsonFieldView::Text(value_or(q, "res"@, "1080"@))),
                        ]),
                    )
        }),
{
    try_index_video_group(query).unwrap()
}

/// `/video/group/list`: no parameters.
pub fn index_video_group_list() -> (c: ApiCall)
    ensures
        c@ == post_view("weapi"@, "https://music.163.com/api/cloudvideo/group/list"@, "{}"@),
{
    post("weapi", "https://music.163.com/api/cloudvideo/group/list", "{}")
}

/// `index_video_sub` on any query: `None` on the queries that it does not accept,
/// where the server fails the request without calling the service.
pub fn try_index_video_sub(query: &str) -> (r: Option<ApiCall>)
    ensures
        ({
            let q = query_pairs(query@);
            if present(q, "t"@) && present(q, "id"@) {
                gives(
                    r,
                    post_view(
                        "weapi"@,
                        "https://music.163.com/weapi/cloudvideo/video/"@ + val(q, "t"@),
                        json_object(seq![
                            ("id"@, JsonFieldView::Text(val(q, "id"@))),
                        ]),
                    ),
                )
            } else {
                r is None
            }
        }),
{
    let q = Query::parse(query);
    let r_t = match q.value("t") { Some(v) => v, None => return None };
    let r_id = match q.value("id") { Some(v) => v, None => return None };
    let url = concat("https://music.163.com/weapi/cloudvideo/video/", r_t.as_str());
    let mut fields: Vec<(String, JsonField)> = Vec::new();
    fields.push(text_field("id", r_id.as_str()));
    proof {
        reveal_strlit("id");
        reveal_with_fuel(text_less, 2);
    }
    assert(fields_view(fields@) =~= seq![
        ("id"@, JsonFieldView::Text(val(q@, "id"@))),
    ]);
    let info = json_object_string(&fields);
    Some(post("weapi", url.as_str(), info.as_str()))
}

/// `/video/sub`: operation `t` on clip `id`, both needed.
pub fn index_video_sub(query: &str) -> (c: ApiCall)
    requires
        ({
            let q = query_pairs(query@);
            present(q, "t"@) && present(q, "id"@)
        }),
    ensures
        ({
            let q = query_pairs(query@);
            c@ == post_view(
                        "weapi"@,
                        "https://music.163.com/weapi/cloudvideo/video/"@ + val(q, "t"@),
                        json_object(seq![
                            ("id"@, JsonFieldView::Text(val(q, "id"@))),
                        ]),
                    )
        }),
{
    try_index_video_sub(query).unwrap()
}

/// The parameters of `/video/url`: `{"ids":"<listed>","resolution":"<res>"}`.
pub open spec fn video_url_payload(listed: Seq<char>, res: Seq<char>) -> Seq<char> {
    json_object(
        seq![("ids"@, JsonFieldView::Text(listed)), ("resolution"@, JsonFieldView::Text(res))],
    )
}

/// Writes the parameters of `/video/url` from the listed ids and resolution.
pub fn video_url_payload_of(listed: &str, res: &str) -> (s: String)
    ensures
        s@ == video_url_payload(listed@, res@),
{
    let mut fields: Vec<(String, JsonField)> = Vec::new();
    fields.push(text_field("ids", listed));
    fields.push(text_field("resolution", res));
    proof {
        reveal_strlit("ids");
        reveal_strlit("resolution");
    }
    assert(fields_view(fields@) =~= seq![
        ("ids"@, JsonFieldView::Text(listed@)),
        ("resolution"@, JsonFieldView::Text(res@)),
    ]);
    json_object_string(&fields)
}

/// `index_video_url` on any query: `None` on the queries that it does not accept,
/// where the server fails the request without calling the service.
pub fn try_index_video_url(query: &str) -> (r: Option<ApiCall>)
    ensures
        ({
            let q = query_pairs(query@);
            if present(q, "id"@) {
                gives(
                    r,
                    post_view(
                        "weapi"@,
                        "https://music.163.com/weapi/cloudvideo/playurl"@,
                        video_url_payload(
                            debug_list(split_text(val(q, "id"@), ',')),
                            value_or(q, "res"@, "1080"@),
                        ),
                    ),
                )
            } else {
                r is None
            }
        }),
{
    let q = Query::parse(query);
    let id = match q.value("id") { Some(v) => v, None => return None };
    let ids = split(id.as_str(), ',');
    let listed = debug_list_string(&ids);
    let res = q.value_or("res", "1080");
    let info = video_url_payload_of(listed.as_str(), res.as_str());
    Some(post("weapi", "https://music.163.com/weapi/cloudvideo/playurl", info.as_str()))
}

/// `/video/url`: the addresses of the clips listed, separated by commas, in
/// `id` (needed), at resolution `res` (1080); the ids are sent as the text
/// `Debug` writes for the list.
pub fn index_video_url(query: &str) -> (c: ApiCall)
    requires
        ({
            let q = query_pairs(query@);
            present(q, "id"@)
        }),
    ensures
        ({
            let q = query_pairs(query@);
            c@ == post_view(
                        "weapi"@,
                        "https://music.163.com/weapi/cloudvideo/playurl"@,
                        video_url_payload(
                            debug_list(split_text(val(q, "id"@), ',')),
                            value_or(q, "res"@, "1080"@),
                        ),
                    )
        }),
{
    try_index_video_url(query).unwrap()
}

} // verus!
