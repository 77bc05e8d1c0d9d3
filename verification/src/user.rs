//! Endpoints about users and their cloud storage.

use vstd::prelude::*;
use crate::calls::{concat, gives, present, post, post_query, post_renamed, post_view, val, yields};
use crate::json::{text_field, fields_view, json_object, json_object_string, text_less, JsonField, JsonFieldView};
use crate::query::{json_text, lookup, query_json, query_pairs, rename_key, revalue, value_or, Query};
use crate::request::{ApiCall, ApiCallView};
use crate::text::{split, split_text};

verus! {

/// `/user/audio`: the query passed on, with `uid` renamed `userId`.
pub fn index_user_audio(query: &str) -> (c: ApiCall)
    ensures
        c@ == post_view(
            "weapi"@,
            "https://music.163.com/weapi/djradio/get/byuser"@,
            json_text(rename_key(query_pairs(query@), "uid"@, "userId"@)),
        ),
{
    post_renamed("weapi", "https://music.163.com/weapi/djradio/get/byuser", query, "uid", "userId")
}

/// `/user/cloud`: the query passed on.
pub fn index_user_cloud(query: &str) -> (c: ApiCall)
    ensures
        c@ == post_view("weapi"@, "https://music.163.com/weapi/v1/cloud/get"@, query_json(query@)),
{
    post_query("weapi", "https://music.163.com/weapi/v1/cloud/get", query)
}

/// The call of `/user/cloud/del`: the query with `id` renamed `songIds`,
/// and every value equal to the `songIds` (needed) put in brackets.
pub open spec fn user_cloud_del_call(q: Seq<(Seq<char>, Seq<char>)>) -> Option<ApiCallView> {
    let renamed = rename_key(q, "id"@, "songIds"@);
    match lookup(renamed, "songIds"@) {
        None => None,
        Some(ids) => Some(
            post_view(
                "weapi"@,
                "http://music.163.com/weapi/cloud/del"@,
                json_text(revalue(renamed, ids, "["@ + ids + "]"@)),
            ),
        ),
    }
}

/// `index_user_cloud_del` on any query: `None` on the queries that it does not accept,
/// where the server fails the request without calling the service.
pub fn try_index_user_cloud_del(query: &str) -> (r: Option<ApiCall>)
    ensures
        yields(r, user_cloud_del_call(query_pairs(query@))),
{
    let q = Query::parse(query).replace_key("id", "songIds");
    let ids = match q.value("songIds") { Some(v) => v, None => return None };
    let mut bracketed = concat("[", ids.as_str());
    bracketed.append("]");
    let info = q.replace_value(ids.as_str(), bracketed.as_str()).json();
    Some(post("weapi", "http://music.163.com/weapi/cloud/del", info.as_str()))
}

/// `/user/cloud/del`: see `user_cloud_del_call`.
pub fn index_user_cloud_del(query: &str) -> (c: ApiCall)
    requires
        user_cloud_del_call(query_pairs(query@)) is Some,
    ensures
        Some(c@) == user_cloud_del_call(query_pairs(query@)),
{
    try_index_user_cloud_del(query).unwrap()
}

/// `index_user_cloud_detail` on any query: `None` on the queries that it does not accept,
/// where the server fails the request without calling the service.
pub fn try_index_user_cloud_detail(query: &str) -> (r: Option<ApiCall>)
    ensures
        ({
            let q = query_pairs(query@);
            if present(q, "id"@) {
                gives(
                    r,
                    post_view(
                        "weapi"@,
                        "https://music.163.com/weapi/v1/cloud/get/byids"@,
                        json_object(seq![("songIds"@, JsonFieldView::Texts(split_text(val(q, "id"@), ',')))]),
                    ),
                )
            } else {
                r is None
            }
        }),
{
    let q = Query::parse(query);
    let id = match q.value("id") { Some(v) => v, None => return None };
    let ids = split(id.as_str(), ',');
    let mut fields: Vec<(String, JsonField)> = Vec::new();
    fields.push(("songIds".to_owned(), JsonField::Texts(ids)));
    assert(fields_view(fields@) =~= seq![("songIds"@, JsonFieldView::Texts(split_text(id@, ',')))]);
    let info = json_object_string(&fields);
    Some(post("weapi", "https://music.163.com/weapi/v1/cloud/get/byids", info.as_str()))
}

/// `/user/cloud/detail`: the cloud songs whose ids are listed, separated by
/// commas, in `id` (needed), as `{"songIds":[..]}`.
pub fn index_user_cloud_detail(query: &str) -> (c: ApiCall)
    requires
        ({
            let q = query_pairs(query@);
            present(q, "id"@)
        }),
    ensures
        ({
            let q = query_pairs(query@);
            c@ == post_view(
                        "weapi"@,
                        "https://music.163.com/weapi/v1/cloud/get/byids"@,
                        json_object(seq![("songIds"@, JsonFieldView::Texts(split_text(val(q, "id"@), ',')))]),
                    )
        }),
{
    try_index_user_cloud_detail(query).unwrap()
}

/// `index_user_detail` on any query: `None` on the queries that it does not accept,
/// where the server fails the request without calling the service.
pub fn try_index_user_detail(query: &str) -> (r: Option<ApiCall>)
    ensures
        ({
            let q = query_pairs(query@);
            if present(q, "uid"@) {
                gives(
                    r,
                    post_view("weapi"@, "https://music.163.com/weapi/v1/user/detail/"@ + val(q, "uid"@), "{}"@),
                )
            } else {
                r is None
            }
        }),
{
    let q = Query::parse(query);
    let uid = match q.value("uid") { Some(v) => v, None => return None };
    let url = concat("https://music.163.com/weapi/v1/user/detail/", uid.as_str());
    Some(post("weapi", url.as_str(), "{}"))
}

/// `/user/detail`: user `uid` (needed) goes into the address.
pub fn index_user_detail(query: &str) -> (c: ApiCall)
    requires
        ({
            let q = query_pairs(query@);
            present(q, "uid"@)
        }),
    ensures
        ({
            let q = query_pairs(query@);
            c@ == post_view("weapi"@, "https://music.163.com/weapi/v1/user/detail/"@ + val(q, "uid"@), "{}"@)
        }),
{
    try_index_user_detail(query).unwrap()
}

/// `index_user_dj` on any query: `None` on the queries that it does not accept,
/// where the server fails the request without calling the service.
pub fn try_index_user_dj(query: &str) -> (r: Option<ApiCall>)
    ensures
        ({
            let q = query_pairs(query@);
            if present(q, "uid"@) {
                gives(
                    r,
                    post_view(
                        "weapi"@,
                        "https://music.163.com/weapi/dj/program/"@ + val(q, "uid"@),
                        json_object(seq![
                            ("limit"@, JsonFieldView::Text(value_or(q, "limit"@, "30"@))),
                            ("offset"@, JsonFieldView::Text(value_or(q, "offset"@, "0"@))),
                        ]),
                    ),
                )
            } else {
                r is None
            }
        }),
{
    let q = Query::parse(query);
    let r_uid = match q.value("uid") { Some(v) => v, None => return None };
    let url = concat("https://music.163.com/weapi/dj/program/", r_uid.as_str());
    let mut fields: Vec<(String, JsonField)> = Vec::new();
    let v_limit = q.value_or("limit", "30");
    fields.push(text_field("limit", v_limit.as_str()));
    let v_offset = q.value_or("offset", "0");
    fields.push(text_field("offset", v_offset.as_str()));
    proof {
        reveal_strlit("limit");
        reveal_strlit("offset");
        reveal_with_fuel(text_less, 2);
    }
    assert(fields_view(fields@) =~= seq![
        ("limit"@, JsonFieldView::Text(value_or(q@, "limit"@, "30"@))),
        ("offset"@, JsonFieldView::Text(value_or(q@, "offset"@, "0"@))),
    ]);
    let info = json_object_string(&fields);
    Some(post("weapi", url.as_str(), info.as_str()))
}

/// `/user/dj`: a page (`limit` 30, `offset` 0) of the programs of user `uid`
/// (needed).
pub fn index_user_dj(query: &str) -> (c: ApiCall)
    requires
        ({
            let q = query_pairs(query@);
            present(q, "uid"@)
        }),
    ensures
        ({
            let q = query_pairs(query@);
            c@ == post_view(
                        "weapi"@,
                        "https://music.163.com/weapi/dj/program/"@ + val(q, "uid"@),
                        json_object(seq![
                            ("limit"@, JsonFieldView::Text(value_or(q, "limit"@, "30"@))),
                            ("offset"@, JsonFieldView::Text(value_or(q, "offset"@, "0"@))),
                        ]),
                    )
        }),
{
    try_index_user_dj(query).unwrap()
}

/// `index_user_event` on any query: `None` on the queries that it does not accept,
/// where the server fails the request without calling the service.
pub fn try_index_user_event(query: &str) -> (r: Option<ApiCall>)
    ensures
        ({
            let q = query_pairs(query@);
            if present(q, "uid"@) {
                gives(
                    r,
                    post_view(
                        "weapi"@,
                        "https://music.163.com/weapi/event/get/"@ + val(q, "uid"@),
                        json_object(seq![
                            ("getcounts"@, JsonFieldView::Text("true"@)),
                            ("limit"@, JsonFieldView::Text(value_or(q, "limit"@, "30"@))),
                            ("time"@, JsonFieldView::Text(value_or(q, "lasttime"@, "-1"@))),
                            ("total"@, JsonFieldView::Text("true"@)),
                        ]),
                    ),
                )
            } else {
                r is None
            }
        }),
{
    let q = Query::parse(query);
    let r_uid = match q.value("uid") { Some(v) => v, None => return None };
    let url = concat("https://music.163.com/weapi/event/get/", r_uid.as_str());
    let mut fields: Vec<(String, JsonField)> = Vec::new();
    fields.push(text_field("getcounts", "true"));
    let v_limit = q.value_or("limit", "30");
    fields.push(text_field("limit", v_limit.as_str()));
    let v_time = q.value_or("lasttime", "-1");
    fields.push(text_field("time", v_time.as_str()));
    fields.push(text_field("total", "true"));
    proof {
        reveal_strlit("getcounts");
        reveal_strlit("limit");
        reveal_strlit("time");
        reveal_strlit("total");
        reveal_with_fuel(text_less, 3);
    }
    assert(fields_view(fields@) =~= seq![
        ("getcounts"@, JsonFieldView::Text("true"@)),
        ("limit"@, JsonFieldView::Text(value_or(q@, "limit"@, "30"@))),
        ("time"@, JsonFieldView::Text(value_or(q@, "lasttime"@, "-1"@))),
        ("total"@, JsonFieldView::Text("true"@)),
    ]);
    let info = json_object_string(&fields);
    Some(post("weapi", url.as_str(), info.as_str()))
}

/// `/user/event`: 30 (`limit`) events of user `uid` (needed) before
/// `lasttime` (-1), with counts and the total.
pub fn index_user_event(query: &str) -> (c: ApiCall)
    requires
        ({
            let q = query_pairs(query@);
            present(q, "uid"@)
        }),
    ensures
        ({
            let q = query_pairs(query@);
            c@ == post_view(
                        "weapi"@,
                        "https://music.163.com/weapi/event/get/"@ + val(q, "uid"@),
                        json_object(seq![
                            ("getcounts"@, JsonFieldView::Text("true"@)),
                            ("limit"@, JsonFieldView::Text(value_or(q, "limit"@, "30"@))),
                            ("time"@, JsonFieldView::Text(value_or(q, "lasttime"@, "-1"@))),
                            ("total"@, JsonFieldView::Text("true"@)),
                        ]),
                    )
        }),
{
    try_index_user_event(query).unwrap()
}

/// `index_user_followeds` on any query: `None` on the queries that it does not accept,
/// where the server fails the request without calling the service.
pub fn try_index_user_followeds(query: &str) -> (r: Option<ApiCall>)
    ensures
        ({
            let q = query_pairs(query@);
            if present(q, "uid"@) {
                gives(
                    r,
                    post_view(
                        "weapi"@,
                        "https://music.163.com/eapi/user/getfolloweds/"@ + val(q, "uid"@),
                        json_object(seq![
                            ("limit"@, JsonFieldView::Text(value_or(q, "limit"@, "30"@))),
                            ("time"@, JsonFieldView::Text(value_or(q, "lasttime"@, "-1"@))),
                            ("userId"@, JsonFieldView::Text(val(q, "uid"@))),
                        ]),
                    ),
                )
            } else {
                r is None
            }
        }),
{
    let q = Query::parse(query);
    let r_uid = match q.value("uid") { Some(v) => v, None => return None };
    let url = concat("https://music.163.com/eapi/user/getfolloweds/", r_uid.as_str());
    let mut fields: Vec<(String, JsonField)> = Vec::new();
    let v_limit = q.value_or("limit", "30");
    fields.push(text_field("limit", v_limit.as_str()));
    let v_time = q.value_or("lasttime", "-1");
    fields.push(text_field("time", v_time.as_str()));
    fields.push(text_field("userId", r_uid.as_str()));
    proof {
        reveal_strlit("limit");
        reveal_strlit("time");
        reveal_strlit("userId");
        reveal_with_fuel(text_less, 2);
    }
    assert(fields_view(fields@) =~= seq![
        ("limit"@, JsonFieldView::Text(value_or(q@, "limit"@, "30"@))),
        ("time"@, JsonFieldView::Text(value_or(q@, "lasttime"@, "-1"@))),
        ("userId"@, JsonFieldView::Text(val(q@, "uid"@))),
    ]);
    let info = json_object_string(&fields);
    Some(post("weapi", url.as_str(), info.as_str()))
}

/// `/user/followeds`: 30 (`limit`) followers of user `uid` (needed) before
/// `lasttime` (-1).
pub fn index_user_followeds(query: &str) -> (c: ApiCall)
    requires
        ({
            let q = query_pairs(query@);
            present(q, "uid"@)
        }),
    ensures
        ({
            let q = query_pairs(query@);
            c@ == post_view(
                        "weapi"@,
                        "https://music.163.com/eapi/user/getfolloweds/"@ + val(q, "uid"@),
                        json_object(seq![
                            ("limit"@, JsonFieldView::Text(value_or(q, "limit"@, "30"@))),
                            ("time"@, JsonFieldView::Text(value_or(q, "lasttime"@, "-1"@))),
                            ("userId"@, JsonFieldView::Text(val(q, "uid"@))),
                        ]),
                    )
        }),
{
    try_index_user_followeds(query).unwrap()
}

/// `index_user_follows` on any query: `None` on the queries that it does not accept,
/// where the server fails the request without calling the service.
pub fn try_index_user_follows(query: &str) -> (r: Option<ApiCall>)
    ensures
        ({
            let q = query_pairs(query@);
            if present(q, "uid"@) {
                gives(
                    r,
                    post_view(
                        "weapi"@,
                        "https://music.163.com/weapi/user/getfollows/"@ + val(q, "uid"@),
                        json_object(seq![
                            ("limit"@, JsonFieldView::Text(value_or(q, "limit"@, "30"@))),
                            ("offset"@, JsonFieldView::Text(value_or(q, "offset"@, "0"@))),
                            ("order"@, JsonFieldView::Text("true"@)),
                        ]),
                    ),
                )
            } else {
                r is None
            }
        }),
{
    let q = Query::parse(query);
    let r_uid = match q.value("uid") { Some(v) => v, None => return None };
    let url = concat("https://music.163.com/weapi/user/getfollows/", r_uid.as_str());
    let mut fields: Vec<(String, JsonField)> = Vec::new();
    let v_limit = q.value_or("limit", "30");
    fields.push(text_field("limit", v_limit.as_str()));
    let v_offset = q.value_or("offset", "0");
    fields.push(text_field("offset", v_offset.as_str()));
    fields.push(text_field("order", "true"));
    proof {
        reveal_strlit("limit");
        reveal_strlit("offset");
        reveal_strlit("order");
        reveal_with_fuel(text_less, 3);
    }
    assert(fields_view(fields@) =~= seq![
        ("limit"@, JsonFieldView::Text(value_or(q@, "limit"@, "30"@))),
        ("offset"@, JsonFieldView::Text(value_or(q@, "offset"@, "0"@))),
        ("order"@, JsonFieldView::Text("true"@)),
    ]);
    let info = json_object_string(&fields);
    Some(post("weapi", url.as_str(), info.as_str()))
}

/// `/user/follows`: a page (`limit` 30, `offset` 0) of the users that user
/// `uid` (needed) follows.
pub fn index_user_follows(query: &str) -> (c: ApiCall)
    requires
        ({
            let q = query_pairs(query@);
            present(q, "uid"@)
        }),
    ensures
        ({
            let q = query_pairs(query@);
            c@ == post_view(
                        "weapi"@,
                        "https://music.163.com/weapi/user/getfollows/"@ + val(q, "uid"@),
                        json_object(seq![
                            ("limit"@, JsonFieldView::Text(value_or(q, "limit"@, "30"@))),
                            ("offset"@, JsonFieldView::Text(value_or(q, "offset"@, "0"@))),
                            ("order"@, JsonFieldView::Text("true"@)),
                        ]),
                    )
        }),
{
    try_index_user_follows(query).unwrap()
}

/// `/user/playlist`: the query passed on.
pub fn index_user_playlist(query: &str) -> (c: ApiCall)
    ensures
        c@ == post_view("weapi"@, "https://music.163.com/weapi/user/playlist"@, query_json(query@)),
{
    post_query("weapi", "https://music.163.com/weapi/user/playlist", query)
}

/// `/user/record`: the query passed on.
pub fn index_user_record(query: &str) -> (c: ApiCall)
    ensures
        c@ == post_view("weapi"@, "https://music.163.com/weapi/v1/play/record"@, query_json(query@)),
{
    post_query("weapi", "https://music.163.com/weapi/v1/play/record", query)
}

/// `/user/subcount`: no parameters.
pub fn index_user_subcount() -> (c: ApiCall)
    ensures
        c@ == post_view("weapi"@, "https://music.163.com/weapi/subcount"@, "{}"@),
{
    post("weapi", "https://music.163.com/weapi/subcount", "{}")
}

/// `index_user_update` on any query: `None` on the queries that it does not accept,
/// where the server fails the request without calling the service.
pub fn try_index_user_update(query: &str) -> (r: Option<ApiCall>)
    ensures
        ({
            let q = query_pairs(query@);
            if present(q, "birthday"@) && present(q, "city"@) && present(q, "gender"@) && present(q, "nickname"@) && present(q, "province"@) && present(q, "signature"@) {
                gives(
                    r,
                    post_view(
                        "weapi"@,
                        "https://music.163.com/weapi/user/profile/update"@,
                        json_object(seq![
                            ("avatarImgId"@, JsonFieldView::Text("0"@)),
                            ("birthday"@, JsonFieldView::Text(val(q, "birthday"@))),
                            ("city"@, JsonFieldView::Text(val(q, "city"@))),
                            ("gender"@, JsonFieldView::Text(val(q, "gender"@))),
                            ("nickname"@, JsonFieldView::Text(val(q, "nickname"@))),
                            ("province"@, JsonFieldView::Text(val(q, "province"@))),
                            ("signature"@, JsonFieldView::Text(val(q, "signature"@))),
                        ]),
                    ),
                )
            } else {
                r is None
            }
        }),
{
    let q = Query::parse(query);
    let r_birthday = match q.value("birthday") { Some(v) => v, None => return None };
    let r_city = match q.value("city") { Some(v) => v, None => return None };
    let r_gender = match q.value("gender") { Some(v) => v, None => return None };
    let r_nickname = match q.value("nickname") { Some(v) => v, None => return None };
    let r_province = match q.value("province") { Some(v) => v, None => return None };
    let r_signature = match q.value("signature") { Some(v) => v, None => return None };
    let url = "https://music.163.com/weapi/user/profile/update".to_owned();
    let mut fields: Vec<(String, JsonField)> = Vec::new();
    fields.push(text_field("avatarImgId", "0"));
    fields.push(text_field("birthday", r_birthday.as_str()));
    fields.push(text_field("city", r_city.as_str()));
    fields.push(text_field("gender", r_gender.as_str()));
    fields.push(text_field("nickname", r_nickname.as_str()));
    fields.push(text_field("province", r_province.as_str()));
    fields.push(text_field("signature", r_signature.as_str()));
    proof {
        reveal_strlit("avatarImgId");
        reveal_strlit("birthday");
        reveal_strlit("city");
        reveal_strlit("gender");
        reveal_strlit("nickname");
        reveal_strlit("province");
        reveal_strlit("signature");
        reveal_with_fuel(text_less, 2);
    }
    assert(fields_view(fields@) =~= seq![
        ("avatarImgId"@, JsonFieldView::Text("0"@)),
        ("birthday"@, JsonFieldView::Text(val(q@, "birthday"@))),
        ("city"@, JsonFieldView::Text(val(q@, "city"@))),
        ("gender"@, JsonFieldView::Text(val(q@, "gender"@))),
        ("nickname"@, JsonFieldView::Text(val(q@, "nickname"@))),
        ("province"@, JsonFieldView::Text(val(q@, "province"@))),
        ("signature"@, JsonFieldView::Text(val(q@, "signature"@))),
    ]);
    let info = json_object_string(&fields);
    Some(post("weapi", url.as_str(), info.as_str()))
}

/// `/user/update`: sets the profile to `birthday`, `city`, `gender`,
/// `nickname`, `province` and `signature`, all needed.
pub fn index_user_update(query: &str) -> (c: ApiCall)
    requires
        ({
            let q = query_pairs(query@);
            present(q, "birthday"@) && present(q, "city"@) && present(q, "gender"@) && present(q, "nickname"@) && present(q, "province"@) && present(q, "signature"@)
        }),
    ensures
        ({
            let q = query_pairs(query@);
            c@ == post_view(
                        "weapi"@,
                        "https://music.163.com/weapi/user/profile/update"@,
                        json_object(seq![
                            ("avatarImgId"@, JsonFieldView::Text("0"@)),
                            ("birthday"@, JsonFieldView::Text(val(q, "birthday"@))),
                            ("city"@, JsonFieldView::Text(val(q, "city"@))),
                            ("gender"@, JsonFieldView::Text(val(q, "gender"@))),
                            ("nickname"@, JsonFieldView::Text(val(q, "nickname"@))),
                            ("province"@, JsonFieldView::Text(val(q, "province"@))),
                            ("signature"@, JsonFieldView::Text(val(q, "signature"@))),
                        ]),
                    )
        }),
{
    try_index_user_update(query).unwrap()
}

} // verus!
