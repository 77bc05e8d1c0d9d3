//! Endpoints about accounts: logins, captchas, follows, likes and events.

use vstd::prelude::*;
use crate::calls::{call_view, concat, gives, present, post, post_query, post_view, val, yields};
use crate::crypto::{hash_password, password_hash};
use crate::query::{json_of_query, query_json, query_pairs, value_or, Query};
use crate::request::{ApiCall, ApiCallView};
use crate::album::page_query;
use crate::text::str_eq;

verus! {

/// `index_captcha_register` on any query: `None` on the queries that it does not accept,
/// where the server fails the request without calling the service.
pub fn try_index_captcha_register(query: &str) -> (r: Option<ApiCall>)
    ensures
        ({
            let q = query_pairs(query@);
            &&& !(present(q, "captcha"@) && present(q, "phone"@) && present(q, "password"@) && present(
                q,
                "nickname"@,
            )) ==> r is None
            &&& r is Some ==> gives(
                r,
                post_view(
                    "weapi"@,
                    "https://music.163.com/weapi/register/cellphone"@,
                    query_json(
                        "captcha="@ + val(q, "captcha"@) + "&phone="@ + val(q, "phone"@)
                            + "&password="@ + password_hash(val(q, "password"@)) + "&nickname="@
                            + val(q, "nickname"@),
                    ),
                ),
            ) && present(q, "captcha"@) && present(q, "phone"@) && present(q, "password"@) && present(q, "nickname"@)
        }),
{
    let q = Query::parse(query);
    let password = match q.value("password") { Some(v) => v, None => return None };
    let pw = match hash_password(password.as_str()) { Some(h) => h, None => return None };
    index_captcha_register_with_digest(query, pw.as_str())
}

/// `/captcha/register`: registers phone `phone` with `captcha`, the digest of
/// `password` and `nickname`; all four are needed.
pub fn index_captcha_register(query: &str) -> (r: Option<ApiCall>)
    requires
        ({
            let q = query_pairs(query@);
            present(q, "captcha"@) && present(q, "phone"@) && present(q, "password"@) && present(q, "nickname"@)
        }),
    ensures
        ({
            let q = query_pairs(query@);
            r is Some ==> yields(r, captcha_register_call(q, password_hash(val(q, "password"@))))
        }),
{
    try_index_captcha_register(query)
}

/// The call of `/captcha/register` with `digest` sent as the password.
pub open spec fn captcha_register_call(q: Seq<(Seq<char>, Seq<char>)>, digest: Seq<char>) -> Option<
    ApiCallView,
> {
    if present(q, "captcha"@) && present(q, "phone"@) && present(q, "password"@) && present(
        q,
        "nickname"@,
    ) {
        Some(
            post_view(
                "weapi"@,
                "https://music.163.com/weapi/register/cellphone"@,
                query_json(
                    "captcha="@ + val(q, "captcha"@) + "&phone="@ + val(q, "phone"@) + "&password="@
                        + digest + "&nickname="@ + val(q, "nickname"@),
                ),
            ),
        )
    } else {
        None
    }
}

/// `/captcha/register` with `digest` sent as the password; see
/// `captcha_register_call`.
pub fn index_captcha_register_with_digest(query: &str, digest: &str) -> (r: Option<ApiCall>)
    ensures
        yields(r, captcha_register_call(query_pairs(query@), digest@)),
{
    let q = Query::parse(query);
    let captcha = match q.value("captcha") { Some(v) => v, None => return None };
    let phone = match q.value("phone") { Some(v) => v, None => return None };
    let _password = match q.value("password") { Some(v) => v, None => return None };
    let nickname = match q.value("nickname") { Some(v) => v, None => return None };
    let mut s = concat("captcha=", captcha.as_str());
    s.append("&phone=");
    s.append(phone.as_str());
    s.append("&password=");
    s.append(digest);
    s.append("&nickname=");
    s.append(nickname.as_str());
    let info = json_of_query(s.as_str());
    Some(post("weapi", "https://music.163.com/weapi/register/cellphone", info.as_str()))
}

/// `index_captcha_sent` on any query: `None` on the queries that it does not accept,
/// where the server fails the request without calling the service.
pub fn try_index_captcha_sent(query: &str) -> (r: Option<ApiCall>)
    ensures
        ({
            let q = query_pairs(query@);
            if present(q, "phone"@) {
                gives(
                    r,
                    post_view(
                        "weapi"@,
                        "https://music.163.com/weapi/sms/captcha/sent"@,
                        query_json(
                            "ctcode="@ + value_or(q, "ctcode"@, "86"@) + "&cellphone="@ + val(
                                q,
                                "phone"@,
                            ),
                        ),
                    ),
                )
            } else {
                r is None
            }
        }),
{
    let q = Query::parse(query);
    let ctcode = q.value_or("ctcode", "86");
    let phone = match q.value("phone") { Some(v) => v, None => return None };
    let mut s = concat("ctcode=", ctcode.as_str());
    s.append("&cellphone=");
    s.append(phone.as_str());
    let info = json_of_query(s.as_str());
    Some(post("weapi", "https://music.163.com/weapi/sms/captcha/sent", info.as_str()))
}

/// `/captcha/sent`: sends a captcha to `phone` (needed) with country code
/// `ctcode` (86).
pub fn index_captcha_sent(query: &str) -> (c: ApiCall)
    requires
        ({
            let q = query_pairs(query@);
            present(q, "phone"@)
        }),
    ensures
        ({
            let q = query_pairs(query@);
            c@ == post_view(
                        "weapi"@,
                        "https://music.163.com/weapi/sms/captcha/sent"@,
                        query_json(
                            "ctcode="@ + value_or(q, "ctcode"@, "86"@) + "&cellphone="@ + val(
                                q,
                                "phone"@,
                            ),
                        ),
                    )
        }),
{
    try_index_captcha_sent(query).unwrap()
}

/// `index_captcha_verify` on any query: `None` on the queries that it does not accept,
/// where the server fails the request without calling the service.
pub fn try_index_captcha_verify(query: &str) -> (r: Option<ApiCall>)
    ensures
        ({
            let q = query_pairs(query@);
            if present(q, "phone"@) && present(q, "captcha"@) {
                gives(
                    r,
                    post_view(
                        "weapi"@,
                        "https://music.163.com/weapi/sms/captcha/verify"@,
                        query_json(
                            "ctcode="@ + value_or(q, "ctcode"@, "86"@) + "&cellphone="@ + val(
                                q,
                                "phone"@,
                            ) + "&captcha="@ + val(q, "captcha"@),
                        ),
                    ),
                )
            } else {
                r is None
            }
        }),
{
    let q = Query::parse(query);
    let ctcode = q.value_or("ctcode", "86");
    let phone = match q.value("phone") { Some(v) => v, None => return None };
    let captcha = match q.value("captcha") { Some(v) => v, None => return None };
    let mut s = concat("ctcode=", ctcode.as_str());
    s.append("&cellphone=");
    s.append(phone.as_str());
    s.append("&captcha=");
    s.append(captcha.as_str());
    let info = json_of_query(s.as_str());
    Some(post("weapi", "https://music.163.com/weapi/sms/captcha/verify", info.as_str()))
}

/// `/captcha/verify`: checks `captcha` for `phone` (both needed), country
/// code `ctcode` (86).
pub fn index_captcha_verify(query: &str) -> (c: ApiCall)
    requires
        ({
            let q = query_pairs(query@);
            present(q, "phone"@) && present(q, "captcha"@)
        }),
    ensures
        ({
            let q = query_pairs(query@);
            c@ == post_view(
                        "weapi"@,
                        "https://music.163.com/weapi/sms/captcha/verify"@,
                        query_json(
                            "ctcode="@ + value_or(q, "ctcode"@, "86"@) + "&cellphone="@ + val(
                                q,
                                "phone"@,
                            ) + "&captcha="@ + val(q, "captcha"@),
                        ),
                    )
        }),
{
    try_index_captcha_verify(query).unwrap()
}

/// `index_cellphone_existence_check` on any query: `None` on the queries that it does not accept,
/// where the server fails the request without calling the service.
pub fn try_index_cellphone_existence_check(query: &str) -> (r: Option<ApiCall>)
    ensures
        ({
            let q = query_pairs(query@);
            if present(q, "phone"@) {
                gives(
                    r,
                    post_view(
                        "eapi"@,
                        "http://music.163.com/eapi/cellphone/existence/check"@,
                        query_json(
                            "countrycode="@ + value_or(q, "countrycode"@, "86"@) + "&cellphone="@
                                + val(q, "phone"@),
                        ),
                    ),
                )
            } else {
                r is None
            }
        }),
{
    let q = Query::parse(query);
    let code = q.value_or("countrycode", "86");
    let phone = match q.value("phone") { Some(v) => v, None => return None };
    let mut s = concat("countrycode=", code.as_str());
    s.append("&cellphone=");
    s.append(phone.as_str());
    let info = json_of_query(s.as_str());
    Some(post("eapi", "http://music.163.com/eapi/cellphone/existence/check", info.as_str()))
}

/// `/cellphone/existence/check`: whether `phone` (needed) is registered,
/// country code `countrycode` (86).
pub fn index_cellphone_existence_check(query: &str) -> (c: ApiCall)
    requires
        ({
            let q = query_pairs(query@);
            present(q, "phone"@)
        }),
    ensures
        ({
            let q = query_pairs(query@);
            c@ == post_view(
                        "eapi"@,
                        "http://music.163.com/eapi/cellphone/existence/check"@,
                        query_json(
                            "countrycode="@ + value_or(q, "countrycode"@, "86"@) + "&cellphone="@
                                + val(q, "phone"@),
                        ),
                    )
        }),
{
    try_index_cellphone_existence_check(query).unwrap()
}

/// `/daily_signin`
pub fn index_daily_signin(query: &str) -> (c: ApiCall)
    ensures
        c@ == post_view("weapi"@, "https://music.163.com/weapi/point/dailyTask"@, query_json(query@)),
{
    post_query("weapi", "https://music.163.com/weapi/point/dailyTask", query)
}

/// `/digitalAlbum/purchased`: a page of 30 of the albums bought.
pub fn index_digitalAlbum_purchased(query: &str) -> (c: ApiCall)
    ensures
        ({
            let q = query_pairs(query@);
            c@ == post_view(
                "weapi"@,
                "https://music.163.com/api/digitalAlbum/purchased"@,
                query_json(page_query(value_or(q, "limit"@, "30"@), value_or(q, "offset"@, "0"@))),
            )
        }),
{
    let q = Query::parse(query);
    let limit = q.value_or("limit", "30");
    let offset = q.value_or("offset", "0");
    let mut s = concat("limit=", limit.as_str());
    s.append("&offset=");
    s.append(offset.as_str());
    s.append("&total=true");
    let info = json_of_query(s.as_str());
    post("weapi", "https://music.163.com/api/digitalAlbum/purchased", info.as_str())
}

/// `/event`
pub fn index_event(query: &str) -> (c: ApiCall)
    ensures
        c@ == post_view("weapi"@, "https://music.163.com/weapi/v1/event/get"@, query_json(query@)),
{
    post_query("weapi", "https://music.163.com/weapi/v1/event/get", query)
}

/// `index_event_del` on any query: `None` on the queries that it does not accept,
/// where the server fails the request without calling the service.
pub fn try_index_event_del(query: &str) -> (r: Option<ApiCall>)
    ensures
        ({
            let q = query_pairs(query@);
            if present(q, "evId"@) {
                gives(
                    r,
                    post_view(
                        "weapi"@,
                        "https://music.163.com/eapi/event/delete"@,
                        query_json("id="@ + val(q, "evId"@)),
                    ),
                )
            } else {
                r is None
            }
        }),
{
    let q = Query::parse(query);
    let ev = match q.value("evId") { Some(v) => v, None => return None };
    let info = json_of_query(concat("id=", ev.as_str()).as_str());
    Some(post("weapi", "https://music.163.com/eapi/event/delete", info.as_str()))
}

/// `/event/del`: deletes event `evId` (needed).
pub fn index_event_del(query: &str) -> (c: ApiCall)
    requires
        ({
            let q = query_pairs(query@);
            present(q, "evId"@)
        }),
    ensures
        ({
            let q = query_pairs(query@);
            c@ == post_view(
                        "weapi"@,
                        "https://music.163.com/eapi/event/delete"@,
                        query_json("id="@ + val(q, "evId"@)),
                    )
        }),
{
    try_index_event_del(query).unwrap()
}

/// `index_event_forward` on any query: `None` on the queries that it does not accept,
/// where the server fails the request without calling the service.
pub fn try_index_event_forward(query: &str) -> (r: Option<ApiCall>)
    ensures
        ({
            let q = query_pairs(query@);
            if present(q, "forwards"@) && present(q, "evId"@) && present(q, "uid"@) {
                gives(
                    r,
                    post_view(
                        "weapi"@,
                        "https://music.163.com/weapi/event/forward"@,
                        query_json(
                            "forwards="@ + val(q, "forwards"@) + "&id="@ + val(q, "evId"@)
                                + "&eventUserId="@ + val(q, "uid"@),
                        ),
                    ),
                )
            } else {
                r is None
            }
        }),
{
    let q = Query::parse(query);
    let forwards = match q.value("forwards") { Some(v) => v, None => return None };
    let ev = match q.value("evId") { Some(v) => v, None => return None };
    let uid = match q.value("uid") { Some(v) => v, None => return None };
    let mut s = concat("forwards=", forwards.as_str());
    s.append("&id=");
    s.append(ev.as_str());
    s.append("&eventUserId=");
    s.append(uid.as_str());
    let info = json_of_query(s.as_str());
    Some(post("weapi", "https://music.163.com/weapi/event/forward", info.as_str()))
}

/// `/event/forward`: forwards event `evId` of user `uid` with comment
/// `forwards`; all three are needed.
pub fn index_event_forward(query: &str) -> (c: ApiCall)
    requires
        ({
            let q = query_pairs(query@);
            present(q, "forwards"@) && present(q, "evId"@) && present(q, "uid"@)
        }),
    ensures
        ({
            let q = query_pairs(query@);
            c@ == post_view(
                        "weapi"@,
                        "https://music.163.com/weapi/event/forward"@,
                        query_json(
                            "forwards="@ + val(q, "forwards"@) + "&id="@ + val(q, "evId"@)
                                + "&eventUserId="@ + val(q, "uid"@),
                        ),
                    )
        }),
{
    try_index_event_forward(query).unwrap()
}

/// `index_fm_trash` on any query: `None` on the queries that it does not accept,
/// where the server fails the request without calling the service.
pub fn try_index_fm_trash(query: &str) -> (r: Option<ApiCall>)
    ensures
        ({
            let q = query_pairs(query@);
            if present(q, "id"@) {
                gives(
                    r,
                    post_view(
                        "weapi"@,
                        "https://music.163.com/weapi/radio/trash/add?alg=RT&songId="@ + val(
                            q,
                            "id"@,
                        ) + "&time="@ + value_or(q, "time"@, "25"@),
                        query_json("songId="@ + val(q, "id"@)),
                    ),
                )
            } else {
                r is None
            }
        }),
{
    let q = Query::parse(query);
    let id = match q.value("id") { Some(v) => v, None => return None };
    let time = q.value_or("time", "25");
    let mut url = concat("https://music.163.com/weapi/radio/trash/add?alg=RT&songId=", id.as_str());
    url.append("&time=");
    url.append(time.as_str());
    let info = json_of_query(concat("songId=", id.as_str()).as_str());
    Some(post("weapi", url.as_str(), info.as_str()))
}

/// `/fm_trash`: moves song `id` (needed) to the personal radio's trash,
/// after `time` (25) seconds.
pub fn index_fm_trash(query: &str) -> (c: ApiCall)
    requires
        ({
            let q = query_pairs(query@);
            present(q, "id"@)
        }),
    ensures
        ({
            let q = query_pairs(query@);
            c@ == post_view(
                        "weapi"@,
                        "https://music.163.com/weapi/radio/trash/add?alg=RT&songId="@ + val(
                            q,
                            "id"@,
                        ) + "&time="@ + value_or(q, "time"@, "25"@),
                        query_json("songId="@ + val(q, "id"@)),
                    )
        }),
{
    try_index_fm_trash(query).unwrap()
}

/// `index_follow` on any query: `None` on the queries that it does not accept,
/// where the server fails the request without calling the service.
pub fn try_index_follow(query: &str) -> (r: Option<ApiCall>)
    ensures
        ({
            let q = query_pairs(query@);
            let t = if value_or(q, "t"@, "0"@) == "1"@ { "follow"@ } else { "delfollow"@ };
            if present(q, "id"@) {
                gives(
                    r,
                    post_view(
                        "weapi"@,
                        "https://music.163.com/weapi/user/"@ + t + "/"@ + val(q, "id"@),
                        "{}"@,
                    ),
                )
            } else {
                r is None
            }
        }),
{
    let q = Query::parse(query);
    let t = if str_eq(q.value_or("t", "0").as_str(), "1") { "follow" } else { "delfollow" };
    let id = match q.value("id") { Some(v) => v, None => return None };
    let mut url = concat("https://music.163.com/weapi/user/", t);
    url.append("/");
    url.append(id.as_str());
    Some(post("weapi", url.as_str(), "{}"))
}

/// `/follow`: follows (`t=1`) or stops following (otherwise) user `id` (needed).
pub fn index_follow(query: &str) -> (c: ApiCall)
    requires
        ({
            let q = query_pairs(query@);
            let t = if value_or(q, "t"@, "0"@) == "1"@ { "follow"@ } else { "delfollow"@ };
            present(q, "id"@)
        }),
    ensures
        ({
            let q = query_pairs(query@);
            let t = if value_or(q, "t"@, "0"@) == "1"@ { "follow"@ } else { "delfollow"@ };
            c@ == post_view(
                        "weapi"@,
                        "https://music.163.com/weapi/user/"@ + t + "/"@ + val(q, "id"@),
                        "{}"@,
                    )
        }),
{
    try_index_follow(query).unwrap()
}

/// `/hot/topic`
pub fn index_hot_topic(query: &str) -> (c: ApiCall)
    ensures
        c@ == post_view("weapi"@, "http://music.163.com/weapi/act/hot"@, query_json(query@)),
{
    post_query("weapi", "http://music.163.com/weapi/act/hot", query)
}

/// `index_like` on any query: `None` on the queries that it does not accept,
/// where the server fails the request without calling the service.
pub fn try_index_like(query: &str) -> (r: Option<ApiCall>)
    ensures
        ({
            let q = query_pairs(query@);
            if present(q, "id"@) {
                gives(
                    r,
                    post_view(
                        "weapi"@,
                        "https://music.163.com/weapi/radio/like?alg="@ + value_or(
                            q,
                            "alg"@,
                            "itembased"@,
                        ) + "&trackId="@ + val(q, "id"@) + "&time="@ + value_or(
                            q,
                            "time"@,
                            "25"@,
                        ),
                        query_json(
                            "trackId="@ + val(q, "id"@) + "&like="@ + value_or(q, "like"@, "true"@),
                        ),
                    ),
                )
            } else {
                r is None
            }
        }),
{
    let q = Query::parse(query);
    let alg = q.value_or("alg", "itembased");
    let id = match q.value("id") { Some(v) => v, None => return None };
    let time = q.value_or("time", "25");
    let mut url = concat("https://music.163.com/weapi/radio/like?alg=", alg.as_str());
    url.append("&trackId=");
    url.append(id.as_str());
    url.append("&time=");
    url.append(time.as_str());
    let like = q.value_or("like", "true");
    let mut s = concat("trackId=", id.as_str());
    s.append("&like=");
    s.append(like.as_str());
    let info = json_of_query(s.as_str());
    Some(post("weapi", url.as_str(), info.as_str()))
}

/// `/like`: likes (or, with `like=false`, unlikes) track `id` (needed),
/// with algorithm `alg` (`itembased`) after `time` (25) seconds.
pub fn index_like(query: &str) -> (c: ApiCall)
    requires
        ({
            let q = query_pairs(query@);
            present(q, "id"@)
        }),
    ensures
        ({
            let q = query_pairs(query@);
            c@ == post_view(
                        "weapi"@,
                        "https://music.163.com/weapi/radio/like?alg="@ + value_or(
                            q,
                            "alg"@,
                            "itembased"@,
                        ) + "&trackId="@ + val(q, "id"@) + "&time="@ + value_or(
                            q,
                            "time"@,
                            "25"@,
                        ),
                        query_json(
                            "trackId="@ + val(q, "id"@) + "&like="@ + value_or(q, "like"@, "true"@),
                        ),
                    )
        }),
{
    try_index_like(query).unwrap()
}

/// `/likelist`
pub fn index_likelist(query: &str) -> (c: ApiCall)
    ensures
        c@ == post_view("weapi"@, "https://music.163.com/weapi/song/like/get"@, query_json(query@)),
{
    post_query("weapi", "https://music.163.com/weapi/song/like/get", query)
}

/// `index_login` on any query: `None` on the queries that it does not accept,
/// where the server fails the request without calling the service.
pub fn try_index_login(query: &str) -> (r: Option<ApiCall>)
    ensures
        ({
            let q = query_pairs(query@);
            &&& !(present(q, "email"@) && present(q, "password"@)) ==> r is None
            &&& r is Some ==> present(q, "email"@) && present(q, "password"@) && gives(
                r,
                call_view(
                    "POST"@,
                    "pc"@,
                    "weapi"@,
                    "https://music.163.com/weapi/login"@,
                    query_json(
                        "username="@ + val(q, "email"@) + "&password="@ + password_hash(
                            val(q, "password"@),
                        ) + "&rememberLogin="@ + value_or(q, "rememberLogin"@, "true"@),
                    ),
                ),
            )
        }),
{
    let q = Query::parse(query);
    let password = match q.value("password") { Some(v) => v, None => return None };
    let pw = match hash_password(password.as_str()) { Some(h) => h, None => return None };
    index_login_with_digest(query, pw.as_str())
}

/// `/login`: logs in with `email` and the digest of `password` (both
/// needed), as a desktop browser.
pub fn index_login(query: &str) -> (r: Option<ApiCall>)
    requires
        ({
            let q = query_pairs(query@);
            present(q, "email"@) && present(q, "password"@)
        }),
    ensures
        ({
            let q = query_pairs(query@);
            r is Some ==> yields(r, login_call(q, password_hash(val(q, "password"@))))
        }),
{
    try_index_login(query)
}

/// The call of `/login` with `digest` sent as the password.
pub open spec fn login_call(q: Seq<(Seq<char>, Seq<char>)>, digest: Seq<char>) -> Option<ApiCallView> {
    if present(q, "email"@) && present(q, "password"@) {
        Some(
            call_view(
                "POST"@,
                "pc"@,
                "weapi"@,
                "https://music.163.com/weapi/login"@,
                query_json(
                    "username="@ + val(q, "email"@) + "&password="@ + digest + "&rememberLogin="@
                        + value_or(q, "rememberLogin"@, "true"@),
                ),
            ),
        )
    } else {
        None
    }
}

/// `/login` with `digest` sent as the password; see `login_call`.
pub fn index_login_with_digest(query: &str, digest: &str) -> (r: Option<ApiCall>)
    ensures
        yields(r, login_call(query_pairs(query@), digest@)),
{
    let q = Query::parse(query);
    let username = match q.value("email") { Some(v) => v, None => return None };
    let _password = match q.value("password") { Some(v) => v, None => return None };
    let remember = q.value_or("rememberLogin", "true");
    let mut s = concat("username=", username.as_str());
    s.append("&password=");
    s.append(digest);
    s.append("&rememberLogin=");
    s.append(remember.as_str());
    let info = json_of_query(s.as_str());
    Some(ApiCall::new("POST", "pc", "weapi", "https://music.163.com/weapi/login", info.as_str()))
}

/// `index_login_cellphone` on any query: `None` on the queries that it does not accept,
/// where the server fails the request without calling the service.
pub fn try_index_login_cellphone(query: &str) -> (r: Option<ApiCall>)
    ensures
        ({
            let q = query_pairs(query@);
            &&& !(present(q, "phone"@) && present(q, "countrycode"@) && present(q, "password"@)) ==> r is None
            &&& r is Some ==> present(q, "phone"@) && present(q, "countrycode"@) && present(q, "password"@)
                && gives(
                r,
                call_view(
                    "POST"@,
                    "pc"@,
                    "weapi"@,
                    "https://music.163.com/weapi/login/cellphone"@,
                    query_json(
                        "phone="@ + val(q, "phone"@) + "&countrycode="@ + val(q, "countrycode"@)
                            + "&password="@ + password_hash(val(q, "password"@))
                            + "&rememberLogin="@ + value_or(q, "rememberLogin"@, "true"@),
                    ),
                ),
            )
        }),
{
    let q = Query::parse(query);
    let password = match q.value("password") { Some(v) => v, None => return None };
    let pw = match hash_password(password.as_str()) { Some(h) => h, None => return None };
    index_login_cellphone_with_digest(query, pw.as_str())
}

/// `/login/cellphone`: logs in with `phone`, `countrycode` and the digest of
/// `password` (all needed), as a desktop browser.
pub fn index_login_cellphone(query: &str) -> (r: Option<ApiCall>)
    requires
        ({
            let q = query_pairs(query@);
            present(q, "phone"@) && present(q, "countrycode"@) && present(q, "password"@)
        }),
    ensures
        ({
            let q = query_pairs(query@);
            r is Some ==> yields(r, login_cellphone_call(q, password_hash(val(q, "password"@))))
        }),
{
    try_index_login_cellphone(query)
}

/// The call of `/login/cellphone` with `digest` sent as the password.
pub open spec fn login_cellphone_call(q: Seq<(Seq<char>, Seq<char>)>, digest: Seq<char>) -> Option<
    ApiCallView,
> {
    if present(q, "phone"@) && present(q, "countrycode"@) && present(q, "password"@) {
        Some(
            call_view(
                "POST"@,
                "pc"@,
                "weapi"@,
                "https://music.163.com/weapi/login/cellphone"@,
                query_json(
                    "phone="@ + val(q, "phone"@) + "&countrycode="@ + val(q, "countrycode"@)
                        + "&password="@ + digest + "&rememberLogin="@ + value_or(
                        q,
                        "rememberLogin"@,
                        "true"@,
                    ),
                ),
            ),
        )
    } else {
        None
    }
}

/// `/login/cellphone` with `digest` sent as the password; see
/// `login_cellphone_call`.
pub fn index_login_cellphone_with_digest(query: &str, digest: &str) -> (r: Option<ApiCall>)
    ensures
        yields(r, login_cellphone_call(query_pairs(query@), digest@)),
{
    let q = Query::parse(query);
    let phone = match q.value("phone") { Some(v) => v, None => return None };
    let code = match q.value("countrycode") { Some(v) => v, None => return None };
    let _password = match q.value("password") { Some(v) => v, None => return None };
    let remember = q.value_or("rememberLogin", "true");
    let mut s = concat("phone=", phone.as_str());
    s.append("&countrycode=");
    s.append(code.as_str());
    s.append("&password=");
    s.append(digest);
    s.append("&rememberLogin=");
    s.append(remember.as_str());
    let info = json_of_query(s.as_str());
    Some(
        ApiCall::new("POST", "pc", "weapi", "https://music.163.com/weapi/login/cellphone", info.as_str()),
    )
}

/// `/login/refresh`
pub fn index_login_refresh() -> (c: ApiCall)
    ensures
        c@ == call_view("POST"@, "pc"@, "weapi"@, "https://music.163.com/weapi/login/token/refresh"@, "{}"@),
{
    ApiCall::new("POST", "pc", "weapi", "https://music.163.com/weapi/login/token/refresh", "{}")
}

/// `/login/status`: fetches the home page with no encryption scheme named.
pub fn index_login_status() -> (c: ApiCall)
    ensures
        c@ == call_view("GET"@, ""@, ""@, "https://music.163.com"@, "{}"@),
{
    ApiCall::new("GET", "", "", "https://music.163.com", "{}")
}

/// `/logout`
pub fn index_logout() -> (c: ApiCall)
    ensures
        c@ == post_view("weapi"@, "https://music.163.com/weapi/logout"@, "{}"@),
{
    post("weapi", "https://music.163.com/weapi/logout", "{}")
}

/// `/lyric`: through the Linux client API.
pub fn index_lyric(query: &str) -> (c: ApiCall)
    ensures
        c@ == post_view(
            "linuxapi"@,
            "https://music.163.com/weapi/song/lyric?lv=-1&kv=-1&tv=-1"@,
            query_json(query@),
        ),
{
    post_query("linuxapi", "https://music.163.com/weapi/song/lyric?lv=-1&kv=-1&tv=-1", query)
}

} // verus!
