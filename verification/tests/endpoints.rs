use netease_music_api::account::{index_captcha_register_with_digest, index_login_cellphone_with_digest, index_login_with_digest, try_index_login};
use netease_music_api::music::index_register_cellphone_with_digest;
use netease_music_api::crypto::digest_text;
use netease_music_api::params::{CellPhoneLoginInfo, EmailLoginInfo};
use netease_music_api::account::{index_follow, index_login, index_logout, index_login_status};
use netease_music_api::album::{index_album, index_album_sub, index_album_sublist, index_artist_sub, index_banner, try_index_album_sub, try_index_artist_sub};
use netease_music_api::comment::{index_comment, index_comment_hot, index_comment_like, index_resource_like, try_index_comment, try_index_resource_like};
use netease_music_api::dj::{index_dj_program, index_dj_sub, index_dj_toplist, try_index_dj_sub};
use netease_music_api::music::{index_scrobble, index_song_url, index_top_list, try_index_song_url, try_index_top_list};
use netease_music_api::playlist::{index_playlist_update, index_playmode_interlligence_list, try_index_playlist_update};
use netease_music_api::request::ApiCall;
use netease_music_api::social::{index_msg_private_history, index_search, index_search_hot, index_search_suggest, try_index_search};
use netease_music_api::user::{index_user_cloud_detail, index_user_event, index_user_update, try_index_user_update};
use netease_music_api::video::{index_mv_all, index_mv_sub, index_video_url};

fn parts(c: &ApiCall) -> (&str, &str, &str, &str, &str) {
    (c.method.as_str(), c.ua.as_str(), c.crypto.as_str(), c.url.as_str(), c.payload.as_str())
}

#[test]
fn album_endpoints() {
    let c = index_album_sublist("limit=5");
    assert_eq!(parts(&c), ("POST", "", "weapi", "https://music.163.com/weapi/album/sublist", r#"{"limit":"5","offset":"0","total":"true"}"#));
    let c = index_album("");
    assert_eq!(c.url, "https://music.163.com/weapi/v1/album/32311");
    assert_eq!(c.payload, "{}");
    let c = index_album_sub("id=32311&t=1");
    assert_eq!(c.url, "https://music.163.com/api/album/32311");
    assert_eq!(c.payload, r#"{"id":"32311","t":"1"}"#);
    assert!(try_index_album_sub("t=1").is_none());
}

#[test]
fn artist_subscription_reads_t_as_i32() {
    let c = index_artist_sub("id=6452&t=1");
    assert_eq!(c.url, "https://music.163.com/weapi/artist/sub");
    assert_eq!(c.payload, r#"{"artistId":"6452","artistIds":"[6452]"}"#);
    assert_eq!(index_artist_sub("t=-3").url, "https://music.163.com/weapi/artist/unsub");
    assert!(try_index_artist_sub("t=yes").is_none());
}

#[test]
fn banner_clamps_type() {
    assert_eq!(index_banner("type=2").payload, r#"{"clientType":"iphone"}"#);
    assert_eq!(index_banner("type=9").payload, r#"{"clientType":"pc"}"#);
    assert_eq!(index_banner("type=x").payload, r#"{"clientType":"pc"}"#);
    assert_eq!(index_banner("").crypto, "linuxapi");
}

#[test]
fn comment_operations() {
    let c = index_comment("t=1&type=0&id=186016&content=hi");
    assert_eq!(c.url, "https://music.163.com/weapi/resource/comments/add");
    assert_eq!(c.payload, r#"{"R_SO_4_186016":"","content":"hi"}"#);
    let c = index_comment("t=0&type=6&threadId=A_EV_2_1_2&commentId=9");
    assert_eq!(c.url, "https://music.163.com/weapi/resource/comments/delete");
    assert_eq!(c.payload, r#"{"A_EV_2_1_2":"","commentId":"9"}"#);
    assert!(try_index_comment("t=3&type=0&id=1").is_none());
    assert!(try_index_comment("t=1&type=0&id=1").is_none());
    assert!(try_index_comment("type=0&id=1&content=x").is_none());
}

#[test]
fn hot_comments_and_likes() {
    let c = index_comment_hot("type=1&id=5436712");
    assert_eq!(c.url, "https://music.163.com/weapi/v1/resource/hotcomments/R_MV_5_5436712");
    assert_eq!(c.payload, r#"{"rid":"5436712","limit":"20","offset":"0","beforeTime":"0"}"#);
    let c = index_comment_like("t=like&type=6&id=5&cid=7");
    assert_eq!(c.payload, r#"{"threadId":"A_EV_2_5","commentId":"7"}"#);
    let c = index_resource_like("t=1&id=9");
    assert_eq!(parts(&c), ("POST", "pc", "weapi", "https://music.163.com/weapi/resource/like", r#"{"threadId":"R_MV_5_9"}"#));
}

#[test]
fn account_endpoints() {
    let c = index_login("email=a@163.com&password=123456").unwrap();
    assert_eq!(c.ua, "pc");
    assert_eq!(c.payload, r#"{"username":"a@163.com","password":"e10adc3949ba59abbe56e057f20f883e","rememberLogin":"true"}"#);
    assert!(try_index_login("email=a@163.com").is_none());
    assert_eq!(index_follow("id=32953014&t=1").url, "https://music.163.com/weapi/user/follow/32953014");
    assert_eq!(index_follow("id=1").url, "https://music.163.com/weapi/user/delfollow/1");
    assert_eq!(parts(&index_login_status()), ("GET", "", "", "https://music.163.com", "{}"));
    assert_eq!(index_logout().url, "https://music.163.com/weapi/logout");
}

#[test]
fn radio_endpoints() {
    let c = index_dj_program("rid=336355127&asc=true");
    assert_eq!(c.payload, r#"{"radioId":"336355127","limit":"30","offset":"0","asc":"true"}"#);
    assert_eq!(index_dj_program("rid=1&asc=TRUE").payload, r#"{"radioId":"1","limit":"30","offset":"0","asc":"false"}"#);
    assert!(try_index_dj_sub("t=a&rid=1").is_none());
    assert_eq!(index_dj_sub("t=1&rid=5").url, "https://music.163.com/weapi/djradio/sub");
    assert_eq!(index_dj_toplist("type=hot").payload, r#"{"limit":"100","offset":"0","type":"1"}"#);
}

#[test]
fn songs_and_charts() {
    let c = index_song_url("id=33894312,1");
    assert_eq!(c.payload, r#"{"ids":"[33894312,1]"}"#);
    assert!(try_index_song_url("br=1").is_none());
    let c = index_top_list("idx=1");
    assert_eq!(parts(&c), ("Post", "", "linuxapi", "https://music.163.com/weapi/v3/playlist/detail", r#"{"id":"3778678","n":"10000"}"#));
    assert!(try_index_top_list("idx=24").is_none());
    assert!(try_index_top_list("idx=-1").is_none());
    let c = index_scrobble("id=1&sourceid=2&time=3");
    assert_eq!(c.payload, r#"{"logs":"[{"action":"play","json":"{"download":"0","end":"playend","id":"1","sourceId":"2","time":"3","type":"song","wifi":"0"}"}]"}"#);
}

#[test]
fn playlist_batch_update() {
    let c = index_playlist_update("id=24381616&name=new");
    assert_eq!(
        c.payload,
        r#"{"/api/playlist/desc/update":"{"id":24381616,"desc":""}","/api/playlist/tags/update":"{"id":24381616,"tags":""}","/api/playlist/update/name":"{"id":24381616,"name":"new"}"}"#
    );
    let c = index_playmode_interlligence_list("id=1&pid=2");
    assert_eq!(c.payload, r#"{"songId":"1","type":"fromPlayOne","playlistId":"2","startMusicId":"1","count":"1"}"#);
}

#[test]
fn social_endpoints() {
    let c = index_msg_private_history("uid=9&before=5");
    assert_eq!(c.payload, r#"{"userId":"9","time":"5"}"#);
    assert_eq!(index_search_hot().payload, r#"{{"type":1111}}"#);
    assert_eq!(index_search_suggest("keywords=a&type=mobile").url, "https://music.163.com/weapi/search/suggest/keyword");
}

#[test]
fn json_object_endpoints() {
    let c = index_user_cloud_detail("id=5374627,5374628");
    assert_eq!(c.payload, r#"{"songIds":["5374627","5374628"]}"#);
    let c = index_user_event("uid=32953014");
    assert_eq!(c.url, "https://music.163.com/weapi/event/get/32953014");
    assert_eq!(c.payload, r#"{"getcounts":"true","limit":"30","time":"-1","total":"true"}"#);
    let c = index_user_update("birthday=1&city=2&gender=1&nickname=a\"b&province=3&signature=x");
    assert_eq!(c.payload, r#"{"avatarImgId":"0","birthday":"1","city":"2","gender":"1","nickname":"a\"b","province":"3","signature":"x"}"#);
    assert!(try_index_user_update("birthday=1").is_none());
    let c = index_video_url("id=89ADDE33C0AAE8EC14B99F6750DB954D,1");
    assert_eq!(c.payload, r#"{"ids":"[\"89ADDE33C0AAE8EC14B99F6750DB954D\", \"1\"]","resolution":"1080"}"#);
}

#[test]
fn video_endpoints() {
    let c = index_mv_all("");
    assert_eq!(
        c.payload,
        r#"{"tags":"{"tags":{"地区":"全部","类型":"全部","排序":"上升最快"}}","offset":"0","total":"true","limit":"30"}"#
    );
    let c = index_mv_sub("mvid=5436712&t=1");
    assert_eq!(c.url, "https://music.163.com/weapi/mv/sub");
    assert_eq!(c.payload, r#"{"mvIds":"[5436712]","t":"1"}"#);
}

#[test]
fn digest_taking_endpoints() {
    let c = index_login_with_digest("email=a&password=x", "d1").unwrap();
    assert_eq!(c.payload, r#"{"username":"a","password":"d1","rememberLogin":"true"}"#);
    assert!(index_login_with_digest("email=a", "d1").is_none());
    let c = index_login_cellphone_with_digest("phone=1&countrycode=86&password=x&rememberLogin=false", "d2").unwrap();
    assert_eq!(c.payload, r#"{"phone":"1","countrycode":"86","password":"d2","rememberLogin":"false"}"#);
    assert!(index_login_cellphone_with_digest("phone=1&password=x", "d2").is_none());
    let c = index_captcha_register_with_digest("captcha=1&phone=2&password=x&nickname=n", "d3").unwrap();
    assert_eq!(c.payload, r#"{"captcha":"1","phone":"2","password":"d3","nickname":"n"}"#);
    assert!(index_captcha_register_with_digest("captcha=1&phone=2&password=x", "d3").is_none());
    let c = index_register_cellphone_with_digest("phone=2&password=x&captcha=x", "d4").unwrap();
    assert_eq!(c.payload, r#"{"phone":"2","password":"d4","captcha":"d4"}"#);
    assert!(index_register_cellphone_with_digest("phone=2", "d4").is_none());
}

#[test]
fn digest_taking_texts() {
    assert_eq!(digest_text(&[0x0f, 0xa0]), "0fa0");
    let e = EmailLoginInfo { email: "e".to_string(), password: "p".to_string(), rememberLogin: Some(false) };
    assert_eq!(e.text_with_digest("dd"), r#"{"username":"e","password":"dd","rememberLogin":"false"}"#);
    let p = CellPhoneLoginInfo { phone: "1".to_string(), password: "p".to_string(), countryCode: None, rememberLogin: None };
    assert_eq!(p.text_with_digest("dd"), r#"{"phone":"1","password":"dd","rememberLogin":"true"}"#);
}

#[test]
fn refused_queries_give_none() {
    assert!(try_index_resource_like("id=5&type=0").is_none());
    assert!(try_index_resource_like("t=7&id=5").is_none());
    assert!(try_index_playlist_update("id=1").is_none());
    assert!(try_index_playlist_update("name=n").is_none());
    assert!(try_index_search("type=1").is_none());
    let c = index_search("keywords=hello");
    assert_eq!(c.url, "https://music.163.com/weapi/search/get");
    assert_eq!(c.payload, r#"{"s":"hello","type":"1","limit":"30","offset":"0"}"#);
    let c = index_playlist_update("id=1&name=n");
    assert_eq!(c.url, "https://music.163.com/weapi/batch");
}
