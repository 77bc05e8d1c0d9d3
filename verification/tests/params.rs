use netease_music_api::params::{
    ArtistAlbum, CateId, CellPhoneLoginInfo, CommentInfo, DjInfo, EmailLoginInfo, Identify,
    Identity, MvInfo, NewSong, PageIndex, SearchInfo, SongInfo, TopAlbumInfo, TopList, TopMvInfo,
};

#[test]
fn identity_text() {
    let v = Identity { id: 42, other: Some(7) };
    assert_eq!(v.to_string(), r#"{"id":"42"}"#);
    let n = Identity { id: -2147483648, other: None };
    assert_eq!(n.to_string(), r#"{"id":"-2147483648"}"#);
}

#[test]
fn page_and_category_text() {
    assert_eq!(PageIndex { page: 0 }.to_string(), r#"{"page":"0"}"#);
    assert_eq!(PageIndex { page: -15 }.to_string(), r#"{"page":"-15"}"#);
    assert_eq!(CateId { cateId: 2001 }.to_string(), r#"{"cateId":"2001"}"#);
}

#[test]
fn top_list_default_count() {
    let t = TopList { id: "3779629".to_string(), n: None };
    assert_eq!(t.to_string(), r#"{"id":"3779629","n":"10000"}"#);
    let t = TopList { id: "1".to_string(), n: Some(5) };
    assert_eq!(t.to_string(), r#"{"id":"1","n":"5"}"#);
}

#[test]
fn new_song_defaults() {
    let s = NewSong { id: "7".to_string(), total: None };
    assert_eq!(s.to_string(), r#"{"areadId":"7","total":"true"}"#);
    let s = NewSong { id: "7".to_string(), total: Some(false) };
    assert_eq!(s.to_string(), r#"{"areadId":"7","total":"false"}"#);
}

#[test]
fn song_and_mv_rates() {
    let s = SongInfo { id: "1,2".to_string(), br: None };
    assert_eq!(s.to_string(), r#"{"ids":"[1,2]","br":999000}"#);
    let s = SongInfo { id: "9".to_string(), br: Some(128000) };
    assert_eq!(s.to_string(), r#"{"ids":"[9]","br":128000}"#);
    let m = MvInfo { id: "5436712".to_string(), r: None };
    assert_eq!(m.to_string(), r#"{"id":"5436712","r":1080}"#);
    let m = MvInfo { id: "1".to_string(), r: Some(4294967295) };
    assert_eq!(m.to_string(), r#"{"id":"1","r":4294967295}"#);
}

#[test]
fn pages_with_defaults() {
    let d = DjInfo { limit: None, offset: None };
    assert_eq!(d.to_string(), r#"{"limit":"30","offset":"0"}"#);
    let d = DjInfo { limit: Some(-1), offset: Some(60) };
    assert_eq!(d.to_string(), r#"{"limit":"-1","offset":"60"}"#);
    let t = TopMvInfo { limit: None, offset: None, total: None };
    assert_eq!(t.to_string(), r#"{"limit":"30","offset":"0","total":"true"}"#);
    let a = ArtistAlbum { id: 6452, limit: None, offset: Some(10), total: Some(false) };
    assert_eq!(a.to_string(), r#"{"limit":"50","offset":"10","total":"false"}"#);
}

#[test]
fn top_album_area() {
    let t = TopAlbumInfo { area: None, limit: None, offset: None, total: None };
    assert_eq!(t.to_string(), r#"{"area":"ALL","limit":"50","offset":"0","total":"true"}"#);
    let t = TopAlbumInfo { area: Some("KR".to_string()), limit: Some(3), offset: None, total: None };
    assert_eq!(t.to_string(), r#"{"area":"KR","limit":"3","offset":"0","total":"true"}"#);
}

#[test]
fn comment_and_search_text() {
    let c = CommentInfo { id: "186016".to_string(), limit: None, offset: None, before: Some(3) };
    assert_eq!(c.to_string(), r#"{"rid":"186016","limit":"20","offset":"0"}"#);
    let s = SearchInfo { keywords: "海阔天空".to_string(), types: None, limit: Some(5), offset: None };
    assert_eq!(s.to_string(), r#"{"s":"海阔天空","type":"1","limit":"5","offset":"0"}"#);
    assert_eq!(Identify { id: 0 }.to_string(), r#"{"id":"0"}"#);
}

#[test]
fn login_texts_carry_password_digest() {
    let e = EmailLoginInfo {
        email: "a@163.com".to_string(),
        password: "123456".to_string(),
        rememberLogin: None,
    };
    assert_eq!(
        e.to_string().unwrap(),
        r#"{"username":"a@163.com","password":"e10adc3949ba59abbe56e057f20f883e","rememberLogin":"true"}"#
    );
    let p = CellPhoneLoginInfo {
        phone: "13800000000".to_string(),
        password: "".to_string(),
        countryCode: Some(86),
        rememberLogin: Some(false),
    };
    assert_eq!(
        p.to_string().unwrap(),
        r#"{"phone":"13800000000","password":"d41d8cd98f00b204e9800998ecf8427e","rememberLogin":"false"}"#
    );
}
