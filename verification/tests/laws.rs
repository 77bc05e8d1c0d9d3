use netease_music_api::query::Query;
use netease_music_api::text::{parse_i32, parse_usize, push_int_text, push_nat_text, replace, split};

#[test]
fn decimal_text_reads_back() {
    for n in [i32::MIN, -1, 0, 7, 10, 2147483647] {
        let mut s = String::new();
        push_int_text(&mut s, n as i64);
        assert_eq!(parse_i32(&s), Some(n));
    }
}

#[test]
fn unsigned_text_reads_back() {
    for n in [0u64, 9, 10, 4294967295] {
        let mut s = String::new();
        push_nat_text(&mut s, n);
        assert_eq!(parse_usize(&s), Some(n as usize));
    }
}

#[test]
fn replace_without_pattern_is_identity() {
    assert_eq!(replace("https://music.163.com/api/x", "weapi", "api"), "https://music.163.com/api/x");
}

#[test]
fn split_then_join_is_identity() {
    for t in ["", ",", "a,,b", "5374627,5374628,5374629"] {
        assert_eq!(split(t, ',').join(","), t);
    }
}

#[test]
fn written_pairs_read_back() {
    let q = Query::parse("limit=30&offset=0&total=true&tags={\"a\":\"b=c\"}");
    let pairs: Vec<(&str, &str)> = q.pairs.iter().map(|(k, v)| (k.as_str(), v.as_str())).collect();
    assert_eq!(pairs, vec![("limit", "30"), ("offset", "0"), ("total", "true"), ("tags", "{\"a\":\"b=c\"}")]);
}

#[test]
fn renamed_key_keeps_value() {
    let q = Query::parse("id=1,2&br=3").replace_key("id", "ids");
    assert_eq!(q.value("ids").as_deref(), Some("1,2"));
}

#[test]
fn it_works() {
    let str = "id=5374627,5374628,5374629";
    let q = Query::parse(str);
    let value = q.value("id").unwrap();
    let parts = split(&value, ',');
    let s1 = format!("{:?}", parts);
    println!("s1={}", s1);
    let c = netease_music_api::video::index_video_url(str);
    println!("s={}", c.payload);
    assert_eq!(s1, r#"["5374627", "5374628", "5374629"]"#);
}
