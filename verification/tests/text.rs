use netease_music_api::text::{contains, parse_i32, parse_usize, push_int_text, push_nat_text, replace, split, str_eq};

#[test]
fn decimal_text() {
    let mut s = String::new();
    push_nat_text(&mut s, 0);
    assert_eq!(s, "0");
    let mut s = String::from("n=");
    push_nat_text(&mut s, 18446744073709551615);
    assert_eq!(s, "n=18446744073709551615");
    let mut s = String::new();
    push_int_text(&mut s, -9223372036854775808);
    assert_eq!(s, "-9223372036854775808");
    let mut s = String::new();
    push_int_text(&mut s, 1050);
    assert_eq!(s, "1050");
}

#[test]
fn integer_parsing_follows_std() {
    for t in ["0", "+7", "-7", "2147483647", "-2147483648", "2147483648", "", "+", "-", "1a", "007", " 1", "١"] {
        assert_eq!(parse_i32(t), t.parse::<i32>().ok(), "i32 {:?}", t);
        assert_eq!(parse_usize(t), t.parse::<usize>().ok(), "usize {:?}", t);
    }
    assert_eq!(parse_usize("18446744073709551615"), Some(usize::MAX));
    assert_eq!(parse_usize("18446744073709551616"), None);
    assert_eq!(parse_usize("-0"), None);
    assert_eq!(parse_i32("-0"), Some(0));
}

#[test]
fn text_search_and_replace() {
    assert!(contains("https://music.163.com/weapi/x", "music.163.com"));
    assert!(!contains("https://interface.music.163.co", "music.163.com"));
    assert!(contains("abc", ""));
    assert_eq!(replace("https://music.163.com/weapi/v1/weapi", "weapi", "api"), "https://music.163.com/api/v1/api");
    assert_eq!(replace("aaa", "aa", "b"), "ba");
    assert_eq!(replace("no match", "weapi", "api"), "no match");
    assert!(str_eq("pc", "pc"));
    assert!(!str_eq("pc", "PC"));
}

#[test]
fn split_like_std() {
    for t in ["", "a", "a,b", ",", "1,,2,", "中,文"] {
        let ours: Vec<String> = split(t, ',');
        let std: Vec<String> = t.split(',').map(|s| s.to_string()).collect();
        assert_eq!(ours, std);
    }
}
