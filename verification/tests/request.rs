use netease_music_api::crypto::{hash_password, linuxapi, weapi, weapi_with_key};
use netease_music_api::request::{plan_request, plan_with_agent, request_body, Encryption};
use netease_music_api::user_agent::{choose_user_agent, LINUX_USER_AGENT, USER_AGENT_LIST};
use openssl::symm::{decrypt, Cipher};

#[test]
fn user_agents_from_the_asked_range() {
    for _ in 0..50 {
        let m = choose_user_agent("mobile");
        assert!(USER_AGENT_LIST[0..7].contains(&m));
        let p = choose_user_agent("pc");
        assert!(USER_AGENT_LIST[8..13].contains(&p));
        let a = choose_user_agent("");
        assert!(USER_AGENT_LIST.contains(&a));
    }
}

#[test]
fn web_plan() {
    let p = plan_with_agent("POST", "POST", "agent", "weapi", "https://music.163.com/weapi/x", "{}");
    let headers: Vec<(&str, &str)> = p.headers.iter().map(|(k, v)| (k.as_str(), v.as_str())).collect();
    assert_eq!(
        headers,
        vec![
            ("content-type", "application/x-www-form-urlencoded"),
            ("referer", "https://music.163.com"),
            ("content-encoding", "utf-8"),
            ("user-agent", "agent"),
        ]
    );
    assert_eq!(p.encryption, Encryption::Weapi);
    assert_eq!(p.text, "{}");
    assert_eq!(p.url, "https://music.163.com/weapi/x");
}

#[test]
fn linux_plan() {
    let p = plan_request("GET", "pc", "linuxapi", "https://interface.music.163.co/weapi/a", r#"{"id":"1"}"#);
    assert_eq!(p.headers.len(), 2);
    assert_eq!(p.headers[1].1, LINUX_USER_AGENT);
    assert_eq!(p.encryption, Encryption::Linuxapi);
    assert_eq!(p.url, "https://music.163.com/api/linux/forward");
    assert_eq!(p.text, r#"{"method":"GET","url":"https://interface.music.163.co/api/a","params":{"id":"1"}}"#);
    let post = plan_request("post", "", "eapi", "https://music.163.com/x", "{}");
    assert_eq!(post.headers[0].0, "content-type");
    assert_eq!(post.encryption, Encryption::Weapi);
}

#[test]
fn linux_body_decrypts_to_text() {
    let body = linuxapi(r#"{"a":"b"}"#).unwrap();
    assert!(body.starts_with("eparams=") && body.ends_with('&'));
    let hex_part = &body["eparams=".len()..body.len() - 1];
    let bytes = hex::decode(hex_part).unwrap();
    assert_eq!(hex_part, hex::encode_upper(&bytes));
    let plain = decrypt(Cipher::aes_128_ecb(), b"rFgB&h#%2?^eDg:Q", None, &bytes).unwrap();
    assert_eq!(plain, br#"{"a":"b"}"#);
}

#[test]
fn web_body_decrypts_to_text() {
    let key = b"abcdefghABCDEFGH";
    let body = weapi_with_key("hello", key).unwrap();
    let rest = body.strip_prefix("params=").unwrap();
    let (params, secret) = rest.split_once("&encSecKey=").unwrap();
    let secret = secret.strip_suffix('&').unwrap();
    assert_eq!(secret.len(), 256);
    assert!(!secret.starts_with("000000"));
    let params = params.replace("%2B", "+").replace("%2F", "/").replace("%3D", "=");
    let outer = base64::decode(&params).unwrap();
    let first = decrypt(Cipher::aes_128_cbc(), key, Some(b"0102030405060708"), &outer).unwrap();
    let inner = base64::decode(&first).unwrap();
    let plain = decrypt(Cipher::aes_128_cbc(), b"0CoJUm6Qyw8W8jud", Some(b"0102030405060708"), &inner).unwrap();
    assert_eq!(plain, b"hello");
    assert!(weapi("x").unwrap().contains("&encSecKey="));
}

#[test]
fn planned_body_by_scheme() {
    let p = plan_with_agent("POST", "POST", "a", "linuxapi", "https://music.163.com/weapi/b", "{}");
    assert!(request_body(&p).unwrap().starts_with("eparams="));
    let p = plan_with_agent("POST", "POST", "a", "weapi", "https://music.163.com/weapi/b", "{}");
    assert!(request_body(&p).unwrap().starts_with("params="));
}

#[test]
fn password_digest() {
    assert_eq!(hash_password("123456").unwrap(), "e10adc3949ba59abbe56e057f20f883e");
}

#[test]
fn body_forms() {
    assert_eq!(netease_music_api::crypto::linuxapi_form_of(&[0xab, 0x01]), "eparams=AB01&");
    assert_eq!(
        netease_music_api::crypto::weapi_form_of(&[0xff, 0xfe], &[0x01]),
        "params=%2F%2F4%3D&encSecKey=01&"
    );
    assert_eq!(
        netease_music_api::video::video_url_payload_of("[\"1\"]", "720"),
        r#"{"ids":"[\"1\"]","resolution":"720"}"#
    );
}

#[test]
fn method_compared_in_upper_case() {
    let p = plan_request("Post", "pc", "weapi", "https://music.163.com/weapi/x", "{}");
    assert_eq!(p.headers[0], ("content-type".to_string(), "application/x-www-form-urlencoded".to_string()));
    let g = plan_request("Get", "pc", "weapi", "https://music.163.com/weapi/x", "{}");
    assert!(g.headers.iter().all(|(k, _)| k != "content-type"));
}
