use netease_music_api::query::{json_of_query, Query};

#[test]
fn query_values_and_defaults() {
    let q = Query::parse("idx=1024&name=lumin&family=ti=an&love&ti=liang");
    assert_eq!(q.value("idx").as_deref(), Some("1024"));
    assert_eq!(q.value("family").as_deref(), Some("ti=an"));
    assert_eq!(q.value("love").as_deref(), Some(""));
    assert_eq!(q.value("error"), None);
    assert_eq!(q.value_or("error", "error"), "error");
    assert_eq!(q.value_or("name", "x"), "lumin");
}

#[test]
fn query_json_text() {
    assert_eq!(
        json_of_query("idx=1024&name=lumi&family=ti=an&love"),
        r#"{"idx":"1024","name":"lumi","family":"ti=an","love":""}"#
    );
    assert_eq!(json_of_query(""), r#"{"":""}"#);
    let q = Query::parse("id=1024&idx=1,3,5").replace_key("idx", "ids");
    assert_eq!(q.json(), r#"{"id":"1024","ids":"1,3,5"}"#);
    let q = Query::parse("id=1024&name=rust").replace_value("rust", "rust-lang");
    assert_eq!(q.stringify(), "id=1024&name=rust-lang&");
}

#[test]
fn form_encoding() {
    let q = Query { pairs: vec![("params".to_string(), "度".to_string()), ("enc".to_string(), "=-)(&#+~·@…%^$:*-_.".to_string())] };
    assert_eq!(q.stringify(), "params=%E5%BA%A6&enc=%3D-)(%26%23%2B~%C2%B7%40%E2%80%A6%25%5E%24%3A*-_.&");
    let q = Query { pairs: vec![("love".to_string(), String::new())] };
    assert_eq!(q.stringify(), "love&");
}
