use json_fetch::error::{DispatchError, ErrorKind};
use json_fetch::method::{resolve_method, Method};
use json_fetch::request::{assemble, check_url, plan, RequestDescription, TIMEOUT_SECS};
use json_fetch::url::{build_url, contains_query, push_query};
use std::collections::HashMap;

fn request(url: &str, method: &str) -> RequestDescription {
    RequestDescription {
        url: url.to_string(),
        method: method.to_string(),
        headers: None,
        query_params: None,
        body: None,
    }
}

fn pairs(items: &[(&str, &str)]) -> Vec<(String, String)> {
    items.iter().map(|(k, v)| (k.to_string(), v.to_string())).collect()
}

fn json(text: &str) -> serde_json::Value {
    serde_json::from_str(text).unwrap()
}

#[test]
fn blank_url_is_rejected() {
    for url in ["", " ", "   ", "\t\n", " \u{a0}\u{3000} "] {
        let mut r = request(url, "GET");
        r.body = Some(json("{\"x\":1}"));
        r.query_params = Some(pairs(&[("a", "b")]));
        let e = plan(r).err().unwrap();
        assert_eq!(e, DispatchError::EmptyUrl);
        assert_eq!(e.kind(), ErrorKind::InvalidInput);
        assert_eq!(e.message(), "URL cannot be empty");
    }
}

#[test]
fn url_with_surrounding_space_is_kept_as_given() {
    let call = plan(request("  http://x/y ", "GET")).unwrap();
    assert_eq!(call.url, "  http://x/y ");
}

#[test]
fn unsupported_method_is_rejected() {
    for (given, upper) in [("PATCH", "PATCH"), ("patch", "PATCH"), ("", ""), ("GETS", "GETS"), (" get", " GET")] {
        let e = plan(request("http://x", given)).err().unwrap();
        assert_eq!(e, DispatchError::UnsupportedMethod(upper.to_string()));
        assert_eq!(e.kind(), ErrorKind::InvalidInput);
        assert_eq!(e.message(), format!("Unsupported HTTP method: {}", upper));
    }
}

#[test]
fn blank_url_is_reported_before_unknown_method() {
    let e = plan(request("  ", "PATCH")).err().unwrap();
    assert_eq!(e, DispatchError::EmptyUrl);
}

#[test]
fn method_is_resolved_in_any_case() {
    let cases = [
        ("get", Method::Get),
        ("GET", Method::Get),
        ("Post", Method::Post),
        ("pUt", Method::Put),
        ("delete", Method::Delete),
    ];
    for (given, expected) in cases {
        let call = plan(request("http://x", given)).unwrap();
        assert_eq!(call.method, expected);
    }
}

#[test]
fn resolve_method_takes_upper_case_only() {
    assert_eq!(resolve_method("GET".to_string()), Ok(Method::Get));
    assert_eq!(resolve_method("POST".to_string()), Ok(Method::Post));
    assert_eq!(resolve_method("PUT".to_string()), Ok(Method::Put));
    assert_eq!(resolve_method("DELETE".to_string()), Ok(Method::Delete));
    assert_eq!(
        resolve_method("get".to_string()),
        Err(DispatchError::UnsupportedMethod("get".to_string()))
    );
}

#[test]
fn method_names_and_bodies() {
    assert_eq!(Method::Get.as_str(), "GET");
    assert_eq!(Method::Post.as_str(), "POST");
    assert_eq!(Method::Put.as_str(), "PUT");
    assert_eq!(Method::Delete.as_str(), "DELETE");
    assert!(!Method::Get.carries_body());
    assert!(Method::Post.carries_body());
    assert!(Method::Put.carries_body());
    assert!(!Method::Delete.carries_body());
}

#[test]
fn check_url_rejects_only_the_empty_string() {
    assert_eq!(check_url(""), Err(DispatchError::EmptyUrl));
    assert_eq!(check_url("x"), Ok(()));
    assert_eq!(check_url(" "), Ok(()));
}

#[test]
fn query_params_are_percent_encoded() {
    let url = build_url("http://x/y", &pairs(&[("a", "1 2"), ("b", "c&d")]));
    assert_eq!(url, "http://x/y?a=1%202&b=c%26d");
}

#[test]
fn query_after_existing_query_is_joined_with_ampersand() {
    let url = build_url("http://x/y?foo=bar", &pairs(&[("a", "1")]));
    assert_eq!(url, "http://x/y?foo=bar&a=1");
    let url = build_url("http://x/y?", &pairs(&[("a", "1"), ("a", "2")]));
    assert_eq!(url, "http://x/y?&a=1&a=2");
}

#[test]
fn no_params_leave_the_url_alone() {
    assert_eq!(build_url("http://x/y", &Vec::new()), "http://x/y");
    let mut r = request("http://x/y", "GET");
    r.query_params = Some(Vec::new());
    assert_eq!(plan(r).unwrap().url, "http://x/y");
    assert_eq!(plan(request("http://x/y?k", "GET")).unwrap().url, "http://x/y?k");
}

#[test]
fn keys_are_encoded_and_order_is_kept() {
    let url = build_url("h", &pairs(&[("z z", "1"), ("a=b", ""), ("", "x/y")]));
    assert_eq!(url, "h?z%20z=1&a%3Db=&=x%2Fy");
}

#[test]
fn unreserved_bytes_stay_and_others_are_escaped_in_upper_case() {
    let url = build_url("h", &pairs(&[("AZaz09-._~", "\u{e9}+/?\u{1f600}\u{0}\u{7f}")]));
    assert_eq!(url, "h?AZaz09-._~=%C3%A9%2B%2F%3F%F0%9F%98%80%00%7F");
}

#[test]
fn push_query_appends_to_what_is_there() {
    let mut out = "pre:".to_string();
    push_query(&mut out, &pairs(&[("a", "b"), ("c", "d e")]));
    assert_eq!(out, "pre:a=b&c=d%20e");
    let mut out = "pre:".to_string();
    push_query(&mut out, &Vec::new());
    assert_eq!(out, "pre:");
}

#[test]
fn contains_query_looks_for_a_question_mark() {
    assert!(contains_query("http://x/y?foo=bar"));
    assert!(contains_query("?"));
    assert!(contains_query("\u{e9}?"));
    assert!(!contains_query("http://x/y"));
    assert!(!contains_query(""));
}

#[test]
fn get_and_delete_carry_no_body() {
    for method in ["GET", "DELETE", "get", "delete"] {
        let mut r = request("http://x", method);
        r.body = Some(json("{\"x\":1}"));
        let call = plan(r).unwrap();
        assert_eq!(call.body, None);
    }
}

#[test]
fn post_and_put_carry_the_body() {
    for method in ["POST", "PUT", "post"] {
        let mut r = request("http://x", method);
        r.body = Some(json("{\"x\":1}"));
        let call = plan(r).unwrap();
        let body = call.body.unwrap();
        assert_eq!(body, json("{\"x\":1}"));
        assert_eq!(serde_json::to_string(&body).unwrap(), "{\"x\":1}");
    }
    let call = plan(request("http://x", "POST")).unwrap();
    assert_eq!(call.body, None);
}

#[test]
fn headers_go_along_as_given() {
    let mut headers = HashMap::new();
    headers.insert("X-Token".to_string(), "abc".to_string());
    headers.insert("accept".to_string(), "*/*".to_string());
    let mut r = request("http://x", "GET");
    r.headers = Some(headers.clone());
    let call = plan(r).unwrap();
    assert_eq!(call.headers, Some(headers));
    assert_eq!(plan(request("http://x", "GET")).unwrap().headers, None);
}

#[test]
fn every_call_has_the_thirty_second_timeout() {
    assert_eq!(TIMEOUT_SECS, 30);
    assert_eq!(plan(request("http://x", "PUT")).unwrap().timeout_secs, 30);
}

#[test]
fn assemble_builds_the_whole_call() {
    let mut r = request("http://x/y?q", "ignored");
    r.query_params = Some(pairs(&[("a", "1 2")]));
    r.body = Some(json("[1,2]"));
    let call = assemble(Method::Put, r);
    assert_eq!(call.method, Method::Put);
    assert_eq!(call.url, "http://x/y?q&a=1%202");
    assert_eq!(call.body, Some(json("[1,2]")));
    assert_eq!(call.headers, None);
    assert_eq!(call.timeout_secs, 30);
}
