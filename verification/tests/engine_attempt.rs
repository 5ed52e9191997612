use easy_http_request::engine::{begin_attempt, initial_state};
use easy_http_request::{
    HostName, HttpRequest, HttpRequestBody, HttpRequestError, HttpRequestMethod, UrlModel,
};

fn pairs(ps: &[(&str, &str)]) -> Vec<(String, String)> {
    ps.iter().map(|(k, v)| (k.to_string(), v.to_string())).collect()
}

fn header<'a>(headers: &'a [(String, String)], name: &str) -> Option<&'a str> {
    let mut found = None;
    for (k, v) in headers {
        if k.eq_ignore_ascii_case(name) {
            found = Some(v.as_str());
        }
    }
    found
}

#[test]
fn test_local_not_allowed_fails_before_any_send() {
    let mut req = HttpRequest::get_from_url_str("http://localhost/").unwrap();
    req.options.allow_local = false;
    let st = initial_state(&req);
    let r = begin_attempt(&st, &req);
    assert_eq!(r, Err(HttpRequestError::LocalNotAllowed));
}

#[test]
fn test_local_loopback_ip_not_allowed() {
    let mut req = HttpRequest::get_from_url_str("http://127.0.0.1/x").unwrap();
    req.options.allow_local = false;
    let st = initial_state(&req);
    assert_eq!(begin_attempt(&st, &req), Err(HttpRequestError::LocalNotAllowed));
}

#[test]
fn test_local_allowed_by_default() {
    let req = HttpRequest::get_from_url_str("http://localhost/").unwrap();
    let st = initial_state(&req);
    assert!(begin_attempt(&st, &req).is_ok());
}

#[test]
fn test_missing_host_is_an_error() {
    let url = UrlModel {
        scheme: String::from("data"),
        username: String::new(),
        password: None,
        host: None,
        port: None,
        path: String::from("text/plain,x"),
        query: None,
        fragment: None,
    };
    let req = HttpRequest::get(url);
    let st = initial_state(&req);
    match begin_attempt(&st, &req) {
        Err(HttpRequestError::Other(m)) => {
            assert_eq!(m, "A valid HTTP URL needs contains a host.");
        }
        other => panic!("expected a missing-host error, got {:?}", other),
    }
}

#[test]
fn test_wire_request_merges_query() {
    let mut req = HttpRequest::get_from_url_str("http://example.com/path?x=1").unwrap();
    req.query = Some(pairs(&[("q", "a b")]));
    let st = initial_state(&req);
    let w = begin_attempt(&st, &req).unwrap();
    assert_eq!(w.method, HttpRequestMethod::GET);
    assert_eq!(w.url, "http://example.com/path?x=1&q=a+b");
    assert!(w.body.is_none());
    assert_eq!(w.timeout_millis, 60000);
}

#[test]
fn test_wire_request_query_on_bare_url() {
    let mut req = HttpRequest::get_from_url_str("http://example.com/path").unwrap();
    req.query = Some(pairs(&[("a", "1"), ("b", "2")]));
    let st = initial_state(&req);
    let w = begin_attempt(&st, &req).unwrap();
    assert_eq!(w.url, "http://example.com/path?a=1&b=2");
}

#[test]
fn test_default_user_agent_injected() {
    let req = HttpRequest::get_from_url_str("http://example.com/").unwrap();
    let st = initial_state(&req);
    let w = begin_attempt(&st, &req).unwrap();
    assert_eq!(
        header(&w.headers, "user-agent"),
        Some("Mozilla/5.0 (Rust) EasyHyperRequest/0.1.0")
    );
}

#[test]
fn test_user_agent_not_replaced_case_insensitive() {
    let mut req = HttpRequest::get_from_url_str("http://example.com/").unwrap();
    req.headers = Some(pairs(&[("USER-AGENT", "me/1.0")]));
    let st = initial_state(&req);
    let w = begin_attempt(&st, &req).unwrap();
    assert_eq!(header(&w.headers, "user-agent"), Some("me/1.0"));
    assert_eq!(w.headers.len(), 1);
}

#[test]
fn test_form_body_sets_content_headers() {
    let mut req = HttpRequest::post_from_url_str("http://example.com/submit").unwrap();
    req.body = Some(HttpRequestBody::FormURLEncoded(pairs(&[("a", "1"), ("b", "x y")])));
    let st = initial_state(&req);
    let w = begin_attempt(&st, &req).unwrap();
    assert_eq!(w.body.as_deref(), Some(b"a=1&b=x+y".as_slice()));
    assert_eq!(header(&w.headers, "content-type"), Some("application/x-www-form-urlencoded"));
    assert_eq!(header(&w.headers, "content-length"), Some("9"));
}

#[test]
fn test_text_body_sets_content_headers() {
    let mut req = HttpRequest::put_from_url_str("http://example.com/doc").unwrap();
    req.body = Some(HttpRequestBody::Text {
        content_type: String::from("text/plain"),
        body: String::from("hello"),
    });
    let st = initial_state(&req);
    let w = begin_attempt(&st, &req).unwrap();
    assert_eq!(w.body.as_deref(), Some(b"hello".as_slice()));
    assert_eq!(header(&w.headers, "content-type"), Some("text/plain"));
    assert_eq!(header(&w.headers, "content-length"), Some("5"));
}

#[test]
fn test_binary_body_sent_verbatim() {
    let mut req = HttpRequest::post_from_url_str("http://example.com/raw").unwrap();
    req.body = Some(HttpRequestBody::Binary {
        content_type: String::from("application/octet-stream"),
        body: vec![0, 159, 146, 150],
    });
    let st = initial_state(&req);
    let w = begin_attempt(&st, &req).unwrap();
    assert_eq!(w.body.as_deref(), Some([0u8, 159, 146, 150].as_slice()));
    assert_eq!(header(&w.headers, "content-length"), Some("4"));
}

#[test]
fn test_user_content_headers_replaced_when_body_sent() {
    let mut req = HttpRequest::post_from_url_str("http://example.com/s").unwrap();
    req.headers = Some(pairs(&[("Content-Type", "bogus"), ("X-Extra", "kept")]));
    req.body = Some(HttpRequestBody::Text {
        content_type: String::from("text/plain"),
        body: String::from("x"),
    });
    let st = initial_state(&req);
    let w = begin_attempt(&st, &req).unwrap();
    assert_eq!(header(&w.headers, "content-type"), Some("text/plain"));
    assert_eq!(header(&w.headers, "x-extra"), Some("kept"));
}

#[test]
fn test_send_preserved_builds_identical_attempts() {
    let make = || {
        let mut req = HttpRequest::post_from_url_str("http://example.com/s?x=0").unwrap();
        req.query = Some(pairs(&[("q", "v")]));
        req.headers = Some(pairs(&[("X-H", "1")]));
        req.body = Some(HttpRequestBody::FormURLEncoded(pairs(&[("a", "1")])));
        req
    };
    let req = make();
    let st1 = initial_state(&req);
    let st2 = initial_state(&req);
    let w1 = begin_attempt(&st1, &req).unwrap();
    let w2 = begin_attempt(&st2, &req).unwrap();
    assert_eq!(w1, w2);
    // The specification itself is untouched by building attempts.
    assert_eq!(req, make());
}

#[test]
fn test_ipv6_host_is_bracketed_on_the_wire() {
    let url = UrlModel {
        scheme: String::from("http"),
        username: String::new(),
        password: None,
        host: Some(HostName::Ipv6([0x2607, 0xf8b0, 0, 0, 0, 0, 0, 0x200e])),
        port: Some(8080),
        path: String::from("/"),
        query: None,
        fragment: None,
    };
    let req = HttpRequest::get(url);
    let st = initial_state(&req);
    let w = begin_attempt(&st, &req).unwrap();
    assert_eq!(w.url, "http://[2607:f8b0::200e]:8080/");
}
