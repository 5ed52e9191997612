use easy_http_request::engine::normalize_headers;
use easy_http_request::http_response::lookup_header;
use easy_http_request::url_model::{concat_with_slash, parse_url_model, url_string};
use easy_http_request::{
    HostName, HttpRequest, HttpRequestError, HttpRequestMethod, HttpRequestOptions, HttpResponse,
};

fn pairs(ps: &[(&str, &str)]) -> Vec<(String, String)> {
    ps.iter().map(|(k, v)| (k.to_string(), v.to_string())).collect()
}

#[test]
fn test_parse_url_extracts_every_part() {
    let m = parse_url_model("https://user:pw@example.com:8080/p/q?x=1#frag").unwrap();
    assert_eq!(m.scheme, "https");
    assert_eq!(m.username, "user");
    assert_eq!(m.password.as_deref(), Some("pw"));
    assert_eq!(m.host, Some(HostName::Domain(String::from("example.com"))));
    assert_eq!(m.port, Some(8080));
    assert_eq!(m.path, "/p/q");
    assert_eq!(m.query.as_deref(), Some("x=1"));
    assert_eq!(m.fragment.as_deref(), Some("frag"));
}

#[test]
fn test_parse_url_round_trips_through_serialization() {
    let text = "https://user:pw@example.com:8080/p/q?x=1#frag";
    let m = parse_url_model(text).unwrap();
    assert_eq!(url_string(&m), text);
}

#[test]
fn test_parse_ipv4_host() {
    let m = parse_url_model("http://127.0.0.1/x").unwrap();
    assert_eq!(m.host, Some(HostName::Ipv4([127, 0, 0, 1])));
    assert_eq!(url_string(&m), "http://127.0.0.1/x");
}

#[test]
fn test_parse_ipv6_host() {
    let m = parse_url_model("http://[::1]/").unwrap();
    assert_eq!(m.host, Some(HostName::Ipv6([0, 0, 0, 0, 0, 0, 0, 1])));
    assert_eq!(url_string(&m), "http://[::1]/");
}

#[test]
fn test_ipv6_serialization_compresses_longest_zero_run() {
    // The parsed text round-trips through the model's own serializer.
    let m = parse_url_model("http://[2001:db8::1]/").unwrap();
    assert_eq!(url_string(&m), "http://[2001:db8::1]/");
    // A lone zero group is not compressed.
    let m = parse_url_model("http://[2001:db8:0:1:1:1:1:1]/").unwrap();
    assert_eq!(url_string(&m), "http://[2001:db8:0:1:1:1:1:1]/");
    // Of two equal runs, the leftmost is compressed.
    let m = parse_url_model("http://[1::1:0:0:1:1]/").unwrap();
    assert_eq!(m.host, Some(HostName::Ipv6([1, 0, 0, 1, 0, 0, 1, 1])));
    assert_eq!(url_string(&m), "http://[1::1:0:0:1:1]/");
    // The all-zero address is a bare `::`.
    let m = parse_url_model("http://[::]/").unwrap();
    assert_eq!(url_string(&m), "http://[::]/");
}

#[test]
fn test_unparseable_url_is_a_parse_error() {
    assert!(parse_url_model("not a url").is_none());
    match HttpRequest::get_from_url_str("not a url") {
        Err(HttpRequestError::UrlParseError) => {}
        other => panic!("expected a parse error, got {:?}", other),
    }
}

#[test]
fn test_constructors_set_method() {
    let url = "http://example.com/";
    assert_eq!(HttpRequest::get_from_url_str(url).unwrap().method, HttpRequestMethod::GET);
    assert_eq!(HttpRequest::post_from_url_str(url).unwrap().method, HttpRequestMethod::POST);
    assert_eq!(HttpRequest::put_from_url_str(url).unwrap().method, HttpRequestMethod::PUT);
    assert_eq!(HttpRequest::delete_from_url_str(url).unwrap().method, HttpRequestMethod::DELETE);
    assert_eq!(HttpRequest::head_from_url_str(url).unwrap().method, HttpRequestMethod::HEAD);
    let req = HttpRequest::get_from_url_str(url).unwrap();
    assert!(req.query.is_none());
    assert!(req.body.is_none());
    assert!(req.headers.is_none());
}

#[test]
fn test_method_names() {
    assert_eq!(HttpRequestMethod::GET.get_str(), "GET");
    assert_eq!(HttpRequestMethod::POST.get_str(), "POST");
    assert_eq!(HttpRequestMethod::PUT.get_str(), "PUT");
    assert_eq!(HttpRequestMethod::DELETE.get_str(), "DELETE");
    assert_eq!(HttpRequestMethod::HEAD.get_str(), "HEAD");
}

#[test]
fn test_default_options() {
    let o = HttpRequestOptions::default();
    assert_eq!(o.max_response_body_size, 1024 * 1024);
    assert_eq!(o.max_redirect_count, 5);
    assert_eq!(o.max_connection_time, 60000);
    assert!(o.allow_local);
}

#[test]
fn test_normalize_headers_lowercases_names() {
    let n = normalize_headers(&pairs(&[("Content-Type", "T"), ("X-ABC", "v")]));
    assert_eq!(n, pairs(&[("content-type", "T"), ("x-abc", "v")]));
}

#[test]
fn test_normalize_headers_deduplicates_last_wins() {
    let n = normalize_headers(&pairs(&[
        ("Set-Cookie", "a=1"),
        ("X-Other", "v"),
        ("SET-COOKIE", "b=2"),
    ]));
    assert_eq!(n, pairs(&[("x-other", "v"), ("set-cookie", "b=2")]));
}

#[test]
fn test_header_lookup_last_occurrence_wins() {
    let hs = pairs(&[("set-cookie", "a=1"), ("x", "1"), ("set-cookie", "b=2")]);
    assert_eq!(lookup_header(&hs, "set-cookie").map(|s| s.as_str()), Some("b=2"));
    assert_eq!(lookup_header(&hs, "missing"), None);
}

#[test]
fn test_response_header_accessor() {
    let resp = HttpResponse {
        status_code: 200,
        headers: pairs(&[("content-type", "text/html")]),
        body: Vec::new(),
    };
    assert_eq!(resp.header("content-type").map(|s| s.as_str()), Some("text/html"));
    assert_eq!(resp.header("location"), None);
}

#[test]
fn test_error_messages() {
    assert_eq!(HttpRequestError::UrlParseError.message(), "The URL cannot be parsed.");
    assert_eq!(
        HttpRequestError::TransportError(String::from("connection refused")).message(),
        "connection refused"
    );
    assert_eq!(HttpRequestError::IOError(String::from("pipe closed")).message(), "pipe closed");
    assert_eq!(HttpRequestError::RedirectError("bad hop").message(), "bad hop");
    assert_eq!(HttpRequestError::TooLarge.message(), "Remote data is too large.");
    assert_eq!(HttpRequestError::TimeOut.message(), "The connection has timed out.");
    assert_eq!(
        HttpRequestError::LocalNotAllowed.message(),
        "Local addresses are not allowed."
    );
    assert_eq!(HttpRequestError::Other("no host").message(), "no host");
}

#[test]
fn test_slash_concatenation() {
    assert_eq!(concat_with_slash("http://a.example", "b"), "http://a.example/b");
    assert_eq!(concat_with_slash("http://a.example/", "b"), "http://a.example/b");
    assert_eq!(concat_with_slash("http://a.example", "/b"), "http://a.example/b");
    assert_eq!(concat_with_slash("http://a.example/", "/b"), "http://a.example/b");
}
