use easy_http_request::engine::{
    begin_attempt, initial_state, on_response, ResponseVerdict,
};
use easy_http_request::url_model::url_string;
use easy_http_request::{HttpRequest, HttpRequestBody, HttpRequestError, HttpRequestMethod};

fn pairs(ps: &[(&str, &str)]) -> Vec<(String, String)> {
    ps.iter().map(|(k, v)| (k.to_string(), v.to_string())).collect()
}

#[test]
fn test_redirect_passed_through_when_budget_is_zero() {
    let mut req = HttpRequest::get_from_url_str("http://example.com/").unwrap();
    req.options.max_redirect_count = 0;
    let st = initial_state(&req);
    let headers = pairs(&[("location", "http://other.example/")]);
    let verdict = on_response(&st, 302, &headers, 1, &req.options);
    // The 302 response is read and handed back, not treated as an error.
    assert_eq!(verdict, ResponseVerdict::ReadBody);
}

#[test]
fn test_redirect_response_returned_as_is_without_budget() {
    // A whole attempt, driven the way a transport driver would, against a
    // pretended server that answers 302 with a short body.
    let mut req = HttpRequest::get_from_url_str("http://example.com/").unwrap();
    req.options.max_redirect_count = 0;
    let st = initial_state(&req);
    let wire = begin_attempt(&st, &req).unwrap();
    assert_eq!(wire.url, "http://example.com/");
    let headers = pairs(&[("location", "http://other.example/")]);
    match on_response(&st, 302, &headers, 1, &req.options) {
        ResponseVerdict::ReadBody => {
            let mut reader = easy_http_request::engine::body_reader_new(&req.options);
            reader.push_chunk(b"moved", 2).unwrap();
            let resp = easy_http_request::HttpResponse {
                status_code: 302,
                headers,
                body: reader.into_body(),
            };
            assert_eq!(resp.status_code, 302);
            assert_eq!(resp.body, b"moved".to_vec());
        }
        other => panic!("expected the response to be read, got {:?}", other),
    }
}

#[test]
fn test_303_switches_post_to_get_and_drops_body() {
    let mut req = HttpRequest::post_from_url_str("http://example.com/form").unwrap();
    req.body = Some(HttpRequestBody::Text {
        content_type: String::from("text/plain"),
        body: String::from("payload"),
    });
    req.options.max_redirect_count = 5;
    let st = initial_state(&req);
    assert!(st.send_body);
    let headers = pairs(&[("location", "http://example.com/done")]);
    match on_response(&st, 303, &headers, 1, &req.options) {
        ResponseVerdict::FollowRedirect(next) => {
            assert_eq!(next.method, HttpRequestMethod::GET);
            assert!(!next.send_body);
            assert_eq!(next.budget, 4);
            assert_eq!(url_string(&next.url), "http://example.com/done");
            // The followed attempt carries no body.
            let w = begin_attempt(&next, &req).unwrap();
            assert_eq!(w.method, HttpRequestMethod::GET);
            assert!(w.body.is_none());
        }
        other => panic!("expected a followed redirect, got {:?}", other),
    }
}

#[test]
fn test_307_preserves_put_method_and_body() {
    let mut req = HttpRequest::put_from_url_str("http://example.com/doc").unwrap();
    req.body = Some(HttpRequestBody::Text {
        content_type: String::from("text/plain"),
        body: String::from("v2"),
    });
    let st = initial_state(&req);
    let headers = pairs(&[("location", "http://example.com/doc2")]);
    match on_response(&st, 307, &headers, 1, &req.options) {
        ResponseVerdict::FollowRedirect(next) => {
            assert_eq!(next.method, HttpRequestMethod::PUT);
            assert!(next.send_body);
            assert_eq!(next.budget, 4);
            let w = begin_attempt(&next, &req).unwrap();
            assert_eq!(w.method, HttpRequestMethod::PUT);
            assert_eq!(w.body.as_deref(), Some(b"v2".as_slice()));
        }
        other => panic!("expected a followed redirect, got {:?}", other),
    }
}

#[test]
fn test_302_follows_absolute_location() {
    let req = HttpRequest::get_from_url_str("http://example.com/a").unwrap();
    let st = initial_state(&req);
    let headers = pairs(&[("location", "https://other.example/b?x=1")]);
    match on_response(&st, 302, &headers, 1, &req.options) {
        ResponseVerdict::FollowRedirect(next) => {
            assert_eq!(next.method, HttpRequestMethod::GET);
            assert_eq!(url_string(&next.url), "https://other.example/b?x=1");
        }
        other => panic!("expected a followed redirect, got {:?}", other),
    }
}

#[test]
fn test_relative_location_joined_with_single_slash() {
    let req = HttpRequest::get_from_url_str("http://example.com:8080/a/b").unwrap();
    let st = initial_state(&req);
    let headers = pairs(&[("location", "/next")]);
    match on_response(&st, 301, &headers, 1, &req.options) {
        ResponseVerdict::FollowRedirect(next) => {
            assert_eq!(url_string(&next.url), "http://example.com:8080/next");
        }
        other => panic!("expected a followed redirect, got {:?}", other),
    }
}

#[test]
fn test_relative_location_without_slash_joined() {
    let req = HttpRequest::get_from_url_str("http://example.com/a").unwrap();
    let st = initial_state(&req);
    let headers = pairs(&[("location", "next")]);
    match on_response(&st, 302, &headers, 1, &req.options) {
        ResponseVerdict::FollowRedirect(next) => {
            assert_eq!(url_string(&next.url), "http://example.com/next");
        }
        other => panic!("expected a followed redirect, got {:?}", other),
    }
}

#[test]
fn test_missing_location_is_a_redirect_error() {
    let req = HttpRequest::get_from_url_str("http://example.com/").unwrap();
    let st = initial_state(&req);
    let headers = pairs(&[("server", "x")]);
    match on_response(&st, 301, &headers, 1, &req.options) {
        ResponseVerdict::Fail(HttpRequestError::RedirectError(m)) => {
            assert_eq!(m, "Cannot get the `location` field in headers.");
        }
        other => panic!("expected a redirect error, got {:?}", other),
    }
}

#[test]
fn test_unsupported_redirect_status_is_an_error() {
    let req = HttpRequest::get_from_url_str("http://example.com/").unwrap();
    let st = initial_state(&req);
    let headers = pairs(&[("location", "http://example.com/x")]);
    match on_response(&st, 305, &headers, 1, &req.options) {
        ResponseVerdict::Fail(HttpRequestError::RedirectError(m)) => {
            assert_eq!(m, "Unsupported redirection status.");
        }
        other => panic!("expected a redirect error, got {:?}", other),
    }
}

#[test]
fn test_slow_response_times_out_even_with_a_response() {
    let mut req = HttpRequest::get_from_url_str("http://example.com/").unwrap();
    req.options.max_connection_time = 100;
    let st = initial_state(&req);
    let verdict = on_response(&st, 200, &pairs(&[]), 250, &req.options);
    assert_eq!(verdict, ResponseVerdict::Fail(HttpRequestError::TimeOut));
}

#[test]
fn test_zero_connection_time_means_unlimited() {
    let mut req = HttpRequest::get_from_url_str("http://example.com/").unwrap();
    req.options.max_connection_time = 0;
    let st = initial_state(&req);
    let verdict = on_response(&st, 200, &pairs(&[]), u128::MAX, &req.options);
    assert_eq!(verdict, ResponseVerdict::ReadBody);
}

#[test]
fn test_ordinary_response_is_read() {
    let req = HttpRequest::get_from_url_str("http://example.com/").unwrap();
    let st = initial_state(&req);
    let verdict = on_response(&st, 200, &pairs(&[]), 1, &req.options);
    assert_eq!(verdict, ResponseVerdict::ReadBody);
}
