//! An HTTP/HTTPS request sender with policy: it builds a wire request from a
//! structured specification, follows redirects up to a configured bound,
//! enforces a response-size and wall-clock limit while draining the body, and
//! can refuse requests to local (private/loopback/link-local) addresses.
//!
//! The request execution engine in [`engine`] is written as a step machine:
//! a caller that owns the actual network transport asks the engine for the
//! next wire request, performs the send, and hands status, headers and body
//! chunks back in. Every decision the engine takes is made by verified code.

pub mod engine;
pub mod form_encoding;
pub mod http_request_body;
pub mod http_request_error;
pub mod http_request_method;
pub mod http_request_options;
pub mod http_response;
pub mod local_policy;
pub mod text;
pub mod url_model;

pub use http_request_body::HttpRequestBody;
pub use http_request_error::HttpRequestError;
pub use http_request_method::HttpRequestMethod;
pub use http_request_options::HttpRequestOptions;
pub use http_response::HttpResponse;
pub use local_policy::HostName;
pub use url_model::UrlModel;

use vstd::prelude::*;

use crate::http_request_options::{
    DEFAULT_ALLOW_LOCAL, DEFAULT_MAX_CONNECTION_TIME, DEFAULT_MAX_REDIRECT_COUNT,
    DEFAULT_MAX_RESPONSE_BODY_SIZE,
};
use crate::url_model::{parse_url_model, url_parse_spec};

verus! {

/// Whether a freshly constructed request holds `method` and `url` and
/// nothing else: no query, no body, no headers, default options.
pub open spec fn fresh_request(r: HttpRequest, method: HttpRequestMethod, url: UrlModel) -> bool {
    &&& r.method == method
    &&& r.url == url
    &&& r.query is None
    &&& r.body is None
    &&& r.headers is None
    &&& r.options.max_response_body_size == DEFAULT_MAX_RESPONSE_BODY_SIZE
    &&& r.options.max_redirect_count == DEFAULT_MAX_REDIRECT_COUNT
    &&& r.options.max_connection_time == DEFAULT_MAX_CONNECTION_TIME
    &&& r.options.allow_local == DEFAULT_ALLOW_LOCAL
}

/// Whether two optional pair lists hold the same pairs.
pub open spec fn opt_pairs_eq(
    a: Option<Vec<(String, String)>>,
    b: Option<Vec<(String, String)>>,
) -> bool {
    match (a, b) {
        (Some(x), Some(y)) => x@ == y@,
        (None, None) => true,
        _ => false,
    }
}

/// Whether two request specifications agree on everything observable:
/// method, URL, query pairs, body contents, headers and options.
pub open spec fn request_eq(a: HttpRequest, b: HttpRequest) -> bool {
    &&& a.method == b.method
    &&& a.url == b.url
    &&& opt_pairs_eq(a.query, b.query)
    &&& (match (a.body, b.body) {
        (Some(x), Some(y)) => http_request_body::body_eq(x, y),
        (None, None) => true,
        _ => false,
    })
    &&& opt_pairs_eq(a.headers, b.headers)
    &&& a.options == b.options
}

/// The http request sender: a structured specification of one request.
///
/// A caller fills it in, then asks the execution engine in [`engine`] to
/// turn it into wire requests and to judge the responses.
#[derive(Debug, PartialEq)]
pub struct HttpRequest {
    /// The request method.
    pub method: HttpRequestMethod,
    /// The target URL; it must name a host for the request to be sendable.
    pub url: UrlModel,
    /// Query parameters appended to the URL's query, in order.
    pub query: Option<Vec<(String, String)>>,
    /// The request body, if any.
    pub body: Option<HttpRequestBody>,
    /// User-supplied headers, in order.
    pub headers: Option<Vec<(String, String)>>,
    /// The limits and policies for the attempt.
    pub options: HttpRequestOptions,
}

impl Clone for HttpRequest {
    /// Clones a request specification, preserving everything observable.
    fn clone(&self) -> (r: Self)
        ensures
            request_eq(r, *self),
    {
        HttpRequest {
            method: self.method,
            url: self.url.clone(),
            query: match &self.query {
                Some(q) => Some(http_request_body::clone_pairs(q)),
                None => None,
            },
            body: match &self.body {
                Some(b) => Some(b.clone()),
                None => None,
            },
            headers: match &self.headers {
                Some(h) => Some(http_request_body::clone_pairs(h)),
                None => None,
            },
            options: self.options.clone(),
        }
    }
}

impl HttpRequest {
    /// A request with the given method and URL and everything else unset.
    pub fn new(method: HttpRequestMethod, url: UrlModel) -> (r: HttpRequest)
        ensures
            fresh_request(r, method, url),
    {
        HttpRequest {
            method,
            url,
            query: None,
            body: None,
            headers: None,
            options: HttpRequestOptions::default(),
        }
    }

    /// A GET request for the given URL.
    pub fn get(url: UrlModel) -> (r: HttpRequest)
        ensures
            fresh_request(r, HttpRequestMethod::GET, url),
    {
        Self::new(HttpRequestMethod::GET, url)
    }

    /// A GET request for the given URL string: `Ok` exactly when the
    /// string parses as an absolute URL, holding a fresh request for the
    /// parsed URL; `UrlParseError` otherwise.
    pub fn get_from_url_str(url: &str) -> (r: Result<HttpRequest, HttpRequestError>)
        ensures
            r is Ok <==> url_parse_spec(url@) is Some,
            r matches Ok(q) ==> fresh_request(q, HttpRequestMethod::GET, url_parse_spec(url@).unwrap()),
            r is Err ==> r == Err::<HttpRequest, HttpRequestError>(HttpRequestError::UrlParseError),
    {
        match parse_url_model(url) {
            Some(u) => Ok(Self::get(u)),
            None => Err(HttpRequestError::UrlParseError),
        }
    }

    /// A POST request for the given URL.
    pub fn post(url: UrlModel) -> (r: HttpRequest)
        ensures
            fresh_request(r, HttpRequestMethod::POST, url),
    {
        Self::new(HttpRequestMethod::POST, url)
    }

    /// A POST request for the given URL string: `Ok` exactly when the
    /// string parses as an absolute URL, holding a fresh request for the
    /// parsed URL; `UrlParseError` otherwise.
    pub fn post_from_url_str(url: &str) -> (r: Result<HttpRequest, HttpRequestError>)
        ensures
            r is Ok <==> url_parse_spec(url@) is Some,
            r matches Ok(q) ==> fresh_request(q, HttpRequestMethod::POST, url_parse_spec(url@).unwrap()),
            r is Err ==> r == Err::<HttpRequest, HttpRequestError>(HttpRequestError::UrlParseError),
    {
        match parse_url_model(url) {
            Some(u) => Ok(Self::post(u)),
            None => Err(HttpRequestError::UrlParseError),
        }
    }

    /// A PUT request for the given URL.
    pub fn put(url: UrlModel) -> (r: HttpRequest)
        ensures
            fresh_request(r, HttpRequestMethod::PUT, url),
    {
        Self::new(HttpRequestMethod::PUT, url)
    }

    /// A PUT request for the given URL string: `Ok` exactly when the
    /// string parses as an absolute URL, holding a fresh request for the
    /// parsed URL; `UrlParseError` otherwise.
    pub fn put_from_url_str(url: &str) -> (r: Result<HttpRequest, HttpRequestError>)
        ensures
            r is Ok <==> url_parse_spec(url@) is Some,
            r matches Ok(q) ==> fresh_request(q, HttpRequestMethod::PUT, url_parse_spec(url@).unwrap()),
            r is Err ==> r == Err::<HttpRequest, HttpRequestError>(HttpRequestError::UrlParseError),
    {
        match parse_url_model(url) {
            Some(u) => Ok(Self::put(u)),
            None => Err(HttpRequestError::UrlParseError),
        }
    }

    /// A DELETE request for the given URL.
    pub fn delete(url: UrlModel) -> (r: HttpRequest)
        ensures
            fresh_request(r, HttpRequestMethod::DELETE, url),
    {
        Self::new(HttpRequestMethod::DELETE, url)
    }

    /// A DELETE request for the given URL string: `Ok` exactly when the
    /// string parses as an absolute URL, holding a fresh request for the
    /// parsed URL; `UrlParseError` otherwise.
    pub fn delete_from_url_str(url: &str) -> (r: Result<HttpRequest, HttpRequestError>)
        ensures
            r is Ok <==> url_parse_spec(url@) is Some,
            r matches Ok(q) ==> fresh_request(q, HttpRequestMethod::DELETE, url_parse_spec(url@).unwrap()),
            r is Err ==> r == Err::<HttpRequest, HttpRequestError>(HttpRequestError::UrlParseError),
    {
        match parse_url_model(url) {
            Some(u) => Ok(Self::delete(u)),
            None => Err(HttpRequestError::UrlParseError),
        }
    }

    /// A HEAD request for the given URL.
    pub fn head(url: UrlModel) -> (r: HttpRequest)
        ensures
            fresh_request(r, HttpRequestMethod::HEAD, url),
    {
        Self::new(HttpRequestMethod::HEAD, url)
    }

    /// A HEAD request for the given URL string: `Ok` exactly when the
    /// string parses as an absolute URL, holding a fresh request for the
    /// parsed URL; `UrlParseError` otherwise.
    pub fn head_from_url_str(url: &str) -> (r: Result<HttpRequest, HttpRequestError>)
        ensures
            r is Ok <==> url_parse_spec(url@) is Some,
            r matches Ok(q) ==> fresh_request(q, HttpRequestMethod::HEAD, url_parse_spec(url@).unwrap()),
            r is Err ==> r == Err::<HttpRequest, HttpRequestError>(HttpRequestError::UrlParseError),
    {
        match parse_url_model(url) {
            Some(u) => Ok(Self::head(u)),
            None => Err(HttpRequestError::UrlParseError),
        }
    }
}

} // verus!
