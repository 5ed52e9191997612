//! The request execution engine: a step machine that validates one attempt,
//! builds its wire request, judges the response (follow a redirect, read the
//! body, or fail), and enforces the body-size and wall-clock limits while the
//! body is drained.
//!
//! The engine performs no I/O itself. A driver that owns the transport asks
//! [`begin_attempt`] for the wire request, performs the send, hands status
//! and headers to [`on_response`], and feeds body chunks to [`BodyReader`];
//! every decision between those steps is verified code.

use vstd::prelude::*;
use vstd::string::{StringExecFns, StringSliceAdditionalSpecFns};
use vstd::utf8::encode_utf8;

use crate::http_request_body::HttpRequestBody;
use crate::http_request_error::HttpRequestError;
use crate::http_request_method::HttpRequestMethod;
use crate::http_request_options::HttpRequestOptions;
use crate::http_response::{header_value, lookup_header};
use crate::local_policy::{is_local_host, is_local_host_spec};
use crate::text::{ascii_lowercase, dec_chars, eq_lower, lower_chars, str_eq, u64_to_dec_string};
use crate::url_model::{
    merged_query_text, resolve_redirect_target, resolve_spec, url_string, url_text,
    url_text_with_query, with_merged_query, UrlModel,
};
use crate::form_encoding::encode_pairs;
use crate::http_request_body::clone_byte_vec;
use crate::HttpRequest;

verus! {

/// A transport-ready request: everything the wire needs, as plain values.
#[derive(Debug, PartialEq)]
pub struct WireRequest {
    /// The request method.
    pub method: HttpRequestMethod,
    /// The serialized URL, query parameters merged in.
    pub url: String,
    /// The headers to send, in order: the user's headers, the identifying
    /// header when the user supplied none, and the body's content headers.
    pub headers: Vec<(String, String)>,
    /// The encoded body bytes, if a body is sent.
    pub body: Option<Vec<u8>>,
    /// The transport read/write timeout hint in milliseconds; 0 means none.
    pub timeout_millis: u64,
}

/// The mutable state of the redirect loop: what to send next and how many
/// hops may still be followed.
#[derive(Debug, PartialEq)]
pub struct RedirectState {
    /// The method of the next attempt.
    pub method: HttpRequestMethod,
    /// The URL of the next attempt.
    pub url: UrlModel,
    /// Whether the specification's body is sent with the next attempt; a
    /// 303 redirect drops it.
    pub send_body: bool,
    /// How many redirect hops may still be followed.
    pub budget: usize,
}

/// The engine's judgement of one response.
#[derive(Debug, PartialEq)]
pub enum ResponseVerdict {
    /// The attempt failed; nothing is retried.
    Fail(HttpRequestError),
    /// A redirect is followed: begin the next attempt from this state.
    FollowRedirect(RedirectState),
    /// No redirect is followed: read the body and hand the response back.
    ReadBody,
}

/// The first state of the redirect loop: the specification's own method and
/// URL, its body if it has one, and the full redirect budget.
pub fn initial_state(req: &HttpRequest) -> (st: RedirectState)
    ensures
        st.method == req.method,
        st.url == req.url,
        st.send_body == (req.body is Some),
        st.budget == req.options.max_redirect_count,
{
    RedirectState {
        method: req.method,
        url: req.url.clone(),
        send_body: req.body.is_some(),
        budget: req.options.max_redirect_count,
    }
}

/// The identifying header value sent when the user supplies none.
pub open spec fn default_user_agent() -> Seq<char> {
    "Mozilla/5.0 (Rust) EasyHyperRequest/0.1.0"@
}

/// The headers as pairs of character sequences.
pub open spec fn deep_headers(hs: Seq<(String, String)>) -> Seq<(Seq<char>, Seq<char>)> {
    hs.map_values(|p: (String, String)| (p.0@, p.1@))
}

/// Whether a header name is one of the body's content headers.
pub open spec fn is_content_header(name: Seq<char>) -> bool {
    lower_chars(name) == "content-type"@ || lower_chars(name) == "content-length"@
}

/// The headers with the content headers removed.
pub open spec fn strip_content(hs: Seq<(String, String)>) -> Seq<(Seq<char>, Seq<char>)>
    decreases hs.len(),
{
    if hs.len() == 0 {
        Seq::empty()
    } else {
        let rest = strip_content(hs.drop_last());
        if is_content_header(hs.last().0@) {
            rest
        } else {
            rest.push((hs.last().0@, hs.last().1@))
        }
    }
}

/// Whether some header matches `User-Agent`, ignoring ASCII case.
pub open spec fn has_user_agent(hs: Seq<(String, String)>) -> bool {
    exists|i: int| 0 <= i < hs.len() && lower_chars(hs[i].0@) == "user-agent"@
}

/// The user's headers as a sequence; an absent mapping is an empty one.
pub open spec fn user_headers_seq(h: Option<Vec<(String, String)>>) -> Seq<(String, String)> {
    match h {
        Some(v) => v@,
        None => Seq::empty(),
    }
}

/// The bytes a body puts on the wire: binary bytes verbatim, text as its
/// UTF-8 encoding, form fields percent-encoded.
pub open spec fn body_bytes(b: HttpRequestBody) -> Seq<u8> {
    match b {
        HttpRequestBody::Binary { content_type, body } => body@,
        HttpRequestBody::Text { content_type, body } => encode_utf8(body@),
        HttpRequestBody::FormURLEncoded(m) => encode_pairs(m@),
    }
}

/// The `Content-Type` value a body carries.
pub open spec fn body_content_type(b: HttpRequestBody) -> Seq<char> {
    match b {
        HttpRequestBody::Binary { content_type, body } => content_type@,
        HttpRequestBody::Text { content_type, body } => content_type@,
        HttpRequestBody::FormURLEncoded(m) => "application/x-www-form-urlencoded"@,
    }
}

/// The headers of the wire request: the user's headers (minus the content
/// headers when a body is sent), the identifying header when the user named
/// none, then `Content-Type` and `Content-Length` for the body.
pub open spec fn wire_headers(user: Seq<(String, String)>, body: Option<HttpRequestBody>) -> Seq<
    (Seq<char>, Seq<char>),
> {
    let base = match body {
        Some(_) => strip_content(user),
        None => deep_headers(user),
    };
    let with_ua = if has_user_agent(user) {
        base
    } else {
        base.push(("User-Agent"@, default_user_agent()))
    };
    match body {
        Some(b) => with_ua.push(("Content-Type"@, body_content_type(b))).push(
            ("Content-Length"@, dec_chars(body_bytes(b).len())),
        ),
        None => with_ua,
    }
}

/// The body the attempt sends: the specification's body, unless a 303
/// redirect dropped it.
pub open spec fn effective_body(st: RedirectState, req: HttpRequest) -> Option<HttpRequestBody> {
    if st.send_body {
        req.body
    } else {
        None
    }
}

/// The serialized URL of the attempt, with the specification's query
/// parameters merged into the state's URL.
pub open spec fn merged_url_text(m: UrlModel, q: Option<Vec<(String, String)>>) -> Seq<char> {
    match q {
        None => url_text(m),
        Some(ps) => if ps@.len() == 0 {
            url_text(m)
        } else {
            url_text_with_query(m, Some(merged_query_text(m.query, ps@)))
        },
    }
}

/// What a successfully built wire request holds, given the state and the
/// specification.
pub open spec fn wire_ok_matches(st: RedirectState, req: HttpRequest, w: WireRequest) -> bool {
    &&& w.method == st.method
    &&& w.url@ == merged_url_text(st.url, req.query)
    &&& deep_headers(w.headers@) == wire_headers(
        user_headers_seq(req.headers),
        effective_body(st, req),
    )
    &&& (match effective_body(st, req) {
        Some(b) => w.body matches Some(bb) && bb@ == body_bytes(b),
        None => w.body is None,
    })
    &&& w.timeout_millis == req.options.max_connection_time
}

/// The whole contract of building one attempt: a URL without a host is
/// refused; a local host is refused when `allow_local` is off; otherwise
/// the wire request is built, exactly as `wire_ok_matches` says.
pub open spec fn wire_request_matches(
    st: RedirectState,
    req: HttpRequest,
    r: Result<WireRequest, HttpRequestError>,
) -> bool {
    if st.url.host is None {
        r matches Err(e) && e matches HttpRequestError::Other(m) && m@
            == "A valid HTTP URL needs contains a host."@
    } else if !req.options.allow_local && is_local_host_spec(st.url.host.unwrap()) {
        r == Err::<WireRequest, HttpRequestError>(HttpRequestError::LocalNotAllowed)
    } else {
        r matches Ok(w) && wire_ok_matches(st, req, w)
    }
}

/// `deep_headers` distributes over `push`.
proof fn lemma_deep_headers_push(s: Seq<(String, String)>, p: (String, String))
    ensures
        deep_headers(s.push(p)) == deep_headers(s).push((p.0@, p.1@)),
{
    assert(deep_headers(s.push(p)) =~= deep_headers(s).push((p.0@, p.1@)));
}

/// One step of accumulating headers with `User-Agent` detection.
proof fn lemma_has_ua_step(hs: Seq<(String, String)>, i: int)
    requires
        0 <= i < hs.len(),
    ensures
        has_user_agent(hs.take(i + 1)) == (has_user_agent(hs.take(i)) || lower_chars(hs[i].0@)
            == "user-agent"@),
{
    let t1 = hs.take(i + 1);
    let t0 = hs.take(i);
    if has_user_agent(t0) {
        let j = choose|j: int| 0 <= j < t0.len() && lower_chars(t0[j].0@) == "user-agent"@;
        assert(t1[j] == t0[j]);
        assert(has_user_agent(t1));
    }
    if lower_chars(hs[i].0@) == "user-agent"@ {
        assert(t1[i] == hs[i]);
        assert(has_user_agent(t1));
    }
    if has_user_agent(t1) {
        let j = choose|j: int| 0 <= j < t1.len() && lower_chars(t1[j].0@) == "user-agent"@;
        if j < i {
            assert(t0[j] == t1[j]);
            assert(has_user_agent(t0));
        } else {
            assert(t1[j] == hs[i]);
        }
    }
}

/// The body an `Option<&HttpRequestBody>` refers to.
pub open spec fn opt_body_val(b: Option<&HttpRequestBody>) -> Option<HttpRequestBody> {
    match b {
        Some(x) => Some(*x),
        None => None,
    }
}

/// Encodes a body to its wire bytes.
pub fn body_to_bytes(b: &HttpRequestBody) -> (r: Vec<u8>)
    ensures
        r@ == body_bytes(*b),
{
    match b {
        HttpRequestBody::Binary { content_type, body } => clone_byte_vec(body),
        HttpRequestBody::Text { content_type, body } => body.as_str().as_bytes_vec(),
        HttpRequestBody::FormURLEncoded(m) => crate::form_encoding::form_urlencode(m),
    }
}

/// The `Content-Type` value of a body.
pub fn body_content_type_string(b: &HttpRequestBody) -> (r: String)
    ensures
        r@ == body_content_type(*b),
{
    match b {
        HttpRequestBody::Binary { content_type, body } => content_type.clone(),
        HttpRequestBody::Text { content_type, body } => content_type.clone(),
        HttpRequestBody::FormURLEncoded(m) => String::from_str(
            "application/x-www-form-urlencoded",
        ),
    }
}

/// Builds the wire headers for one attempt.
fn build_wire_headers(
    user: &Option<Vec<(String, String)>>,
    eff_body: Option<&HttpRequestBody>,
    body_out: &Option<Vec<u8>>,
) -> (r: Vec<(String, String)>)
    requires
        match (eff_body, body_out) {
            (Some(b), Some(bb)) => bb@ == body_bytes(*b),
            (None, None) => true,
            _ => false,
        },
    ensures
        deep_headers(r@) == wire_headers(user_headers_seq(*user), opt_body_val(eff_body)),
{
    let ghost user_seq = user_headers_seq(*user);
    let has_body = eff_body.is_some();
    let mut out: Vec<(String, String)> = Vec::new();
    let mut ua_found = false;
    match user {
        Some(hs) => {
            let n = hs.len();
            let mut i: usize = 0;
            while i < n
                invariant
                    n == hs@.len(),
                    i <= n,
                    hs@ == user_seq,
                    has_body == (eff_body is Some),
                    ua_found == has_user_agent(user_seq.take(i as int)),
                    has_body ==> deep_headers(out@) == strip_content(user_seq.take(i as int)),
                    !has_body ==> deep_headers(out@) == deep_headers(user_seq.take(i as int)),
                decreases n - i,
            {
                proof {
                    lemma_has_ua_step(user_seq, i as int);
                    assert(user_seq.take(i + 1 as int).drop_last() =~= user_seq.take(i as int));
                    assert(user_seq.take(i + 1 as int).last() == user_seq[i as int]);
                }
                if eq_lower(hs[i].0.as_str(), "user-agent") {
                    ua_found = true;
                }
                let is_content = eq_lower(hs[i].0.as_str(), "content-type") || eq_lower(
                    hs[i].0.as_str(),
                    "content-length",
                );
                if !(has_body && is_content) {
                    let k = hs[i].0.clone();
                    let v = hs[i].1.clone();
                    out.push((k, v));
                }
                proof {
                    assert(user_seq.take(i + 1 as int) =~= user_seq.take(i as int).push(
                        user_seq[i as int],
                    ));
                    lemma_deep_headers_push(user_seq.take(i as int), user_seq[i as int]);
                    if has_body {
                        assert(deep_headers(out@) =~= strip_content(user_seq.take(i + 1 as int)));
                    } else {
                        assert(deep_headers(out@) =~= deep_headers(user_seq.take(i + 1 as int)));
                    }
                }
                i += 1;
            }
            proof {
                assert(user_seq.take(n as int) =~= user_seq);
            }
        },
        None => {
            proof {
                assert(user_seq.take(0) =~= user_seq);
                assert(strip_content(user_seq) =~= Seq::<(Seq<char>, Seq<char>)>::empty());
                assert(deep_headers(user_seq) =~= Seq::<(Seq<char>, Seq<char>)>::empty());
                assert(deep_headers(out@) =~= Seq::<(Seq<char>, Seq<char>)>::empty());
            }
        },
    }
    if !ua_found {
        let k = String::from_str("User-Agent");
        let v = String::from_str("Mozilla/5.0 (Rust) EasyHyperRequest/0.1.0");
        proof {
            let prev = out@;
            assert(deep_headers(prev.push((k, v))) =~= deep_headers(prev).push((k@, v@)));
        }
        out.push((k, v));
    }
    if let Some(b) = eff_body {
        let ct_name = String::from_str("Content-Type");
        let ct_val = body_content_type_string(b);
        proof {
            let prev = out@;
            assert(deep_headers(prev.push((ct_name, ct_val))) =~= deep_headers(prev).push(
                (ct_name@, ct_val@),
            ));
        }
        out.push((ct_name, ct_val));
        let cl_name = String::from_str("Content-Length");
        let blen: usize = match body_out {
            Some(bb) => bb.len(),
            None => 0,
        };
        let cl_val = u64_to_dec_string(blen as u64);
        proof {
            let prev = out@;
            assert(deep_headers(prev.push((cl_name, cl_val))) =~= deep_headers(prev).push(
                (cl_name@, cl_val@),
            ));
        }
        out.push((cl_name, cl_val));
    }
    out
}

/// Validates the attempt and builds its wire request.
///
/// A URL without a host fails at once; a local target fails with
/// `LocalNotAllowed` when `allow_local` is off, before any wire request
/// exists that a transport could send. Otherwise the wire request carries
/// the state's method, the URL with the query parameters merged in, the
/// headers of `wire_headers`, the encoded body, and the time budget.
pub fn begin_attempt(st: &RedirectState, req: &HttpRequest) -> (r: Result<
    WireRequest,
    HttpRequestError,
>)
    ensures
        wire_request_matches(*st, *req, r),
{
    match &st.url.host {
        None => {
            return Err(HttpRequestError::Other("A valid HTTP URL needs contains a host."));
        },
        Some(h) => {
            if !req.options.allow_local && is_local_host(h) {
                return Err(HttpRequestError::LocalNotAllowed);
            }
        },
    }
    let merged = match &req.query {
        Some(ps) => with_merged_query(&st.url, ps),
        None => st.url.clone(),
    };
    let url_str = url_string(&merged);
    let eff_body: Option<&HttpRequestBody> = if st.send_body {
        req.body.as_ref()
    } else {
        None
    };
    let body_out: Option<Vec<u8>> = match eff_body {
        Some(b) => Some(body_to_bytes(b)),
        None => None,
    };
    let headers = build_wire_headers(&req.headers, eff_body, &body_out);
    proof {
        match &req.query {
            Some(ps) => {
                if ps@.len() == 0 {
                    assert(merged == st.url);
                } else {
                    assert(url_text(merged) == url_text_with_query(
                        st.url,
                        Some(merged_query_text(st.url.query, ps@)),
                    ));
                }
            },
            None => {
                assert(merged == st.url);
            },
        }
    }
    Ok(
        WireRequest {
            method: st.method,
            url: url_str,
            headers,
            body: body_out,
            timeout_millis: req.options.max_connection_time,
        },
    )
}

/// Whether the attempt-wide time budget is exceeded.
pub open spec fn time_exceeded(max_millis: u64, elapsed_millis: u128) -> bool {
    max_millis > 0 && elapsed_millis > max_millis as u128
}

/// Whether a status code is a redirection status.
pub open spec fn is_redirect_status(status: u16) -> bool {
    300 <= status <= 399
}

/// Whether the engine knows how to follow the redirection status.
pub open spec fn supported_redirect(status: u16) -> bool {
    status == 301 || status == 302 || status == 303 || status == 307 || status == 308
}

/// How the state of a followed redirect relates to the state before it:
/// one hop is consumed; a 303 continues as GET without the body; every
/// other supported status keeps method and body.
pub open spec fn follow_state_matches(st: RedirectState, status: u16, s2: RedirectState) -> bool {
    &&& s2.budget == st.budget - 1
    &&& (status == 303 ==> s2.method == HttpRequestMethod::GET && !s2.send_body)
    &&& (status != 303 ==> s2.method == st.method && s2.send_body == st.send_body)
}

/// The whole contract of judging one response. Too slow an answer is a
/// `TimeOut`. Without a redirect to follow (no budget, or not a 3xx) the
/// response is read and handed back. A followed redirect needs a
/// `Location` header, whose absence is a `RedirectError`; the location is
/// resolved exactly as `resolve_spec` says, an unresolvable one is the
/// cannot-parse `RedirectError`; a supported status is followed with the
/// resolved URL under `follow_state_matches`, and any other 3xx status is
/// the unsupported-status `RedirectError`.
pub open spec fn response_verdict_matches(
    st: RedirectState,
    status: u16,
    headers: Seq<(String, String)>,
    elapsed_millis: u128,
    opts: HttpRequestOptions,
    r: ResponseVerdict,
) -> bool {
    if time_exceeded(opts.max_connection_time, elapsed_millis) {
        r == ResponseVerdict::Fail(HttpRequestError::TimeOut)
    } else if !(st.budget > 0 && is_redirect_status(status)) {
        r == ResponseVerdict::ReadBody
    } else {
        match header_value(headers, "location"@) {
            None => r matches ResponseVerdict::Fail(e) && e
                matches HttpRequestError::RedirectError(m) && m@
                == "Cannot get the `location` field in headers."@,
            Some(loc) => match resolve_spec(st.url, loc@) {
                None => r matches ResponseVerdict::Fail(e) && e
                    matches HttpRequestError::RedirectError(m) && m@
                    == "Cannot parse the `location` field in headers."@,
                Some(t) => if supported_redirect(status) {
                    r matches ResponseVerdict::FollowRedirect(s2) && s2.url == t
                        && follow_state_matches(st, status, s2)
                } else {
                    r matches ResponseVerdict::Fail(e) && e
                        matches HttpRequestError::RedirectError(m) && m@
                        == "Unsupported redirection status."@
                },
            },
        }
    }
}

/// Applies the status-specific redirect rule to an already-resolved target
/// URL: a 303 continues as GET without the body, the other supported
/// statuses keep method and body, anything else is an unsupported
/// redirection; one hop of the budget is consumed.
pub fn redirect_decision(st: &RedirectState, status: u16, target: UrlModel) -> (r: Result<
    RedirectState,
    HttpRequestError,
>)
    requires
        st.budget > 0,
    ensures
        supported_redirect(status) ==> (r matches Ok(s2) && s2.url == target
            && follow_state_matches(*st, status, s2)),
        !supported_redirect(status) ==> (r matches Err(e) && e
            matches HttpRequestError::RedirectError(m) && m@
            == "Unsupported redirection status."@),
{
    if status == 303 {
        Ok(
            RedirectState {
                method: HttpRequestMethod::GET,
                url: target,
                send_body: false,
                budget: st.budget - 1,
            },
        )
    } else if status == 301 || status == 302 || status == 307 || status == 308 {
        Ok(
            RedirectState {
                method: st.method,
                url: target,
                send_body: st.send_body,
                budget: st.budget - 1,
            },
        )
    } else {
        Err(HttpRequestError::RedirectError("Unsupported redirection status."))
    }
}

/// The value of the last header whose lower-cased name is `name`, if any.
pub open spec fn raw_header_value(hs: Seq<(String, String)>, name: Seq<char>) -> Option<String>
    decreases hs.len(),
{
    if hs.len() == 0 {
        None
    } else if lower_chars(hs.last().0@) == name {
        Some(hs.last().1)
    } else {
        raw_header_value(hs.drop_last(), name)
    }
}

/// `raw_header_value` seen from the front: a header prepended to the list
/// only answers for names that the rest of the list does not.
proof fn lemma_raw_header_value_unshift(hs: Seq<(String, String)>, name: Seq<char>)
    requires
        hs.len() > 0,
    ensures
        raw_header_value(hs, name) == (match raw_header_value(hs.drop_first(), name) {
            Some(v) => Some(v),
            None => if lower_chars(hs[0].0@) == name {
                Some(hs[0].1)
            } else {
                None
            },
        }),
    decreases hs.len(),
{
    if hs.len() == 1 {
        assert(hs.drop_first() =~= Seq::<(String, String)>::empty());
    } else {
        lemma_raw_header_value_unshift(hs.drop_last(), name);
        assert(hs.drop_last().drop_first() =~= hs.drop_first().drop_last());
        assert(hs.drop_first().last() == hs.last());
        assert(hs.drop_last()[0] == hs[0]);
    }
}

/// Whether some entry's name equals `name` exactly.
fn contains_name(hs: &Vec<(String, String)>, name: &String) -> (r: bool)
    ensures
        r == exists|j: int| 0 <= j < hs@.len() && (#[trigger] hs@[j]).0@ == name@,
{
    let mut i: usize = 0;
    while i < hs.len()
        invariant
            i <= hs@.len(),
            forall|j: int| 0 <= j < i ==> (#[trigger] hs@[j]).0@ != name@,
        decreases hs@.len() - i,
    {
        if str_eq(hs[i].0.as_str(), name.as_str()) {
            assert(hs@[i as int].0@ == name@);
            return true;
        }
        i += 1;
    }
    false
}

/// Turns raw response headers into the mapping the response carries: one
/// entry per distinct lower-cased header name, valued by the last
/// occurrence of that name, in the order of those last occurrences.
pub fn normalize_headers(hs: &Vec<(String, String)>) -> (r: Vec<(String, String)>)
    ensures
        forall|j1: int, j2: int|
            0 <= j1 < j2 < r@.len() ==> (#[trigger] r@[j1]).0@ != (#[trigger] r@[j2]).0@,
        forall|j: int|
            0 <= j < r@.len() ==> raw_header_value(hs@, (#[trigger] r@[j]).0@) == Some(r@[j].1),
        forall|name: Seq<char>|
            (#[trigger] raw_header_value(hs@, name)) is Some <==> exists|j: int|
                0 <= j < r@.len() && r@[j].0@ == name,
{
    let n = hs.len();
    let mut out: Vec<(String, String)> = Vec::new();
    let mut i: usize = n;
    while i > 0
        invariant
            n == hs@.len(),
            i <= n,
            forall|j1: int, j2: int|
                0 <= j1 < j2 < out@.len() ==> (#[trigger] out@[j1]).0@ != (
                #[trigger] out@[j2]).0@,
            forall|j: int|
                0 <= j < out@.len() ==> raw_header_value(hs@.skip(i as int), (#[trigger] out@[j]).0@)
                    == Some(out@[j].1),
            forall|name: Seq<char>|
                (#[trigger] raw_header_value(hs@.skip(i as int), name)) is Some ==> exists|j: int|
                    0 <= j < out@.len() && out@[j].0@ == name,
        decreases i,
    {
        i -= 1;
        let ghost suffix = hs@.skip(i as int);
        let ghost rest = hs@.skip(i + 1 as int);
        proof {
            assert(suffix.drop_first() =~= rest);
            assert(suffix[0] == hs@[i as int]);
            assert(suffix.len() > 0);
        }
        let lk = ascii_lowercase(hs[i].0.as_str());
        let ghost out0 = out@;
        let present = contains_name(&out, &lk);
        if !present {
            let v = hs[i].1.clone();
            out.push((lk, v));
        }
        proof {
            if !present {
                assert(raw_header_value(rest, lk@) is None) by {
                    if raw_header_value(rest, lk@) is Some {
                        let j = choose|j: int| 0 <= j < out0.len() && out0[j].0@ == lk@;
                    }
                }
                lemma_raw_header_value_unshift(suffix, lk@);
                assert(out@.last().0@ == lk@);
                assert(raw_header_value(suffix, lk@) == Some(out@.last().1));
            }
            assert forall|name: Seq<char>|
                (#[trigger] raw_header_value(suffix, name)) is Some implies exists|j: int|
                0 <= j < out@.len() && out@[j].0@ == name by {
                lemma_raw_header_value_unshift(suffix, name);
                if raw_header_value(rest, name) is Some {
                    let j = choose|j: int| 0 <= j < out0.len() && out0[j].0@ == name;
                    assert(out@[j] == out0[j]);
                } else {
                    assert(name == lk@);
                    if present {
                        let j = choose|j: int| 0 <= j < out0.len() && out0[j].0@ == lk@;
                        assert(out@[j] == out0[j]);
                    } else {
                        assert(out@[out@.len() - 1].0@ == lk@);
                    }
                }
            }
            assert forall|j: int| 0 <= j < out@.len() implies raw_header_value(
                suffix,
                (#[trigger] out@[j]).0@,
            ) == Some(out@[j].1) by {
                lemma_raw_header_value_unshift(suffix, out@[j].0@);
                if j < out0.len() {
                    assert(out@[j] == out0[j]);
                    assert(raw_header_value(rest, out0[j].0@) == Some(out0[j].1));
                }
            }
        }
    }
    proof {
        assert(hs@.skip(0) =~= hs@);
    }
    let mut rev: Vec<(String, String)> = Vec::new();
    let mut k: usize = out.len();
    while k > 0
        invariant
            k <= out@.len(),
            rev@.len() == out@.len() - k,
            forall|j: int|
                0 <= j < rev@.len() ==> (#[trigger] rev@[j]) == out@[out@.len() - 1 - j],
        decreases k,
    {
        k -= 1;
        let name = out[k].0.clone();
        let v = out[k].1.clone();
        rev.push((name, v));
        proof {
            assert(rev@.last() == out@[k as int]);
        }
    }
    proof {
        assert forall|name: Seq<char>|
            (#[trigger] raw_header_value(hs@, name)) is Some implies exists|j: int|
            0 <= j < rev@.len() && rev@[j].0@ == name by {
            let j = choose|j: int| 0 <= j < out@.len() && out@[j].0@ == name;
            assert(rev@[out@.len() - 1 - j] == out@[j]);
        }
        assert forall|name: Seq<char>|
            (exists|j: int| 0 <= j < rev@.len() && (#[trigger] rev@[j]).0@ == name) implies
            raw_header_value(hs@, name) is Some by {
            let j = choose|j: int| 0 <= j < rev@.len() && rev@[j].0@ == name;
            assert(rev@[j] == out@[out@.len() - 1 - j]);
        }
    }
    rev
}

/// Judges one response: times the attempt out, follows a redirect, or
/// passes the response through to body reading.
///
/// `headers` must be the normalized (lower-cased) response headers, as
/// `normalize_headers` returns them.
pub fn on_response(
    st: &RedirectState,
    status: u16,
    headers: &Vec<(String, String)>,
    elapsed_millis: u128,
    opts: &HttpRequestOptions,
) -> (r: ResponseVerdict)
    ensures
        response_verdict_matches(*st, status, headers@, elapsed_millis, *opts, r),
{
    if opts.max_connection_time > 0 && elapsed_millis > opts.max_connection_time as u128 {
        return ResponseVerdict::Fail(HttpRequestError::TimeOut);
    }
    if !(st.budget > 0 && 300 <= status && status <= 399) {
        return ResponseVerdict::ReadBody;
    }
    let loc = match lookup_header(headers, "location") {
        Some(l) => l,
        None => {
            return ResponseVerdict::Fail(
                HttpRequestError::RedirectError("Cannot get the `location` field in headers."),
            );
        },
    };
    let target = match resolve_redirect_target(&st.url, loc.as_str()) {
        Ok(t) => t,
        Err(e) => {
            return ResponseVerdict::Fail(e);
        },
    };
    match redirect_decision(st, status, target) {
        Ok(next) => ResponseVerdict::FollowRedirect(next),
        Err(e) => ResponseVerdict::Fail(e),
    }
}

/// The bounded body reader: accumulates response body chunks while
/// enforcing the size limit and the attempt-wide time limit. The moment a
/// limit is exceeded the reader fails and discards everything it read, so
/// no partial body can ever be handed out.
#[derive(Debug, PartialEq)]
pub struct BodyReader {
    /// The byte ceiling on the accumulated body.
    pub max_size: usize,
    /// The time ceiling in milliseconds; 0 means unlimited.
    pub max_millis: u64,
    /// The bytes accumulated so far; emptied for good on failure.
    pub body: Vec<u8>,
    /// Whether a limit was exceeded.
    pub failed: bool,
}

/// A reader that starts empty, with the limits of the given options.
pub fn body_reader_new(opts: &HttpRequestOptions) -> (r: BodyReader)
    ensures
        r.max_size == opts.max_response_body_size,
        r.max_millis == opts.max_connection_time,
        r.body@ == Seq::<u8>::empty(),
        !r.failed,
{
    BodyReader {
        max_size: opts.max_response_body_size,
        max_millis: opts.max_connection_time,
        body: Vec::new(),
        failed: false,
    }
}

impl BodyReader {
    /// Accepts one chunk of the response body. The chunk is appended when
    /// both limits hold; a chunk that would push the total over
    /// `max_size` fails with `TooLarge`, and too much elapsed time fails
    /// with `TimeOut`; either failure discards everything read so far.
    pub fn push_chunk(&mut self, chunk: &[u8], elapsed_millis: u128) -> (r: Result<
        (),
        HttpRequestError,
    >)
        requires
            !old(self).failed,
            old(self).body@.len() <= old(self).max_size,
        ensures
            final(self).max_size == old(self).max_size,
            final(self).max_millis == old(self).max_millis,
            match r {
                Ok(_) => {
                    &&& !final(self).failed
                    &&& final(self).body@ == old(self).body@ + chunk@
                    &&& old(self).body@.len() + chunk@.len() <= old(self).max_size
                    &&& !time_exceeded(old(self).max_millis, elapsed_millis)
                },
                Err(e) => {
                    &&& final(self).failed
                    &&& final(self).body@ == Seq::<u8>::empty()
                    &&& if old(self).body@.len() + chunk@.len() > old(self).max_size {
                        e == HttpRequestError::TooLarge
                    } else {
                        e == HttpRequestError::TimeOut && time_exceeded(
                            old(self).max_millis,
                            elapsed_millis,
                        )
                    }
                },
            },
    {
        let clen = chunk.len();
        if clen > self.max_size - self.body.len() {
            self.body = Vec::new();
            self.failed = true;
            return Err(HttpRequestError::TooLarge);
        }
        let mut i: usize = 0;
        while i < clen
            invariant
                clen == chunk@.len(),
                i <= clen,
                self.body@ == old(self).body@ + chunk@.take(i as int),
                self.max_size == old(self).max_size,
                self.max_millis == old(self).max_millis,
                self.failed == old(self).failed,
            decreases clen - i,
        {
            self.body.push(chunk[i]);
            proof {
                assert(old(self).body@ + chunk@.take(i + 1 as int) =~= (old(self).body@
                    + chunk@.take(i as int)).push(chunk@[i as int]));
            }
            i += 1;
        }
        proof {
            assert(chunk@.take(clen as int) =~= chunk@);
        }
        if self.max_millis > 0 && elapsed_millis > self.max_millis as u128 {
            self.body = Vec::new();
            self.failed = true;
            return Err(HttpRequestError::TimeOut);
        }
        Ok(())
    }

    /// Hands the accumulated body out, consuming the reader.
    pub fn into_body(self) -> (r: Vec<u8>)
        requires
            !self.failed,
        ensures
            r@ == self.body@,
    {
        self.body
    }
}

/// The total length of a sequence of chunks.
pub open spec fn chunks_total(chunks: Seq<Seq<u8>>) -> nat
    decreases chunks.len(),
{
    if chunks.len() == 0 {
        0
    } else {
        chunks_total(chunks.drop_last()) + chunks.last().len()
    }
}

/// The size-limit bookkeeping of a reader that accepts the chunks in
/// order: the accumulated total, or `None` once a chunk pushed the total
/// over `max_size` — the step at which `push_chunk` fails with `TooLarge`.
pub open spec fn run_reader(max_size: nat, chunks: Seq<Seq<u8>>) -> Option<nat>
    decreases chunks.len(),
{
    if chunks.len() == 0 {
        Some(0 as nat)
    } else {
        match run_reader(max_size, chunks.drop_last()) {
            None => None,
            Some(t) => if t + chunks.last().len() > max_size {
                None
            } else {
                Some((t + chunks.last().len()) as nat)
            },
        }
    }
}

/// A reader that has not failed holds exactly the bytes seen so far, and
/// no more than `max_size` of them.
pub proof fn lemma_run_reader_total(max_size: nat, chunks: Seq<Seq<u8>>)
    ensures
        run_reader(max_size, chunks) matches Some(t) ==> t == chunks_total(chunks) && t
            <= max_size,
    decreases chunks.len(),
{
    if chunks.len() > 0 {
        lemma_run_reader_total(max_size, chunks.drop_last());
    }
}

/// A response stream whose bytes total more than `max_size` always makes
/// the reader fail with `TooLarge` at some chunk — it can never accept the
/// whole stream, so no body larger than the limit, and no partial body,
/// is ever handed out.
pub proof fn lemma_reader_too_large(max_size: nat, chunks: Seq<Seq<u8>>)
    requires
        chunks_total(chunks) > max_size,
    ensures
        run_reader(max_size, chunks) is None,
    decreases chunks.len(),
{
    if chunks.len() > 0 {
        if chunks_total(chunks.drop_last()) > max_size {
            lemma_reader_too_large(max_size, chunks.drop_last());
        } else {
            lemma_run_reader_total(max_size, chunks.drop_last());
        }
    }
}

/// With `allow_local` off, an attempt at a local host is refused with
/// `LocalNotAllowed` before any wire request exists, so nothing can reach
/// a transport.
pub proof fn lemma_local_not_allowed(
    st: RedirectState,
    req: HttpRequest,
    r: Result<WireRequest, HttpRequestError>,
)
    requires
        !req.options.allow_local,
        st.url.host matches Some(h) && is_local_host_spec(h),
        wire_request_matches(st, req, r),
    ensures
        r == Err::<WireRequest, HttpRequestError>(HttpRequestError::LocalNotAllowed),
{
}

/// Building a wire request reads the state and the specification alone:
/// two results that both satisfy the build contract agree on success, and
/// successful ones agree on everything observable. This is what lets a
/// specification be sent again and again with the same outcome at this
/// stage, and with the specification itself untouched, since building
/// borrows it immutably.
pub proof fn lemma_attempt_deterministic(
    st: RedirectState,
    req: HttpRequest,
    r1: Result<WireRequest, HttpRequestError>,
    r2: Result<WireRequest, HttpRequestError>,
)
    requires
        wire_request_matches(st, req, r1),
        wire_request_matches(st, req, r2),
    ensures
        r1 is Ok <==> r2 is Ok,
        r1 matches Ok(w1) ==> (r2 matches Ok(w2) && w1.method == w2.method && w1.url@ == w2.url@
            && deep_headers(w1.headers@) == deep_headers(w2.headers@) && w1.timeout_millis
            == w2.timeout_millis && (match (w1.body, w2.body) {
            (Some(b1), Some(b2)) => b1@ == b2@,
            (None, None) => true,
            _ => false,
        })),
{
}

/// With the redirect budget exhausted, a redirection status is not an
/// error: the response is handed back to the caller as it stands.
pub proof fn lemma_budget_exhausted_passes_through(
    st: RedirectState,
    status: u16,
    headers: Seq<(String, String)>,
    elapsed_millis: u128,
    opts: HttpRequestOptions,
    r: ResponseVerdict,
)
    requires
        !time_exceeded(opts.max_connection_time, elapsed_millis),
        st.budget == 0,
        response_verdict_matches(st, status, headers, elapsed_millis, opts, r),
    ensures
        r == ResponseVerdict::ReadBody,
{
}

/// A followed 303 redirect continues as GET without the body, and
/// consumes one hop of the budget.
pub proof fn lemma_303_switches_to_get(
    st: RedirectState,
    headers: Seq<(String, String)>,
    elapsed_millis: u128,
    opts: HttpRequestOptions,
    r: ResponseVerdict,
)
    requires
        response_verdict_matches(st, 303, headers, elapsed_millis, opts, r),
        r is FollowRedirect,
    ensures
        r matches ResponseVerdict::FollowRedirect(s2) && s2.method == HttpRequestMethod::GET
            && !s2.send_body && s2.budget == st.budget - 1,
{
}

/// A followed 301, 302, 307 or 308 redirect keeps the original method and
/// body, and consumes one hop of the budget.
pub proof fn lemma_method_preserved(
    st: RedirectState,
    status: u16,
    headers: Seq<(String, String)>,
    elapsed_millis: u128,
    opts: HttpRequestOptions,
    r: ResponseVerdict,
)
    requires
        status == 301 || status == 302 || status == 307 || status == 308,
        response_verdict_matches(st, status, headers, elapsed_millis, opts, r),
        r is FollowRedirect,
    ensures
        r matches ResponseVerdict::FollowRedirect(s2) && s2.method == st.method && s2.send_body
            == st.send_body && s2.budget == st.budget - 1,
{
}

/// In every built wire request that carries a body, the last header is
/// `Content-Length`, its value is the decimal text of the encoded body's
/// length, and the body bytes are exactly the body's encoding.
pub proof fn lemma_content_length_matches_body(
    st: RedirectState,
    req: HttpRequest,
    w: WireRequest,
)
    requires
        wire_request_matches(st, req, Ok(w)),
        effective_body(st, req) is Some,
    ensures
        w.body matches Some(bb) && bb@ == body_bytes(effective_body(st, req).unwrap()),
        deep_headers(w.headers@).last() == (
            "Content-Length"@,
            dec_chars(body_bytes(effective_body(st, req).unwrap()).len()),
        ),
{
}

} // verus!
