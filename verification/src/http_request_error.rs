use vstd::prelude::*;
use vstd::string::StringExecFns;

verus! {

/// Errors for `HttpRequest`.
///
/// Every failure of an attempt is terminal: nothing is retried by the engine,
/// and each error is handed back to the caller as a value.
#[derive(Debug, PartialEq, Eq)]
pub enum HttpRequestError {
    /// A URL string, or a redirect location, does not parse.
    UrlParseError,
    /// The underlying transport failed: connection, TLS or protocol trouble,
    /// surfaced verbatim as text.
    TransportError(String),
    /// A local I/O failure unrelated to the protocol, surfaced verbatim as text.
    IOError(String),
    /// A redirect status came with a missing or unusable `Location` header, or
    /// with an unsupported redirection status.
    RedirectError(&'static str),
    /// The accumulated response body exceeded `max_response_body_size`.
    TooLarge,
    /// The attempt-wide elapsed time exceeded `max_connection_time`.
    TimeOut,
    /// The target resolved to a local address while `allow_local` was off.
    LocalNotAllowed,
    /// A precondition violation, such as a URL without a host.
    Other(&'static str),
}

impl Clone for HttpRequestError {
    /// Clones the error, preserving its variant and text.
    fn clone(&self) -> (r: Self)
        ensures
            r == *self,
    {
        match self {
            HttpRequestError::UrlParseError => HttpRequestError::UrlParseError,
            HttpRequestError::TransportError(m) => HttpRequestError::TransportError(m.clone()),
            HttpRequestError::IOError(m) => HttpRequestError::IOError(m.clone()),
            HttpRequestError::RedirectError(m) => HttpRequestError::RedirectError(m),
            HttpRequestError::TooLarge => HttpRequestError::TooLarge,
            HttpRequestError::TimeOut => HttpRequestError::TimeOut,
            HttpRequestError::LocalNotAllowed => HttpRequestError::LocalNotAllowed,
            HttpRequestError::Other(m) => HttpRequestError::Other(m),
        }
    }
}

/// The text that describes an error.
pub open spec fn error_text(e: HttpRequestError) -> Seq<char> {
    match e {
        HttpRequestError::UrlParseError => "The URL cannot be parsed."@,
        HttpRequestError::TransportError(m) => m@,
        HttpRequestError::IOError(m) => m@,
        HttpRequestError::RedirectError(m) => m@,
        HttpRequestError::TooLarge => "Remote data is too large."@,
        HttpRequestError::TimeOut => "The connection has timed out."@,
        HttpRequestError::LocalNotAllowed => "Local addresses are not allowed."@,
        HttpRequestError::Other(m) => m@,
    }
}

impl HttpRequestError {
    /// Describes the error in one line of text.
    pub fn message(&self) -> (r: String)
        ensures
            r@ == error_text(*self),
    {
        match self {
            HttpRequestError::UrlParseError => String::from_str("The URL cannot be parsed."),
            HttpRequestError::TransportError(m) => m.clone(),
            HttpRequestError::IOError(m) => m.clone(),
            HttpRequestError::RedirectError(m) => String::from_str(m),
            HttpRequestError::TooLarge => String::from_str("Remote data is too large."),
            HttpRequestError::TimeOut => String::from_str("The connection has timed out."),
            HttpRequestError::LocalNotAllowed => String::from_str(
                "Local addresses are not allowed.",
            ),
            HttpRequestError::Other(m) => String::from_str(m),
        }
    }
}

} // verus!
