use vstd::prelude::*;

verus! {

/// Default byte ceiling on an accumulated response body: 1 MiB.
pub const DEFAULT_MAX_RESPONSE_BODY_SIZE: usize = 1024 * 1024;

/// Default number of redirect hops that are followed.
pub const DEFAULT_MAX_REDIRECT_COUNT: usize = 5;

/// Default wall-clock ceiling on a whole attempt, in milliseconds: 1 minute.
pub const DEFAULT_MAX_CONNECTION_TIME: u64 = 60000;

/// By default, requests to local addresses are allowed.
pub const DEFAULT_ALLOW_LOCAL: bool = true;

/// Options for `HttpRequest`.
#[derive(Debug, PartialEq)]
pub struct HttpRequestOptions {
    /// The size limit in bytes of the response body. The default value is `1024 * 1024` (1 MiB).
    pub max_response_body_size: usize,
    /// The count limit of redirection times. The default value is `5`. `0` disables
    /// following: a redirect status is then handed back to the caller as an ordinary
    /// response.
    pub max_redirect_count: usize,
    /// The time limit in milliseconds of a connection. 0 means the time is unlimited.
    /// The default value is `60000` (1 minute).
    pub max_connection_time: u64,
    /// Whether to allow to request local URL resources. The default value is `true`.
    pub allow_local: bool,
}

impl Clone for HttpRequestOptions {
    /// Clones the options, preserving every field.
    fn clone(&self) -> (r: Self)
        ensures
            r == *self,
    {
        HttpRequestOptions {
            max_response_body_size: self.max_response_body_size,
            max_redirect_count: self.max_redirect_count,
            max_connection_time: self.max_connection_time,
            allow_local: self.allow_local,
        }
    }
}

impl Default for HttpRequestOptions {
    fn default() -> (r: Self)
        ensures
            r.max_response_body_size == DEFAULT_MAX_RESPONSE_BODY_SIZE,
            r.max_redirect_count == DEFAULT_MAX_REDIRECT_COUNT,
            r.max_connection_time == DEFAULT_MAX_CONNECTION_TIME,
            r.allow_local == DEFAULT_ALLOW_LOCAL,
    {
        HttpRequestOptions {
            max_response_body_size: DEFAULT_MAX_RESPONSE_BODY_SIZE,
            max_redirect_count: DEFAULT_MAX_REDIRECT_COUNT,
            max_connection_time: DEFAULT_MAX_CONNECTION_TIME,
            allow_local: DEFAULT_ALLOW_LOCAL,
        }
    }
}

} // verus!
