use vstd::prelude::*;

verus! {

/// The HTTP request method.
#[derive(Debug, Clone, Copy, PartialEq, Eq, Hash, Structural)]
pub enum HttpRequestMethod {
    /// Get resources.
    GET,
    /// Change resources.
    POST,
    /// Change resources.
    PUT,
    /// Delete resources.
    DELETE,
    /// Only get the headers of resources.
    HEAD,
}

/// The request line token for each method.
pub open spec fn method_name(m: HttpRequestMethod) -> Seq<char> {
    match m {
        HttpRequestMethod::GET => "GET"@,
        HttpRequestMethod::POST => "POST"@,
        HttpRequestMethod::PUT => "PUT"@,
        HttpRequestMethod::DELETE => "DELETE"@,
        HttpRequestMethod::HEAD => "HEAD"@,
    }
}

impl HttpRequestMethod {
    /// The request line token for this method.
    pub fn get_str(self) -> (r: &'static str)
        ensures
            r@ == method_name(self),
    {
        match self {
            HttpRequestMethod::GET => "GET",
            HttpRequestMethod::POST => "POST",
            HttpRequestMethod::PUT => "PUT",
            HttpRequestMethod::DELETE => "DELETE",
            HttpRequestMethod::HEAD => "HEAD",
        }
    }
}

} // verus!
