use vstd::prelude::*;

use crate::text::str_eq;

verus! {

/// The http response.
#[derive(Debug, Clone, PartialEq)]
pub struct HttpResponse {
    /// The HTTP status code.
    pub status_code: u16,
    /// The response headers as a mapping: one entry per distinct
    /// lower-cased header name, valued by the last occurrence of that
    /// name in the response.
    pub headers: Vec<(String, String)>,
    /// The response body, at most `max_response_body_size` bytes.
    pub body: Vec<u8>,
}

/// The value of the last header named `name` in `headers`, if any.
pub open spec fn header_value(headers: Seq<(String, String)>, name: Seq<char>) -> Option<String>
    decreases headers.len(),
{
    if headers.len() == 0 {
        None
    } else if headers.last().0@ == name {
        Some(headers.last().1)
    } else {
        header_value(headers.drop_last(), name)
    }
}

/// Looks a header up by its exact name; the last occurrence wins.
pub fn lookup_header<'a>(headers: &'a Vec<(String, String)>, name: &str) -> (r: Option<&'a String>)
    ensures
        match r {
            Some(v) => header_value(headers@, name@) == Some(*v),
            None => header_value(headers@, name@) is None,
        },
{
    let mut found: Option<&String> = None;
    let mut i: usize = 0;
    while i < headers.len()
        invariant
            i <= headers@.len(),
            match found {
                Some(v) => header_value(headers@.take(i as int), name@) == Some(*v),
                None => header_value(headers@.take(i as int), name@) is None,
            },
        decreases headers@.len() - i,
    {
        proof {
            assert(headers@.take(i + 1 as int).drop_last() =~= headers@.take(i as int));
        }
        if str_eq(headers[i].0.as_str(), name) {
            found = Some(&headers[i].1);
        }
        i += 1;
    }
    proof {
        assert(headers@.take(headers@.len() as int) =~= headers@);
    }
    found
}

impl HttpResponse {
    /// The value of the response header named `name` (exact match on the
    /// lower-cased stored name); the last occurrence wins.
    pub fn header<'a>(&'a self, name: &str) -> (r: Option<&'a String>)
        ensures
            match r {
                Some(v) => header_value(self.headers@, name@) == Some(*v),
                None => header_value(self.headers@, name@) is None,
            },
    {
        lookup_header(&self.headers, name)
    }
}

} // verus!
