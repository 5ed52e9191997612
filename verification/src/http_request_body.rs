use vstd::prelude::*;

verus! {

/// A http request body that you want to send.
///
/// Every variant is structurally duplicable, so a request holding one can be
/// re-sent without being consumed.
#[derive(Debug, PartialEq)]
pub enum HttpRequestBody {
    /// Raw bytes, sent verbatim, with their content type.
    Binary {
        /// The value for the `Content-Type` header.
        content_type: String,
        /// The bytes to send.
        body: Vec<u8>,
    },
    /// Text, sent as its UTF-8 bytes, with its content type.
    Text {
        /// The value for the `Content-Type` header.
        content_type: String,
        /// The text to send.
        body: String,
    },
    /// Key/value pairs, serialized as `application/x-www-form-urlencoded`.
    FormURLEncoded(Vec<(String, String)>),
}

/// Clones a byte vector, preserving its contents.
pub fn clone_byte_vec(v: &Vec<u8>) -> (r: Vec<u8>)
    ensures
        r@ == v@,
{
    let mut out: Vec<u8> = Vec::new();
    let n = v.len();
    let mut i: usize = 0;
    while i < n
        invariant
            n == v@.len(),
            i <= n,
            out@ == v@.take(i as int),
        decreases n - i,
    {
        out.push(v[i]);
        proof {
            assert(out@ =~= v@.take(i + 1 as int));
        }
        i += 1;
    }
    proof {
        assert(out@ =~= v@);
    }
    out
}

/// Clones a vector of string pairs, preserving its contents.
pub fn clone_pairs(v: &Vec<(String, String)>) -> (r: Vec<(String, String)>)
    ensures
        r@ == v@,
{
    let mut out: Vec<(String, String)> = Vec::new();
    let n = v.len();
    let mut i: usize = 0;
    while i < n
        invariant
            n == v@.len(),
            i <= n,
            out@ == v@.take(i as int),
        decreases n - i,
    {
        let k = v[i].0.clone();
        let w = v[i].1.clone();
        out.push((k, w));
        proof {
            assert(out@ =~= v@.take(i + 1 as int));
        }
        i += 1;
    }
    proof {
        assert(out@ =~= v@);
    }
    out
}

/// Whether two request bodies have the same variant and the same contents.
pub open spec fn body_eq(a: HttpRequestBody, b: HttpRequestBody) -> bool {
    match (a, b) {
        (
            HttpRequestBody::Binary { content_type: c1, body: b1 },
            HttpRequestBody::Binary { content_type: c2, body: b2 },
        ) => c1 == c2 && b1@ == b2@,
        (
            HttpRequestBody::Text { content_type: c1, body: b1 },
            HttpRequestBody::Text { content_type: c2, body: b2 },
        ) => c1 == c2 && b1 == b2,
        (HttpRequestBody::FormURLEncoded(m1), HttpRequestBody::FormURLEncoded(m2)) => m1@ == m2@,
        _ => false,
    }
}

impl Clone for HttpRequestBody {
    /// Clones a request body, preserving its variant and contents.
    fn clone(&self) -> (r: Self)
        ensures
            body_eq(r, *self),
    {
        match self {
            HttpRequestBody::Binary { content_type, body } => HttpRequestBody::Binary {
                content_type: content_type.clone(),
                body: clone_byte_vec(body),
            },
            HttpRequestBody::Text { content_type, body } => HttpRequestBody::Text {
                content_type: content_type.clone(),
                body: body.clone(),
            },
            HttpRequestBody::FormURLEncoded(map) => HttpRequestBody::FormURLEncoded(
                clone_pairs(map),
            ),
        }
    }
}

} // verus!
