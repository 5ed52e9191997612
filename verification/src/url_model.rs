use vstd::prelude::*;
use vstd::string::{StrSliceExecFns, StringExecFns};

use crate::form_encoding::{encode_pairs, form_urlencode, lemma_encode_pairs_ascii};
use crate::http_request_error::HttpRequestError;
use crate::local_policy::HostName;
use crate::text::{
    all_ascii, ascii_to_string, dec_bytes, lemma_all_ascii_concat, lemma_dec_bytes_ascii,
    lemma_hex_bytes_ascii, hex_bytes, push_dec_bytes, push_hex_bytes, u64_to_dec_string,
};

verus! {

/// A URL, reduced to the parts the engine reads and writes: scheme,
/// userinfo, host, port, path, query and fragment, each held as plain text
/// or numbers. A parser produces it from a URL string, and `url_string`
/// serializes it back.
#[derive(Debug, PartialEq)]
pub struct UrlModel {
    /// The scheme, lower-cased, without the trailing `:`.
    pub scheme: String,
    /// The username, possibly empty.
    pub username: String,
    /// The password, if one was given.
    pub password: Option<String>,
    /// The host, if the URL has one.
    pub host: Option<HostName>,
    /// The port, if one was given explicitly.
    pub port: Option<u16>,
    /// The path, starting with `/` whenever the URL has a host.
    pub path: String,
    /// The query string, without the leading `?`.
    pub query: Option<String>,
    /// The fragment, without the leading `#`.
    pub fragment: Option<String>,
}

impl Clone for HostName {
    /// Clones a host, preserving its value.
    fn clone(&self) -> (r: Self)
        ensures
            r == *self,
    {
        match self {
            HostName::Ipv4(o) => HostName::Ipv4(*o),
            HostName::Ipv6(s) => HostName::Ipv6(*s),
            HostName::Domain(d) => HostName::Domain(d.clone()),
        }
    }
}

/// Clones an optional string, preserving its value.
pub fn clone_opt_string(s: &Option<String>) -> (r: Option<String>)
    ensures
        r == *s,
{
    match s {
        Some(v) => Some(v.clone()),
        None => None,
    }
}

impl Clone for UrlModel {
    /// Clones a URL model, preserving its value.
    fn clone(&self) -> (r: Self)
        ensures
            r == *self,
    {
        UrlModel {
            scheme: self.scheme.clone(),
            username: self.username.clone(),
            password: clone_opt_string(&self.password),
            host: match &self.host {
                Some(h) => Some(h.clone()),
                None => None,
            },
            port: self.port,
            path: self.path.clone(),
            query: clone_opt_string(&self.query),
            fragment: clone_opt_string(&self.fragment),
        }
    }
}

/// The dotted-decimal bytes of an IPv4 address.
pub open spec fn ipv4_bytes(a: u8, b: u8, c: u8, d: u8) -> Seq<u8> {
    dec_bytes(a as nat) + seq![0x2eu8] + dec_bytes(b as nat) + seq![0x2eu8] + dec_bytes(c as nat)
        + seq![0x2eu8] + dec_bytes(d as nat)
}

/// The number of consecutive zero segments starting at `i`.
pub open spec fn zero_run_len(s: Seq<u16>, i: int) -> int
    decreases s.len() - i
        when 0 <= i <= s.len()
{
    if 0 <= i < s.len() && s[i] == 0 {
        1 + zero_run_len(s, i + 1)
    } else {
        0
    }
}

/// The start of the leftmost longest zero run at or after `i`; `s.len()`
/// stands for no run at all.
pub open spec fn best_zero_run(s: Seq<u16>, i: int) -> int
    decreases s.len() - i
        when 0 <= i <= s.len()
{
    if i >= s.len() {
        i
    } else {
        let b = best_zero_run(s, i + 1);
        if zero_run_len(s, i) >= zero_run_len(s, b) {
            i
        } else {
            b
        }
    }
}

/// A zero run fits inside the segment list.
pub proof fn lemma_zero_run_bounds(s: Seq<u16>, i: int)
    requires
        0 <= i <= s.len(),
    ensures
        0 <= zero_run_len(s, i),
        i + zero_run_len(s, i) <= s.len(),
    decreases s.len() - i,
{
    if 0 <= i < s.len() && s[i] == 0 {
        lemma_zero_run_bounds(s, i + 1);
    }
}

/// The chosen zero run start lies between `i` and the end.
pub proof fn lemma_best_zero_run_bounds(s: Seq<u16>, i: int)
    requires
        0 <= i <= s.len(),
    ensures
        i <= best_zero_run(s, i) <= s.len(),
    decreases s.len() - i,
{
    if i < s.len() {
        lemma_best_zero_run_bounds(s, i + 1);
    }
}

/// The hex texts of the segments `from..to`, joined with `:`.
pub open spec fn hex_groups_bytes(s: Seq<u16>, from: int, to: int) -> Seq<u8>
    decreases to - from
        when from <= to
{
    if from >= to {
        Seq::empty()
    } else if from + 1 == to {
        hex_bytes(s[from] as nat)
    } else {
        hex_bytes(s[from] as nat) + seq![0x3au8] + hex_groups_bytes(s, from + 1, to)
    }
}

/// The bracketed text of an IPv6 address, with the leftmost longest run of
/// two or more zero segments compressed to `::`, as the URL parser
/// serializes such a host.
pub open spec fn ipv6_bytes(s: Seq<u16>) -> Seq<u8>
    recommends
        s.len() == 8,
{
    let b = best_zero_run(s, 0);
    let l = zero_run_len(s, b);
    if l >= 2 {
        seq![0x5bu8] + hex_groups_bytes(s, 0, b) + seq![0x3au8, 0x3au8] + hex_groups_bytes(
            s,
            b + l,
            8,
        ) + seq![0x5du8]
    } else {
        seq![0x5bu8] + hex_groups_bytes(s, 0, 8) + seq![0x5du8]
    }
}

/// Every byte of a joined group range is ASCII.
pub proof fn lemma_hex_groups_ascii(s: Seq<u16>, from: int, to: int)
    requires
        0 <= from <= to <= s.len(),
    ensures
        all_ascii(hex_groups_bytes(s, from, to)),
    decreases to - from,
{
    if from >= to {
    } else if from + 1 == to {
        lemma_hex_bytes_ascii(s[from] as nat);
    } else {
        lemma_hex_bytes_ascii(s[from] as nat);
        lemma_all_ascii_concat(hex_bytes(s[from] as nat), seq![0x3au8]);
        lemma_hex_groups_ascii(s, from + 1, to);
        lemma_all_ascii_concat(
            hex_bytes(s[from] as nat) + seq![0x3au8],
            hex_groups_bytes(s, from + 1, to),
        );
    }
}

/// Every byte of a serialized IPv6 address is ASCII.
pub proof fn lemma_ipv6_bytes_ascii(s: Seq<u16>)
    requires
        s.len() == 8,
    ensures
        all_ascii(ipv6_bytes(s)),
{
    let b = best_zero_run(s, 0);
    let l = zero_run_len(s, b);
    lemma_best_zero_run_bounds(s, 0);
    lemma_zero_run_bounds(s, b);
    if l >= 2 {
        lemma_hex_groups_ascii(s, 0, b);
        lemma_hex_groups_ascii(s, b + l, 8);
        lemma_all_ascii_concat(seq![0x5bu8], hex_groups_bytes(s, 0, b));
        lemma_all_ascii_concat(
            seq![0x5bu8] + hex_groups_bytes(s, 0, b),
            seq![0x3au8, 0x3au8],
        );
        lemma_all_ascii_concat(
            seq![0x5bu8] + hex_groups_bytes(s, 0, b) + seq![0x3au8, 0x3au8],
            hex_groups_bytes(s, b + l, 8),
        );
        lemma_all_ascii_concat(
            seq![0x5bu8] + hex_groups_bytes(s, 0, b) + seq![0x3au8, 0x3au8] + hex_groups_bytes(
                s,
                b + l,
                8,
            ),
            seq![0x5du8],
        );
    } else {
        lemma_hex_groups_ascii(s, 0, 8);
        lemma_all_ascii_concat(seq![0x5bu8], hex_groups_bytes(s, 0, 8));
        lemma_all_ascii_concat(seq![0x5bu8] + hex_groups_bytes(s, 0, 8), seq![0x5du8]);
    }
}

/// The length of the zero run starting at segment `i`.
fn zero_run_at(s: &[u16; 8], i: usize) -> (r: usize)
    requires
        i <= 8,
    ensures
        r as int == zero_run_len(s@, i as int),
        i + r <= 8,
    decreases 8 - i,
{
    if i < 8 && s[i] == 0 {
        1 + zero_run_at(s, i + 1)
    } else {
        0
    }
}

/// The start of the leftmost longest zero run at or after segment `i`.
fn best_zero_run_at(s: &[u16; 8], i: usize) -> (r: usize)
    requires
        i <= 8,
    ensures
        r as int == best_zero_run(s@, i as int),
        i <= r <= 8,
    decreases 8 - i,
{
    if i >= 8 {
        8
    } else {
        let b = best_zero_run_at(s, i + 1);
        let li = zero_run_at(s, i);
        let lb = zero_run_at(s, b);
        if li >= lb {
            i
        } else {
            b
        }
    }
}

/// Appends the hex texts of the segments `from..to`, joined with `:`.
fn push_hex_groups(s: &[u16; 8], from: usize, to: usize, out: &mut Vec<u8>)
    requires
        from <= to <= 8,
    ensures
        final(out)@ == old(out)@ + hex_groups_bytes(s@, from as int, to as int),
    decreases to - from,
{
    if from >= to {
        proof {
            assert(out@ =~= out@ + Seq::<u8>::empty());
        }
        return ;
    }
    push_hex_bytes(s[from] as u64, out);
    if from + 1 < to {
        out.push(0x3a);
        push_hex_groups(s, from + 1, to, out);
        proof {
            assert(out@ =~= old(out)@ + hex_groups_bytes(s@, from as int, to as int));
        }
    }
}

/// The text of a host as it stands in a URL: dotted decimal for IPv4,
/// bracketed full hex for IPv6, the domain itself otherwise.
pub open spec fn host_text(h: HostName) -> Seq<char> {
    match h {
        HostName::Ipv4(o) => ipv4_bytes(o[0], o[1], o[2], o[3]).map_values(|x: u8| x as char),
        HostName::Ipv6(s) => ipv6_bytes(s@).map_values(|x: u8| x as char),
        HostName::Domain(d) => d@,
    }
}

/// Every byte of a serialized IPv4 address is ASCII.
pub proof fn lemma_ipv4_bytes_ascii(a: u8, b: u8, c: u8, d: u8)
    ensures
        all_ascii(ipv4_bytes(a, b, c, d)),
{
    lemma_dec_bytes_ascii(a as nat);
    lemma_dec_bytes_ascii(b as nat);
    lemma_dec_bytes_ascii(c as nat);
    lemma_dec_bytes_ascii(d as nat);
    let s1 = dec_bytes(a as nat) + seq![0x2eu8];
    lemma_all_ascii_concat(dec_bytes(a as nat), seq![0x2eu8]);
    let s2 = s1 + dec_bytes(b as nat);
    lemma_all_ascii_concat(s1, dec_bytes(b as nat));
    let s3 = s2 + seq![0x2eu8];
    lemma_all_ascii_concat(s2, seq![0x2eu8]);
    let s4 = s3 + dec_bytes(c as nat);
    lemma_all_ascii_concat(s3, dec_bytes(c as nat));
    let s5 = s4 + seq![0x2eu8];
    lemma_all_ascii_concat(s4, seq![0x2eu8]);
    lemma_all_ascii_concat(s5, dec_bytes(d as nat));
}

/// Serializes a host to its URL text.
pub fn host_string(h: &HostName) -> (r: String)
    ensures
        r@ == host_text(*h),
{
    match h {
        HostName::Ipv4(o) => {
            let mut out: Vec<u8> = Vec::new();
            push_dec_bytes(o[0] as u64, &mut out);
            out.push(0x2e);
            push_dec_bytes(o[1] as u64, &mut out);
            out.push(0x2e);
            push_dec_bytes(o[2] as u64, &mut out);
            out.push(0x2e);
            push_dec_bytes(o[3] as u64, &mut out);
            proof {
                assert(out@ =~= ipv4_bytes(o@[0], o@[1], o@[2], o@[3]));
                lemma_ipv4_bytes_ascii(o@[0], o@[1], o@[2], o@[3]);
            }
            ascii_to_string(out)
        }
        HostName::Ipv6(s) => {
            let best = best_zero_run_at(s, 0);
            let blen = zero_run_at(s, best);
            let mut out: Vec<u8> = Vec::new();
            out.push(0x5b);
            if blen >= 2 {
                push_hex_groups(s, 0, best, &mut out);
                out.push(0x3a);
                out.push(0x3a);
                push_hex_groups(s, best + blen, 8, &mut out);
            } else {
                push_hex_groups(s, 0, 8, &mut out);
            }
            out.push(0x5d);
            proof {
                assert(out@ =~= ipv6_bytes(s@));
                lemma_ipv6_bytes_ascii(s@);
            }
            ascii_to_string(out)
        }
        HostName::Domain(d) => d.clone(),
    }
}

/// The userinfo part of a URL's authority: empty, or
/// `username[:password]@`.
pub open spec fn userinfo_text(username: Seq<char>, password: Option<String>) -> Seq<char> {
    if username.len() > 0 || password is Some {
        username + (match password {
            Some(p) => seq![':'] + p@,
            None => Seq::empty(),
        }) + seq!['@']
    } else {
        Seq::empty()
    }
}

/// The port part of a URL's authority: empty, or `:` and decimal digits.
pub open spec fn port_text(port: Option<u16>) -> Seq<char> {
    match port {
        Some(p) => seq![':'] + dec_bytes(p as nat).map_values(|x: u8| x as char),
        None => Seq::empty(),
    }
}

/// The authority of a URL with a host: userinfo, host text, port text.
pub open spec fn authority_text(
    username: Seq<char>,
    password: Option<String>,
    h: HostName,
    port: Option<u16>,
) -> Seq<char> {
    userinfo_text(username, password) + host_text(h) + port_text(port)
}

/// The serialization of a URL model whose query text is overridden by
/// `qtext`: `scheme:`, then `//` and the authority when there is a host,
/// then path, `?` and the query text, and `#fragment`.
pub open spec fn url_text_with_query(m: UrlModel, qtext: Option<Seq<char>>) -> Seq<char> {
    m.scheme@ + seq![':'] + (match m.host {
        Some(h) => seq!['/', '/'] + authority_text(m.username@, m.password, h, m.port),
        None => Seq::empty(),
    }) + m.path@ + (match qtext {
        Some(q) => seq!['?'] + q,
        None => Seq::empty(),
    }) + (match m.fragment {
        Some(f) => seq!['#'] + f@,
        None => Seq::empty(),
    })
}

/// The serialization of a URL model.
pub open spec fn url_text(m: UrlModel) -> Seq<char> {
    url_text_with_query(
        m,
        match m.query {
            Some(q) => Some(q@),
            None => None,
        },
    )
}

/// Serializes the authority of a URL model whose host is `h`.
fn authority_string(m: &UrlModel, h: &HostName) -> (r: String)
    ensures
        r@ == authority_text(m.username@, m.password, *h, m.port),
{
    proof {
        reveal_strlit(":");
        reveal_strlit("@");
    }
    let mut out = String::new();
    if !m.username.as_str().is_empty() || m.password.is_some() {
        out.append(m.username.as_str());
        if let Some(p) = &m.password {
            out.append(":");
            out.append(p.as_str());
        }
        out.append("@");
    }
    let hs = host_string(h);
    out.append(hs.as_str());
    if let Some(p) = m.port {
        out.append(":");
        let ps = u64_to_dec_string(p as u64);
        out.append(ps.as_str());
    }
    proof {
        assert(out@ =~= authority_text(m.username@, m.password, *h, m.port));
    }
    out
}

/// Serializes a URL model to its URL string.
#[verifier::rlimit(30)]
pub fn url_string(m: &UrlModel) -> (r: String)
    ensures
        r@ == url_text(*m),
{
    proof {
        reveal_strlit(":");
        reveal_strlit("//");
        reveal_strlit("?");
        reveal_strlit("#");
    }
    let mut out = String::new();
    out.append(m.scheme.as_str());
    out.append(":");
    if let Some(h) = &m.host {
        out.append("//");
        let auth = authority_string(m, h);
        out.append(auth.as_str());
    }
    out.append(m.path.as_str());
    if let Some(q) = &m.query {
        out.append("?");
        out.append(q.as_str());
    }
    if let Some(f) = &m.fragment {
        out.append("#");
        out.append(f.as_str());
    }
    proof {
        assert(out@ =~= url_text(*m));
    }
    out
}

/// The query text after appending encoded pairs: the encoded pairs alone
/// when the query was absent or empty, else the old query, `&`, and the
/// encoded pairs.
pub open spec fn merged_query_text(q: Option<String>, ps: Seq<(String, String)>) -> Seq<char> {
    let enc = encode_pairs(ps).map_values(|x: u8| x as char);
    match q {
        Some(qs) => if qs@.len() > 0 {
            qs@ + seq!['&'] + enc
        } else {
            enc
        },
        None => enc,
    }
}

/// Appends form-urlencoded pairs to a URL's query, leaving every other part
/// unchanged; with no pairs the URL is unchanged.
pub fn with_merged_query(m: &UrlModel, pairs: &Vec<(String, String)>) -> (r: UrlModel)
    ensures
        r.scheme == m.scheme,
        r.username == m.username,
        r.password == m.password,
        r.host == m.host,
        r.port == m.port,
        r.path == m.path,
        r.fragment == m.fragment,
        pairs@.len() == 0 ==> r.query == m.query,
        pairs@.len() > 0 ==> r.query is Some && r.query.unwrap()@ == merged_query_text(
            m.query,
            pairs@,
        ),
{
    let mut out = m.clone();
    if pairs.len() == 0 {
        return out;
    }
    let enc_bytes = form_urlencode(pairs);
    proof {
        lemma_encode_pairs_ascii(pairs@);
    }
    let enc = ascii_to_string(enc_bytes);
    let newq = match &m.query {
        Some(qs) => {
            if qs.as_str().is_empty() {
                enc
            } else {
                proof {
                    reveal_strlit("&");
                }
                let mut s = qs.clone();
                s.append("&");
                s.append(enc.as_str());
                proof {
                    assert(s@ =~= merged_query_text(m.query, pairs@));
                }
                s
            }
        },
        None => enc,
    };
    out.query = Some(newq);
    out
}

/// The slash-aware concatenation of two texts: exactly one `/` stands at the
/// join point, whatever each side brought.
pub open spec fn slash_join(a: Seq<char>, b: Seq<char>) -> Seq<char> {
    if a.len() > 0 && a.last() == '/' {
        if b.len() > 0 && b[0] == '/' {
            a + b.drop_first()
        } else {
            a + b
        }
    } else if b.len() > 0 && b[0] == '/' {
        a + b
    } else {
        a + seq!['/'] + b
    }
}

/// Concatenates two strings with exactly one slash at the join point.
pub fn concat_with_slash(a: &str, b: &str) -> (r: String)
    ensures
        r@ == slash_join(a@, b@),
{
    proof {
        reveal_strlit("/");
    }
    let mut out = String::from_str(a);
    let alen = a.unicode_len();
    let blen = b.unicode_len();
    let a_slash = alen > 0 && a.get_char(alen - 1) == '/';
    let b_slash = blen > 0 && b.get_char(0) == '/';
    if a_slash && b_slash {
        let rest = b.substring_char(1, blen);
        out.append(rest);
    } else if a_slash || b_slash {
        out.append(b);
    } else {
        out.append("/");
        out.append(b);
    }
    proof {
        assert(out@ =~= slash_join(a@, b@));
    }
    out
}

/// What `url::Url::parse` makes of a string: `None` when the string does
/// not parse as an absolute URL, else the parsed URL's parts as a model.
/// Parsing depends on the string alone, so this is a function.
pub uninterp spec fn url_parse_spec(s: Seq<char>) -> Option<UrlModel>;

/// Relies on `url::Url::parse` and the accessors `scheme`, `username`,
/// `password`, `host`, `port`, `path`, `query` and `fragment`: parsing
/// depends on the string alone, and the body only converts the parsed
/// URL's parts, one for one, into plain values.
#[verifier::external_body]
pub fn parse_url_model(s: &str) -> (r: Option<UrlModel>)
    ensures
        r == url_parse_spec(s@),
{
    let u = url::Url::parse(s).ok()?;
    Some(UrlModel {
        scheme: u.scheme().to_owned(),
        username: u.username().to_owned(),
        password: u.password().map(str::to_owned),
        host: u.host().map(|h| match h {
            url::Host::Ipv4(a) => HostName::Ipv4(a.octets()),
            url::Host::Ipv6(a) => HostName::Ipv6(a.segments()),
            url::Host::Domain(d) => HostName::Domain(d.to_owned()),
        }),
        port: u.port(),
        path: u.path().to_owned(),
        query: u.query().map(str::to_owned),
        fragment: u.fragment().map(str::to_owned),
    })
}

/// The base a relative redirect location is joined onto: the current
/// scheme, `://`, and, when the current URL has a host, the nonempty
/// username with `@`, the host text, and the port.
pub open spec fn redirect_base_text(cur: UrlModel) -> Seq<char> {
    cur.scheme@ + seq![':', '/', '/'] + (match cur.host {
        Some(h) => (if cur.username@.len() > 0 {
            cur.username@ + seq!['@']
        } else {
            Seq::empty()
        }) + host_text(h) + port_text(cur.port),
        None => Seq::empty(),
    })
}

/// The inheritance rule for an absolute redirect location: when the
/// current URL has a host and the location names none, the location takes
/// the current username, host and port; otherwise it stands as it is.
pub open spec fn inherited(cur: UrlModel, loc: UrlModel) -> UrlModel {
    if cur.host is Some && loc.host is None {
        UrlModel {
            scheme: loc.scheme,
            username: cur.username,
            password: loc.password,
            host: cur.host,
            port: cur.port,
            path: loc.path,
            query: loc.query,
            fragment: loc.fragment,
        }
    } else {
        loc
    }
}

/// What a redirect location resolves to against the current URL: the
/// location parsed absolute, under the inheritance rule; or, when it does
/// not parse, the slash-joined base and location parsed again; `None` when
/// that fails too.
pub open spec fn resolve_spec(cur: UrlModel, loc: Seq<char>) -> Option<UrlModel> {
    match url_parse_spec(loc) {
        Some(l) => Some(inherited(cur, l)),
        None => url_parse_spec(slash_join(redirect_base_text(cur), loc)),
    }
}

/// Resolves a redirect `Location` value against the current URL: an
/// absolute location is used as it stands, inheriting the current
/// username, host and port only when it names no host of its own; anything
/// else is joined to the current scheme and authority with a single slash
/// and parsed again. A location that still does not parse is a redirect
/// error. The result is exactly `resolve_spec`.
pub fn resolve_redirect_target(current: &UrlModel, location: &str) -> (r: Result<
    UrlModel,
    HttpRequestError,
>)
    ensures
        match resolve_spec(*current, location@) {
            Some(t) => r matches Ok(m) && m == t,
            None => r matches Err(e) && e matches HttpRequestError::RedirectError(m) && m@
                == "Cannot parse the `location` field in headers."@,
        },
{
    match parse_url_model(location) {
        Some(loc) => {
            let mut loc = loc;
            if current.host.is_some() && loc.host.is_none() {
                loc.username = current.username.clone();
                loc.host = match &current.host {
                    Some(h) => Some(h.clone()),
                    None => None,
                };
                loc.port = current.port;
            }
            proof {
                assert(loc == inherited(*current, url_parse_spec(location@).unwrap()));
            }
            Ok(loc)
        },
        None => {
            proof {
                reveal_strlit("://");
                reveal_strlit("@");
                reveal_strlit(":");
            }
            let mut base = String::new();
            base.append(current.scheme.as_str());
            base.append("://");
            if let Some(h) = &current.host {
                if !current.username.as_str().is_empty() {
                    base.append(current.username.as_str());
                    base.append("@");
                }
                let hs = host_string(h);
                base.append(hs.as_str());
                if let Some(p) = current.port {
                    base.append(":");
                    let ps = u64_to_dec_string(p as u64);
                    base.append(ps.as_str());
                }
            }
            proof {
                assert(base@ =~= redirect_base_text(*current));
            }
            let joined = concat_with_slash(base.as_str(), location);
            match parse_url_model(joined.as_str()) {
                Some(m2) => Ok(m2),
                None => Err(
                    HttpRequestError::RedirectError(
                        "Cannot parse the `location` field in headers.",
                    ),
                ),
            }
        },
    }
}

} // verus!

