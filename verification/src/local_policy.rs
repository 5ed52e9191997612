use vstd::prelude::*;

verus! {

/// The host of a URL, as the engine sees it: an IPv4 address by its octets,
/// an IPv6 address by its segments, or a domain name.
#[derive(Debug, PartialEq, Eq)]
pub enum HostName {
    /// An IPv4 address, its four octets most significant first.
    Ipv4([u8; 4]),
    /// An IPv6 address, eight 16-bit segments, most significant first.
    Ipv6([u16; 8]),
    /// A domain name, as the URL parser serialized it.
    Domain(String),
}

/// Whether the IPv4 address `a.b.c.d` is local: private, loopback, link-local,
/// broadcast, documentation, or unspecified.
pub open spec fn is_local_ipv4_spec(a: u8, b: u8, c: u8, d: u8) -> bool {
    ||| a == 10
    ||| (a == 172 && 16 <= b <= 31)
    ||| (a == 192 && b == 168)
    ||| a == 127
    ||| (a == 169 && b == 254)
    ||| (a == 255 && b == 255 && c == 255 && d == 255)
    ||| (a == 192 && b == 0 && c == 2)
    ||| (a == 198 && b == 51 && c == 100)
    ||| (a == 203 && b == 0 && c == 113)
    ||| (a == 0 && b == 0 && c == 0 && d == 0)
}

/// Whether the IPv6 address with the given segments is local: a multicast
/// address whose scope is not global, or loopback, unspecified,
/// unicast-link-local, unique-local, or the documentation prefix
/// 2001:db8::/32.
pub open spec fn is_local_ipv6_spec(s: Seq<u16>) -> bool
    recommends
        s.len() == 8,
{
    if s[0] >= 0xff00 {
        s[0] % 16 != 14
    } else {
        ||| (s[0] == 0 && s[1] == 0 && s[2] == 0 && s[3] == 0 && s[4] == 0 && s[5] == 0 && s[6]
            == 0 && (s[7] == 0 || s[7] == 1))
        ||| (0xfe80 <= s[0] < 0xfec0)
        ||| (0xfc00 <= s[0] < 0xfe00)
        ||| (s[0] == 0x2001 && s[1] == 0xdb8)
    }
}

/// Whether a host is local: a local IPv4 or IPv6 address, or the literal
/// domain name `localhost`.
pub open spec fn is_local_host_spec(h: HostName) -> bool {
    match h {
        HostName::Ipv4(o) => is_local_ipv4_spec(o[0], o[1], o[2], o[3]),
        HostName::Ipv6(s) => is_local_ipv6_spec(s@),
        HostName::Domain(d) => d@ == "localhost"@,
    }
}

/// Classifies the IPv4 address `a.b.c.d` as local or not.
pub fn is_local_ipv4(a: u8, b: u8, c: u8, d: u8) -> (r: bool)
    ensures
        r == is_local_ipv4_spec(a, b, c, d),
{
    if a == 10 {
        true
    } else if a == 172 && 16 <= b && b <= 31 {
        true
    } else if a == 192 && b == 168 {
        true
    } else if a == 127 {
        true
    } else if a == 169 && b == 254 {
        true
    } else if a == 255 && b == 255 && c == 255 && d == 255 {
        true
    } else if a == 192 && b == 0 && c == 2 {
        true
    } else if a == 198 && b == 51 && c == 100 {
        true
    } else if a == 203 && b == 0 && c == 113 {
        true
    } else {
        a == 0 && b == 0 && c == 0 && d == 0
    }
}

/// Classifies an IPv6 address, given by its eight segments, as local or not.
pub fn is_local_ipv6(s: &[u16; 8]) -> (r: bool)
    ensures
        r == is_local_ipv6_spec(s@),
{
    let s0 = s[0];
    if s0 >= 0xff00 {
        // Multicast: local unless the scope field says global (14).
        s0 % 16 != 14
    } else if s[0] == 0 && s[1] == 0 && s[2] == 0 && s[3] == 0 && s[4] == 0 && s[5] == 0 && s[6]
        == 0 && (s[7] == 0 || s[7] == 1) {
        // Loopback or unspecified.
        true
    } else if 0xfe80 <= s0 && s0 < 0xfec0 {
        // Unicast link-local.
        true
    } else if 0xfc00 <= s0 && s0 < 0xfe00 {
        // Unique local.
        true
    } else {
        // Documentation prefix 2001:db8::/32.
        s[0] == 0x2001 && s[1] == 0xdb8
    }
}

/// Classifies a host as local or not.
pub fn is_local_host(h: &HostName) -> (r: bool)
    ensures
        r == is_local_host_spec(*h),
{
    match h {
        HostName::Ipv4(o) => is_local_ipv4(o[0], o[1], o[2], o[3]),
        HostName::Ipv6(s) => is_local_ipv6(s),
        HostName::Domain(d) => crate::text::str_eq(d.as_str(), "localhost"),
    }
}

/// Every IPv4 address in 10.0.0.0/8, 127.0.0.0/8, 169.254.0.0/16 and
/// 192.168.0.0/16 is local, as are exactly 255.255.255.255 and 0.0.0.0,
/// while 8.8.8.8 is not local.
pub proof fn lemma_local_ipv4_ranges()
    ensures
        forall|b: u8, c: u8, d: u8| is_local_ipv4_spec(10, b, c, d),
        forall|b: u8, c: u8, d: u8| is_local_ipv4_spec(127, b, c, d),
        forall|c: u8, d: u8| is_local_ipv4_spec(169, 254, c, d),
        forall|c: u8, d: u8| is_local_ipv4_spec(192, 168, c, d),
        is_local_ipv4_spec(255, 255, 255, 255),
        is_local_ipv4_spec(0, 0, 0, 0),
        !is_local_ipv4_spec(8, 8, 8, 8),
{
}

} // verus!
