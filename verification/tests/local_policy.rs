use easy_http_request::local_policy::{is_local_host, is_local_ipv4, is_local_ipv6};
use easy_http_request::HostName;

#[test]
fn test_ipv4_private_ranges_are_local() {
    assert!(is_local_ipv4(10, 0, 0, 1));
    assert!(is_local_ipv4(10, 255, 255, 255));
    assert!(is_local_ipv4(172, 16, 0, 1));
    assert!(is_local_ipv4(172, 31, 200, 7));
    assert!(is_local_ipv4(192, 168, 1, 1));
}

#[test]
fn test_ipv4_loopback_and_link_local_are_local() {
    assert!(is_local_ipv4(127, 0, 0, 1));
    assert!(is_local_ipv4(127, 99, 3, 4));
    assert!(is_local_ipv4(169, 254, 0, 5));
}

#[test]
fn test_ipv4_broadcast_unspecified_documentation_are_local() {
    assert!(is_local_ipv4(255, 255, 255, 255));
    assert!(is_local_ipv4(0, 0, 0, 0));
    assert!(is_local_ipv4(192, 0, 2, 44));
    assert!(is_local_ipv4(198, 51, 100, 1));
    assert!(is_local_ipv4(203, 0, 113, 200));
}

#[test]
fn test_ipv4_public_addresses_are_not_local() {
    assert!(!is_local_ipv4(8, 8, 8, 8));
    assert!(!is_local_ipv4(1, 1, 1, 1));
    assert!(!is_local_ipv4(172, 15, 0, 1));
    assert!(!is_local_ipv4(172, 32, 0, 1));
    assert!(!is_local_ipv4(192, 167, 0, 1));
    assert!(!is_local_ipv4(255, 255, 255, 254));
}

#[test]
fn test_ipv6_loopback_and_unspecified_are_local() {
    assert!(is_local_ipv6(&[0, 0, 0, 0, 0, 0, 0, 1]));
    assert!(is_local_ipv6(&[0, 0, 0, 0, 0, 0, 0, 0]));
}

#[test]
fn test_ipv6_scoped_ranges_are_local() {
    assert!(is_local_ipv6(&[0xfe80, 0, 0, 0, 0, 0, 0, 1]));
    assert!(is_local_ipv6(&[0xfc00, 0, 0, 0, 0, 0, 0, 1]));
    assert!(is_local_ipv6(&[0xfd12, 0x3456, 0, 0, 0, 0, 0, 1]));
    assert!(is_local_ipv6(&[0x2001, 0xdb8, 0, 0, 0, 0, 0, 1]));
}

#[test]
fn test_ipv6_multicast_scope() {
    // Multicast with a non-global scope is local; global scope (14) is not.
    assert!(is_local_ipv6(&[0xff02, 0, 0, 0, 0, 0, 0, 1]));
    assert!(!is_local_ipv6(&[0xff0e, 0, 0, 0, 0, 0, 0, 1]));
}

#[test]
fn test_ipv6_global_unicast_is_not_local() {
    assert!(!is_local_ipv6(&[0x2607, 0xf8b0, 0, 0, 0, 0, 0, 0x200e]));
    assert!(!is_local_ipv6(&[0x2001, 0xdb9, 0, 0, 0, 0, 0, 1]));
    // The deprecated site-local range is not in the policy's local set.
    assert!(!is_local_ipv6(&[0xfec0, 0, 0, 0, 0, 0, 0, 1]));
}

#[test]
fn test_localhost_domain_is_local() {
    assert!(is_local_host(&HostName::Domain(String::from("localhost"))));
    assert!(!is_local_host(&HostName::Domain(String::from("example.com"))));
    assert!(!is_local_host(&HostName::Domain(String::from("localhost.example"))));
    assert!(is_local_host(&HostName::Ipv4([127, 0, 0, 1])));
    assert!(!is_local_host(&HostName::Ipv4([93, 184, 216, 34])));
}
