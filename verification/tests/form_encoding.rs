use easy_http_request::form_encoding::form_urlencode;

fn pairs(ps: &[(&str, &str)]) -> Vec<(String, String)> {
    ps.iter().map(|(k, v)| (k.to_string(), v.to_string())).collect()
}

#[test]
fn test_form_encoding_round_trip() {
    let encoded = form_urlencode(&pairs(&[("a", "1"), ("b", "x y")]));
    assert_eq!(encoded, b"a=1&b=x+y".to_vec());
}

#[test]
fn test_form_encoding_escapes_reserved_bytes() {
    let encoded = form_urlencode(&pairs(&[("k e", "v&1")]));
    assert_eq!(encoded, b"k+e=v%261".to_vec());
}

#[test]
fn test_form_encoding_escapes_utf8_bytes() {
    let encoded = form_urlencode(&pairs(&[("k", "\u{e4}")]));
    assert_eq!(encoded, b"k=%C3%A4".to_vec());
}

#[test]
fn test_form_encoding_keeps_unreserved_bytes() {
    let encoded = form_urlencode(&pairs(&[("A-b_c.d*", "Z9")]));
    assert_eq!(encoded, b"A-b_c.d*=Z9".to_vec());
}

#[test]
fn test_form_encoding_empty_list() {
    let encoded = form_urlencode(&pairs(&[]));
    assert_eq!(encoded, Vec::<u8>::new());
}

#[test]
fn test_form_encoding_empty_key_and_value() {
    let encoded = form_urlencode(&pairs(&[("", ""), ("a", "")]));
    assert_eq!(encoded, b"=&a=".to_vec());
}
