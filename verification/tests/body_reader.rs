use easy_http_request::engine::body_reader_new;
use easy_http_request::{HttpRequestError, HttpRequestOptions};

fn options(max_size: usize, max_millis: u64) -> HttpRequestOptions {
    let mut o = HttpRequestOptions::default();
    o.max_response_body_size = max_size;
    o.max_connection_time = max_millis;
    o
}

#[test]
fn test_reader_accumulates_chunks() {
    let mut reader = body_reader_new(&options(100, 0));
    assert!(reader.push_chunk(b"hello ", 1).is_ok());
    assert!(reader.push_chunk(b"world", 2).is_ok());
    assert_eq!(reader.into_body(), b"hello world".to_vec());
}

#[test]
fn test_reader_too_large_discards_everything() {
    let mut reader = body_reader_new(&options(10, 0));
    assert!(reader.push_chunk(b"123456", 1).is_ok());
    let r = reader.push_chunk(b"789012", 2);
    assert_eq!(r, Err(HttpRequestError::TooLarge));
    // No partial body survives the failure.
    assert!(reader.body.is_empty());
    assert!(reader.failed);
}

#[test]
fn test_reader_accepts_exactly_the_limit() {
    let mut reader = body_reader_new(&options(10, 0));
    assert!(reader.push_chunk(b"1234567890", 1).is_ok());
    assert_eq!(reader.into_body().len(), 10);
}

#[test]
fn test_reader_times_out_and_discards() {
    let mut reader = body_reader_new(&options(100, 50));
    assert!(reader.push_chunk(b"abc", 10).is_ok());
    let r = reader.push_chunk(b"def", 60);
    assert_eq!(r, Err(HttpRequestError::TimeOut));
    assert!(reader.body.is_empty());
}

#[test]
fn test_reader_size_limit_wins_over_time_limit() {
    let mut reader = body_reader_new(&options(2, 50));
    let r = reader.push_chunk(b"abc", 60);
    assert_eq!(r, Err(HttpRequestError::TooLarge));
}

#[test]
fn test_reader_unlimited_time_accepts_late_chunks() {
    let mut reader = body_reader_new(&options(100, 0));
    assert!(reader.push_chunk(b"abc", u128::MAX).is_ok());
    assert_eq!(reader.into_body(), b"abc".to_vec());
}
