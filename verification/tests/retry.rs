use meetuprsvp::retry::{
    read_seconds, retry_after_seconds, retry_header_name, DEFAULT_RETRY_SECONDS,
};

#[test]
fn a_count_of_seconds_is_read() {
    assert_eq!(read_seconds(b"10"), Some(10));
    assert_eq!(read_seconds(b"0"), Some(0));
    assert_eq!(read_seconds(b"7"), Some(7));
    assert_eq!(read_seconds(b"120"), Some(120));
    assert_eq!(read_seconds(b"0010"), Some(10));
}

#[test]
fn one_leading_plus_is_accepted() {
    assert_eq!(read_seconds(b"+10"), Some(10));
    assert_eq!(read_seconds(b"+0"), Some(0));
    assert_eq!(read_seconds(b"++10"), None);
    assert_eq!(read_seconds(b"+"), None);
    assert_eq!(read_seconds(b"1+0"), None);
}

#[test]
fn anything_else_is_no_count() {
    assert_eq!(read_seconds(b""), None);
    assert_eq!(read_seconds(b"-1"), None);
    assert_eq!(read_seconds(b"-0"), None);
    assert_eq!(read_seconds(b" 10"), None);
    assert_eq!(read_seconds(b"10 "), None);
    assert_eq!(read_seconds(b"1_0"), None);
    assert_eq!(read_seconds(b"1.5"), None);
    assert_eq!(read_seconds(b"ten"), None);
    assert_eq!(read_seconds(b"Wed, 21 Oct 2015 07:28:00 GMT"), None);
    assert_eq!(read_seconds(&[0x31, 0xff]), None);
    assert_eq!(read_seconds(&[0x2f]), None);
    assert_eq!(read_seconds(&[0x3a]), None);
}

#[test]
fn the_largest_count_fits_and_the_next_does_not() {
    assert_eq!(read_seconds(b"18446744073709551615"), Some(u64::MAX));
    assert_eq!(read_seconds(b"18446744073709551616"), None);
    assert_eq!(read_seconds(b"18446744073709551620"), None);
    assert_eq!(read_seconds(b"99999999999999999999"), None);
    assert_eq!(read_seconds(b"184467440737095516150"), None);
    assert_eq!(read_seconds(b"000000000000000000000000018446744073709551615"), Some(u64::MAX));
}

#[test]
fn an_overflow_hides_no_later_error() {
    assert_eq!(read_seconds(b"99999999999999999999x"), None);
}

#[test]
fn reading_agrees_with_the_standard_parser() {
    let samples: [&str; 24] = [
        "", "0", "5", "10", "+10", "-10", "+", "-", "++1", "+-1", "007", " 7", "7 ", "7\n", "1e3",
        "0x10", "18446744073709551615", "18446744073709551616", "+18446744073709551615",
        "123456789012345678901234567890", "4294967296", "1,000", "٣", "9",
    ];
    for text in samples {
        assert_eq!(read_seconds(text.as_bytes()), text.parse::<u64>().ok(), "{:?}", text);
    }
    for n in 0u64..2000 {
        let text = format!("{}", n);
        assert_eq!(read_seconds(text.as_bytes()), Some(n));
    }
}

#[test]
fn the_header_names_the_wait() {
    assert_eq!(retry_after_seconds(&Some(b"10".to_vec())), 10);
    assert_eq!(retry_after_seconds(&Some(b"0".to_vec())), 0);
    assert_eq!(retry_after_seconds(&Some(b"3600".to_vec())), 3600);
}

#[test]
fn a_missing_header_means_the_default() {
    assert_eq!(DEFAULT_RETRY_SECONDS, 5);
    assert_eq!(retry_after_seconds(&None), 5);
}

#[test]
fn a_header_that_is_no_count_means_the_default() {
    assert_eq!(retry_after_seconds(&Some(b"soon".to_vec())), 5);
    assert_eq!(retry_after_seconds(&Some(Vec::new())), 5);
    assert_eq!(retry_after_seconds(&Some(vec![0xc3, 0xa9])), 5);
    assert_eq!(retry_after_seconds(&Some(b"18446744073709551616".to_vec())), 5);
    assert_eq!(retry_after_seconds(&Some(b"Wed, 21 Oct 2015 07:28:00 GMT".to_vec())), 5);
}

#[test]
fn the_wait_agrees_with_the_transport_header() {
    let texts: [&str; 6] = ["10", "+3", "x", "", "12 ", "99999999999999999999"];
    for text in texts {
        let value = reqwest::header::HeaderValue::from_str(text).unwrap();
        let expected = value.to_str().unwrap_or("5").parse::<u64>().unwrap_or(5);
        assert_eq!(retry_after_seconds(&Some(value.as_bytes().to_vec())), expected);
    }
    let opaque = reqwest::header::HeaderValue::from_bytes(&[0x31, 0xe9]).unwrap();
    let expected = opaque.to_str().unwrap_or("5").parse::<u64>().unwrap_or(5);
    assert_eq!(retry_after_seconds(&Some(opaque.as_bytes().to_vec())), expected);
}

#[test]
fn the_wait_is_looked_for_under_retry_after() {
    assert_eq!(retry_header_name(), "Retry-After");
    let mut headers = reqwest::header::HeaderMap::new();
    headers.insert(
        reqwest::header::RETRY_AFTER,
        reqwest::header::HeaderValue::from_static("10"),
    );
    let found = headers.get(retry_header_name()).map(|value| value.as_bytes().to_vec());
    assert_eq!(retry_after_seconds(&found), 10);
}
